//! The bounded-random note-pair generator.
//!
//! A generated pair holds a uniformly drawn reference note and a divergence
//! note offset from it by a random semitone count, clamped into the playing
//! range between E of octave 1 and F of octave 4.

use vstd::prelude::*;

use crate::notes::{
    midi_of, note_of_midi, Accidental, Note, NoteLetter,
};

verus! {

/// Declares rand_chacha's ChaCha12Rng, the random number source a
/// generator owns; the verifier treats its values as opaque.
#[verifier::external_type_specification]
#[verifier::external_body]
pub struct ExChaCha12Rng(rand_chacha::ChaCha12Rng);

/// Relies on rand::Rng::random_range over an inclusive byte range: the
/// sample lies within the range.  It panics on an empty range, which the
/// precondition rules out.
#[verifier::external_body]
fn random_range_u8(rng: &mut rand_chacha::ChaCha12Rng, low: u8, high: u8) -> (sample: u8)
    requires
        low <= high,
    ensures
        low <= sample <= high,
{
    rand::Rng::random_range(rng, low..=high)
}

/// Relies on rand::Rng::random_range over an inclusive signed byte range:
/// the sample lies within the range.  It panics on an empty range, which
/// the precondition rules out.
#[verifier::external_body]
fn random_range_i8(rng: &mut rand_chacha::ChaCha12Rng, low: i8, high: i8) -> (sample: i8)
    requires
        low <= high,
    ensures
        low <= sample <= high,
{
    rand::Rng::random_range(rng, low..=high)
}

/// Relies on rand::SeedableRng::try_from_os_rng: a generator seeded from
/// the operating system's entropy source, or nothing when that source
/// fails.
#[verifier::external_body]
pub(crate) fn rng_from_os() -> (rng: Option<rand_chacha::ChaCha12Rng>) {
    rand::SeedableRng::try_from_os_rng().ok()
}

/// Relies on rand::SeedableRng::seed_from_u64: a generator built from the
/// given seed.  It never fails.
#[verifier::external_body]
pub(crate) fn rng_from_seed(seed: u64) -> (rng: rand_chacha::ChaCha12Rng) {
    rand::SeedableRng::seed_from_u64(seed)
}

/// A source of note pairs for a game session.
pub trait NoteSequence {
    fn next_note(&mut self) -> NoteTuple;
}

/// A reference note and a divergence note presented together as one
/// guessing exercise.
#[derive(Debug, Copy, Clone, PartialEq, Eq, Structural)]
pub struct NoteTuple {
    pub reference: Note,
    pub divergence: Note,
}

impl NoteTuple {
    fn try_new(ref_note: Note, div_note: Note) -> (pair: NoteTuple)
        ensures
            pair == (NoteTuple { reference: ref_note, divergence: div_note }),
    {
        NoteTuple { reference: ref_note, divergence: div_note }
    }

    pub fn reference(&self) -> (note: Note)
        ensures
            note == self.reference,
    {
        self.reference
    }

    pub fn divergence(&self) -> (note: Note)
        ensures
            note == self.divergence,
    {
        self.divergence
    }
}

/// The lower end of the playing range that a divergence is clamped into.
pub open spec fn lower_bound_note() -> Note {
    Note { letter: NoteLetter::E, accidental: Accidental::Natural, octave: 1 }
}

/// The upper end of the playing range that a divergence is clamped into.
pub open spec fn upper_bound_note() -> Note {
    Note { letter: NoteLetter::F, accidental: Accidental::Natural, octave: 4 }
}

/// The divergence note a reference and a sampled offset produce.  A
/// negative offset lowers the reference and keeps at least the lower
/// bound; a non-negative offset raises it and keeps at most the upper
/// bound.  Notes are compared by MIDI number, and a tie keeps the bound
/// below but the raised note above, as the ordered comparisons do.
pub open spec fn divergence_of(reference: Note, offset: int) -> Note
    recommends
        -12 <= offset <= 12,
{
    let reference_midi = midi_of(reference);
    if offset < 0 {
        let lowered = note_of_midi(
            if reference_midi + offset < 0 {
                0
            } else {
                reference_midi + offset
            },
        );
        if midi_of(lowered) > midi_of(lower_bound_note()) {
            lowered
        } else {
            lower_bound_note()
        }
    } else {
        let raised = note_of_midi(reference_midi + offset);
        if midi_of(raised) <= midi_of(upper_bound_note()) {
            raised
        } else {
            upper_bound_note()
        }
    }
}

/// One uniformly drawn note letter.
fn random_letter(rng: &mut rand_chacha::ChaCha12Rng) -> NoteLetter {
    let index = random_range_u8(rng, 0, 6);
    match index {
        0 => NoteLetter::C,
        1 => NoteLetter::D,
        2 => NoteLetter::E,
        3 => NoteLetter::F,
        4 => NoteLetter::G,
        5 => NoteLetter::A,
        _ => NoteLetter::B,
    }
}

/// One uniformly drawn accidental.
fn random_accidental(rng: &mut rand_chacha::ChaCha12Rng) -> Accidental {
    let index = random_range_u8(rng, 0, 2);
    match index {
        0 => Accidental::Sharp,
        1 => Accidental::Flat,
        _ => Accidental::Natural,
    }
}

/// One uniformly drawn note with an octave between 1 and 4.
fn random_note(rng: &mut rand_chacha::ChaCha12Rng) -> (note: Note)
    ensures
        1 <= note.octave <= 4,
{
    let letter = random_letter(rng);
    let accidental = random_accidental(rng);
    let octave = random_range_u8(rng, 1, 4);

    Note { letter, accidental, octave }
}

/// Applies a sampled offset to a reference note and clamps the result into
/// the playing range.
fn diverge(reference: Note, offset: i8) -> (note: Note)
    requires
        -12 <= offset <= 12,
    ensures
        note == divergence_of(reference, offset as int),
{
    let reference_midi = reference.to_midi_number();
    if offset < 0 {
        let magnitude = (-offset) as u8;
        let lowered = reference.sub(magnitude);
        let min_note = Note::new(NoteLetter::E, Accidental::Natural, 1);
        if lowered.to_midi_number() > min_note.to_midi_number() {
            lowered
        } else {
            min_note
        }
    } else {
        let magnitude = offset as u8;
        let raised = reference.add(magnitude);
        let max_note = Note::new(NoteLetter::F, Accidental::Natural, 4);
        if raised.to_midi_number() <= max_note.to_midi_number() {
            raised
        } else {
            max_note
        }
    }
}

/// A note-pair source backed by a ChaCha random number generator.
pub struct RandomNoteSequence {
    rng: rand_chacha::ChaCha12Rng,
}

impl RandomNoteSequence {
    pub fn new(rng: rand_chacha::ChaCha12Rng) -> RandomNoteSequence {
        RandomNoteSequence { rng }
    }
}

impl NoteSequence for RandomNoteSequence {
    fn next_note(&mut self) -> (pair: NoteTuple)
        ensures
            1 <= pair.reference.octave <= 4,
            exists|offset: int|
                -12 <= offset <= 12 && pair.divergence == #[trigger] divergence_of(
                    pair.reference,
                    offset,
                ),
    {
        let ref_note = random_note(&mut self.rng);
        let offset = random_range_i8(&mut self.rng, -12, 12);

        let div_note = diverge(ref_note, offset);

        NoteTuple::try_new(ref_note, div_note)
    }
}

/// The generated divergence stays inside the playing range from E of
/// octave 1 (MIDI 28) to F of octave 4 (MIDI 65), as long as the offset
/// lands the reference inside the range that the one-sided clamp can
/// repair: an offset below the range is lifted back to the lower bound and
/// an offset above it is cut back to the upper bound, but the clamp never
/// moves a note in the other direction.
pub proof fn lemma_divergence_in_bounds(reference: Note, offset: int)
    requires
        -12 <= offset <= 12,
        offset < 0 ==> 12 <= midi_of(reference) + offset <= midi_of(upper_bound_note()),
        offset >= 0 ==> midi_of(reference) + offset >= midi_of(lower_bound_note()),
    ensures
        midi_of(lower_bound_note()) <= midi_of(divergence_of(reference, offset)) <= midi_of(
            upper_bound_note(),
        ),
{
    crate::notes::lemma_midi_in_range(reference);
    let shifted = midi_of(reference) + offset;
    if offset < 0 {
        crate::notes::lemma_note_of_midi_midi(shifted);
    } else {
        crate::notes::lemma_note_of_midi_midi(if shifted > 255 { 255 } else { shifted });
    }
}

} // verus!
