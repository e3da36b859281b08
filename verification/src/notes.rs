//! The pitch domain model: spelled notes and their MIDI-number arithmetic.

use vstd::prelude::*;

verus! {

/// The seven letter names of the diatonic scale.
#[derive(Debug, PartialEq, Eq, Copy, Clone, Structural)]
pub enum NoteLetter {
    C,
    D,
    E,
    F,
    G,
    A,
    B,
}

/// A chromatic alteration of a letter name.
#[derive(Debug, PartialEq, Eq, Copy, Clone, Structural)]
pub enum Accidental {
    Sharp,
    Flat,
    Natural,
}

/// A musical note spelled as letter, accidental and octave.
///
/// Two enharmonic spellings (such as C sharp and D flat) share a MIDI
/// number but are distinct values of this type.
#[derive(Debug, PartialEq, Eq, Copy, Clone, Structural)]
pub struct Note {
    pub letter: NoteLetter,
    pub accidental: Accidental,
    pub octave: u8,
}

/// Semitone offset of a letter within its octave: C maps to 0 and B to 11.
pub open spec fn letter_base(letter: NoteLetter) -> int {
    match letter {
        NoteLetter::C => 0,
        NoteLetter::D => 2,
        NoteLetter::E => 4,
        NoteLetter::F => 5,
        NoteLetter::G => 7,
        NoteLetter::A => 9,
        NoteLetter::B => 11,
    }
}

/// Semitone shift of an accidental: sharp raises and flat lowers by one.
pub open spec fn accidental_shift(accidental: Accidental) -> int {
    match accidental {
        Accidental::Sharp => 1,
        Accidental::Flat => -1,
        Accidental::Natural => 0,
    }
}

/// The unclamped semitone index of a note, with C of octave 4 at 60.
pub open spec fn raw_midi(note: Note) -> int {
    letter_base(note.letter) + (note.octave + 1) * 12 + accidental_shift(note.accidental)
}

/// The MIDI number of a note: its semitone index clamped to [0, 127].
pub open spec fn midi_of(note: Note) -> int {
    if raw_midi(note) < 0 {
        0
    } else if raw_midi(note) > 127 {
        127
    } else {
        raw_midi(note)
    }
}

impl Note {
    pub fn new(letter: NoteLetter, accidental: Accidental, octave: u8) -> (note: Note)
        ensures
            note == (Note { letter, accidental, octave }),
    {
        Note { letter, accidental, octave }
    }

    /// The MIDI number of the note, clamped to the valid range [0, 127].
    pub fn to_midi_number(&self) -> (midi_number: u8)
        ensures
            midi_number == midi_of(*self),
    {
        let mut midi_number: i16 = match self.letter {
            NoteLetter::C => 0,
            NoteLetter::D => 2,
            NoteLetter::E => 4,
            NoteLetter::F => 5,
            NoteLetter::G => 7,
            NoteLetter::A => 9,
            NoteLetter::B => 11,
        };
        midi_number += ((self.octave as i16) + 1) * 12;

        match self.accidental {
            Accidental::Sharp => midi_number += 1,
            Accidental::Flat => midi_number -= 1,
            Accidental::Natural => {},
        }
        if midi_number < 0 {
            0
        } else if midi_number > 127 {
            127
        } else {
            midi_number as u8
        }
    }
}

/// The letter a pitch class decodes to: black keys take the letter below.
pub open spec fn class_letter(pitch_class: int) -> NoteLetter {
    if pitch_class == 0 || pitch_class == 1 {
        NoteLetter::C
    } else if pitch_class == 2 || pitch_class == 3 {
        NoteLetter::D
    } else if pitch_class == 4 {
        NoteLetter::E
    } else if pitch_class == 5 || pitch_class == 6 {
        NoteLetter::F
    } else if pitch_class == 7 || pitch_class == 8 {
        NoteLetter::G
    } else if pitch_class == 9 || pitch_class == 10 {
        NoteLetter::A
    } else {
        NoteLetter::B
    }
}

/// The accidental a pitch class decodes to: sharp on the five black keys,
/// natural otherwise.
pub open spec fn class_accidental(pitch_class: int) -> Accidental {
    if pitch_class == 1 || pitch_class == 3 || pitch_class == 6 || pitch_class == 8
        || pitch_class == 10 {
        Accidental::Sharp
    } else {
        Accidental::Natural
    }
}

/// The note a MIDI number decodes to.  Sharps are preferred for black keys
/// and naturals for white keys, so the decoding is lossy for flat
/// spellings.  Below 12 the octave field wraps around to 255, exactly as
/// the executable decoder's unsigned octave does.
pub open spec fn note_of_midi(midi_number: int) -> Note
    recommends
        0 <= midi_number <= 255,
{
    let octave: u8 = if midi_number < 12 {
        255
    } else {
        (midi_number / 12 - 1) as u8
    };
    Note {
        letter: class_letter(midi_number % 12),
        accidental: class_accidental(midi_number % 12),
        octave,
    }
}

/// The absolute difference of two notes' MIDI numbers.
pub open spec fn distance_of(a: Note, b: Note) -> int {
    if midi_of(a) >= midi_of(b) {
        midi_of(a) - midi_of(b)
    } else {
        midi_of(b) - midi_of(a)
    }
}

/// The note that raising a note by the given semitones produces: the sum
/// of MIDI numbers saturates at 255 before it is decoded again.
pub open spec fn add_of(note: Note, semitones: u8) -> Note {
    let raised = midi_of(note) + semitones;
    note_of_midi(if raised > 255 { 255 } else { raised })
}

/// The note that lowering a note by the given semitones produces: the
/// difference of MIDI numbers saturates at 0 before it is decoded again.
pub open spec fn sub_of(note: Note, semitones: u8) -> Note {
    let lowered = midi_of(note) - semitones;
    note_of_midi(if lowered < 0 { 0 } else { lowered })
}

impl Note {
    /// The note a MIDI number decodes to, preferring sharp spellings for
    /// black keys and natural spellings for white keys.
    pub fn from_midi_number(midi_number: u8) -> (note: Note)
        ensures
            note == note_of_midi(midi_number as int),
    {
        let octave: u8 = if midi_number < 12 {
            255
        } else {
            midi_number / 12 - 1
        };
        let pitch_class = midi_number % 12;

        let (letter, accidental) = match pitch_class {
            0 => (NoteLetter::C, Accidental::Natural),
            1 => (NoteLetter::C, Accidental::Sharp),
            2 => (NoteLetter::D, Accidental::Natural),
            3 => (NoteLetter::D, Accidental::Sharp),
            4 => (NoteLetter::E, Accidental::Natural),
            5 => (NoteLetter::F, Accidental::Natural),
            6 => (NoteLetter::F, Accidental::Sharp),
            7 => (NoteLetter::G, Accidental::Natural),
            8 => (NoteLetter::G, Accidental::Sharp),
            9 => (NoteLetter::A, Accidental::Natural),
            10 => (NoteLetter::A, Accidental::Sharp),
            _ => (NoteLetter::B, Accidental::Natural),
        };

        Note { letter, accidental, octave }
    }

    /// The interval between two notes in semitones.
    pub fn distance(&self, note: &Note) -> (semitones: u8)
        ensures
            semitones == distance_of(*self, *note),
    {
        let note_value = self.to_midi_number();
        let other_note_value = note.to_midi_number();

        if note_value > other_note_value {
            note_value - other_note_value
        } else {
            other_note_value - note_value
        }
    }

    /// Raises the note by the given semitones, saturating at the top of
    /// the MIDI range.
    pub fn add(self, semitones: u8) -> (note: Note)
        ensures
            note == add_of(self, semitones),
            0 <= midi_of(note) <= 127,
            12 <= midi_of(self) + semitones ==> midi_of(note) == (if midi_of(self) + semitones
                > 127 {
                127int
            } else {
                midi_of(self) + semitones
            }),
    {
        let current_midi = self.to_midi_number();
        let new_midi = current_midi.saturating_add(semitones);
        proof {
            lemma_note_of_midi_midi(new_midi as int);
        }
        Note::from_midi_number(new_midi)
    }

    /// Lowers the note by the given semitones, saturating at the bottom of
    /// the MIDI range.
    pub fn sub(self, semitones: u8) -> (note: Note)
        ensures
            note == sub_of(self, semitones),
            0 <= midi_of(note) <= 127,
            12 <= midi_of(self) - semitones ==> midi_of(note) == midi_of(self) - semitones,
    {
        let current_midi = self.to_midi_number();
        let new_midi = current_midi.saturating_sub(semitones);
        proof {
            if new_midi >= 12 {
                lemma_note_of_midi_midi(new_midi as int);
            }
        }
        Note::from_midi_number(new_midi)
    }
}

impl PartialOrd for Note {
    /// Notes are ordered by MIDI number alone, so two enharmonic
    /// spellings compare as equal although they are distinct values.
    fn partial_cmp(&self, other: &Self) -> (ordering: Option<core::cmp::Ordering>) {
        let own_midi = self.to_midi_number();
        let other_midi = other.to_midi_number();
        if own_midi < other_midi {
            Some(core::cmp::Ordering::Less)
        } else if own_midi == other_midi {
            Some(core::cmp::Ordering::Equal)
        } else {
            Some(core::cmp::Ordering::Greater)
        }
    }
}

impl vstd::std_specs::cmp::PartialOrdSpecImpl for Note {
    open spec fn obeys_partial_cmp_spec() -> bool {
        true
    }

    open spec fn partial_cmp_spec(&self, other: &Self) -> Option<core::cmp::Ordering> {
        if midi_of(*self) < midi_of(*other) {
            Some(core::cmp::Ordering::Less)
        } else if midi_of(*self) == midi_of(*other) {
            Some(core::cmp::Ordering::Equal)
        } else {
            Some(core::cmp::Ordering::Greater)
        }
    }
}

/// Every note's MIDI number lies in [0, 127]: the conversion clamps.
pub proof fn lemma_midi_in_range(note: Note)
    ensures
        0 <= midi_of(note) <= 127,
{
}

/// Decoding a pitch class gives back the class: the letter's base offset
/// and the accidental's shift add up to the pitch class.
proof fn lemma_class_recombines(pitch_class: int)
    requires
        0 <= pitch_class < 12,
    ensures
        letter_base(class_letter(pitch_class)) + accidental_shift(class_accidental(pitch_class))
            == pitch_class,
{
}

/// The MIDI number of a decoded note: exact up to 127, clamped above, and
/// 127 again below 12, where the decoder's octave wraps to 255.
pub proof fn lemma_note_of_midi_midi(midi_number: int)
    requires
        0 <= midi_number <= 255,
    ensures
        12 <= midi_number <= 127 ==> midi_of(note_of_midi(midi_number)) == midi_number,
        midi_number > 127 ==> midi_of(note_of_midi(midi_number)) == 127,
        midi_number < 12 ==> midi_of(note_of_midi(midi_number)) == 127,
{
    let note = note_of_midi(midi_number);
    lemma_class_recombines(midi_number % 12);
    if midi_number < 12 {
        assert(midi_number % 12 == midi_number);
        assert(raw_midi(note) == midi_number + 256 * 12);
    } else {
        vstd::arithmetic::div_mod::lemma_fundamental_div_mod(midi_number, 12);
        assert(note.octave == midi_number / 12 - 1);
        assert(raw_midi(note) == midi_number);
    }
}

/// The distance between two notes does not depend on their order.
pub proof fn lemma_distance_symmetric(a: Note, b: Note)
    ensures
        distance_of(a, b) == distance_of(b, a),
{
}

/// Encoding a natural note and decoding the result gives the note back,
/// as long as the encoding did not clamp.  (A flat or sharp spelling need
/// not survive the round trip: the decoder prefers sharps and naturals.)
pub proof fn lemma_midi_round_trip(note: Note)
    requires
        note.accidental is Natural,
        note.octave <= 9,
        raw_midi(note) <= 127,
    ensures
        note_of_midi(midi_of(note)) == note,
{
    let midi_number = midi_of(note);
    assert(midi_number == letter_base(note.letter) + (note.octave + 1) * 12);
    vstd::arithmetic::div_mod::lemma_fundamental_div_mod_converse(
        midi_number,
        12,
        note.octave + 1,
        letter_base(note.letter),
    );
    assert(midi_number / 12 == note.octave + 1);
    assert(midi_number % 12 == letter_base(note.letter));
}

} // verus!
