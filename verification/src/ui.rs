//! The message protocol between the user interface and the core.
//!
//! Inbound messages carry commands from the interface into the state
//! machine; outbound messages carry generated pairs and scored guesses
//! back.  The transport that moves them lives outside the library.

use vstd::prelude::*;

use crate::notes::{distance_of, Note};
use crate::random::NoteTuple;

verus! {

/// A command sent by the user interface to the core.
#[derive(Debug, Clone, PartialEq, Eq, Structural)]
pub enum UserInterfaceMessage {
    MainMenuMessage(UIMainMenuMessage),
    GameMessage(UIGameMessage),
}

/// A command available in the main menu.
#[derive(Debug, Clone, PartialEq, Eq, Structural)]
pub enum UIMainMenuMessage {
    Start,
    Quit,
}

/// A command available while a game session runs.
#[derive(Debug, Clone, PartialEq, Eq, Structural)]
pub enum UIGameMessage {
    NoteRequest,
    StopRequest,
    Guess(Note),
}

/// An event sent by the core back to the user interface.
#[derive(Debug, Clone, PartialEq, Eq, Structural)]
pub enum CoreMessage {
    MainMenuMessage(CoreMainMenuMessage),
    GameMessage(CoreGameMessage),
}

/// An event of a running game session.
#[derive(Debug, Clone, PartialEq, Eq, Structural)]
pub enum CoreGameMessage {
    NoteResponse(NextNoteTuple),
    GuessResponse(NoteGuess),
}

/// A freshly generated note pair announced to the interface.
#[derive(Debug, Copy, Clone, PartialEq, Eq, Structural)]
pub struct NextNoteTuple {
    pub note_tuple: NoteTuple,
}

impl NextNoteTuple {
    pub fn new(note_tuple: NoteTuple) -> (next: Self)
        ensures
            next == (NextNoteTuple { note_tuple }),
    {
        Self { note_tuple }
    }
}

/// A scored guess: the pair it was made against, the note played, whether
/// the played note spells the reference exactly, and the distance to the
/// divergence.
#[derive(Debug, Copy, Clone, PartialEq, Eq, Structural)]
pub struct NoteGuess {
    pub true_note_tuple: NoteTuple,
    pub note_played: Note,
    pub correct: bool,
    pub score: u8,
}

/// The guess result a pair and a played note determine: correct exactly
/// when the played note matches the reference field for field, and scored
/// by the distance between the played note and the divergence.
pub open spec fn guess_of(note_tuple: NoteTuple, note: Note) -> NoteGuess {
    NoteGuess {
        true_note_tuple: note_tuple,
        note_played: note,
        correct: note_tuple.reference == note,
        score: distance_of(note_tuple.divergence, note) as u8,
    }
}

impl NoteGuess {
    pub fn new(note_tuple: NoteTuple, note: Note) -> (guess: Self)
        ensures
            guess == guess_of(note_tuple, note),
            guess.correct <==> (note.letter == note_tuple.reference.letter
                && note.accidental == note_tuple.reference.accidental && note.octave
                == note_tuple.reference.octave),
            guess.score == distance_of(note, note_tuple.divergence),
    {
        let correct = note_tuple.reference() == note;
        Self {
            true_note_tuple: note_tuple,
            note_played: note,
            correct,
            score: note_tuple.divergence().distance(&note),
        }
    }
}

/// An event of the main menu.
#[derive(Debug, Clone, PartialEq, Eq, Structural)]
pub struct CoreMainMenuMessage;

} // verus!
