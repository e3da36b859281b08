//! Game and menu state owned by the core's state machine.

use vstd::prelude::*;

use crate::notes::Note;
use crate::random::{rng_from_os, rng_from_seed, NoteSequence, NoteTuple, RandomNoteSequence};
use crate::ui::{guess_of, NoteGuess};

verus! {

/// The state of the core: resting in the main menu or running a game mode.
pub enum State {
    MainMenuState(MainMenuState),
    GameModeState(GameModeState),
}

impl Default for State {
    fn default() -> (state: Self)
        ensures
            state is MainMenuState,
    {
        State::MainMenuState(MainMenuState {})
    }
}

/// The main menu carries no data of its own.
#[derive(Default)]
pub struct MainMenuState {}

/// The game modes a session can run; currently the single random-interval
/// mode.
pub enum GameModeState {
    RandomMode(Box<RandomMode>),
}

impl Default for GameModeState {
    fn default() -> (state: Self)
        ensures
            state matches GameModeState::RandomMode(mode) && mode.current_note_tuple is None,
    {
        GameModeState::RandomMode(Box::new(RandomMode::default()))
    }
}

/// A running random-interval session: its note generator and the pair most
/// recently generated, if any.
pub struct RandomMode {
    pub note_generator: RandomNoteSequence,
    pub current_note_tuple: Option<NoteTuple>,
    pub _statistics: RandomModeStatistics,
}

impl Default for RandomMode {
    fn default() -> (mode: Self)
        ensures
            mode.current_note_tuple is None,
    {
        let rng = match rng_from_os() {
            Some(rng) => rng,
            // The system entropy source failed; fall back to a fixed seed
            // rather than abort: the generator needs no secrecy.
            None => rng_from_seed(0),
        };
        let note_generator = RandomNoteSequence::new(rng);
        Self {
            note_generator,
            current_note_tuple: None,
            _statistics: RandomModeStatistics,
        }
    }
}

/// A guess was requested although the session holds no generated pair yet.
#[derive(Debug, Clone, PartialEq, Eq, Structural)]
pub enum GuessError {
    NoActiveTuple,
}

impl RandomMode {
    /// Generates the next pair and stores it as the session's current one.
    pub fn next_note(&mut self) -> (pair: NoteTuple)
        ensures
            final(self).current_note_tuple == Some(pair),
            final(self)._statistics == old(self)._statistics,
            1 <= pair.reference.octave <= 4,
            exists|offset: int|
                -12 <= offset <= 12 && pair.divergence == #[trigger] crate::random::divergence_of(
                    pair.reference,
                    offset,
                ),
    {
        let note_tuple = self.note_generator.next_note();
        self.current_note_tuple = Some(note_tuple);
        note_tuple
    }

    /// Scores a guess against the current pair, or reports that no pair
    /// was generated first.  The session itself is left unchanged.
    pub fn note_guess(&mut self, note: Note) -> (result: Result<NoteGuess, GuessError>)
        ensures
            *final(self) == *old(self),
            match old(self).current_note_tuple {
                Some(note_tuple) => result == Ok::<NoteGuess, GuessError>(
                    guess_of(note_tuple, note),
                ),
                None => result == Err::<NoteGuess, GuessError>(GuessError::NoActiveTuple),
            },
    {
        match &self.current_note_tuple {
            Some(note_tuple) => Ok(NoteGuess::new(*note_tuple, note)),
            None => Err(GuessError::NoActiveTuple),
        }
    }
}

/// Per-session statistics; empty for now, reserved for an adaptive
/// learning extension.
#[derive(Debug, Default, Copy, Clone, PartialEq, Eq, Structural)]
pub struct RandomModeStatistics;

} // verus!
