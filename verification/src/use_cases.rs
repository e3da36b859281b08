//! The state machine that sequences menu and game transitions.
//!
//! Handling a command mutates the model and returns the externally visible
//! effects in order: outbound messages to the interface and notes to play.
//! The loop that receives commands, sends the messages and drives the
//! audio device lives outside the library and performs the returned
//! actions one after the other.

use vstd::prelude::*;

use crate::notes::Note;
use crate::random::{divergence_of, NoteTuple};
use crate::state::{GameModeState, MainMenuState, State};
use crate::ui::{
    guess_of, CoreGameMessage, CoreMessage, NextNoteTuple, UIGameMessage, UIMainMenuMessage,
    UserInterfaceMessage,
};

verus! {

/// How long each note of a generated pair is played, in seconds.
pub const PLAY_SECONDS: u64 = 1;

/// The model the state machine owns: the current state and whether the
/// command loop keeps running.
pub struct CoreModel {
    pub state: State,
    pub running: bool,
}

impl CoreModel {
    /// A fresh model: resting in the main menu, with the loop running.
    pub fn new() -> (model: CoreModel)
        ensures
            model.state is MainMenuState,
            model.running,
    {
        CoreModel { state: State::default(), running: true }
    }
}

/// One externally visible effect of handling a command: an outbound
/// message to the interface, or a note played for a number of seconds.
#[derive(Debug, Clone, PartialEq, Eq, Structural)]
pub enum CoreAction {
    Emit(CoreMessage),
    Play(Note, u64),
}

/// A command that the core handles by mutating the model and returning the
/// actions to perform, in order.
pub trait CoreMessageHandler {
    fn handle(self, model: &mut CoreModel) -> Vec<CoreAction>;
}

/// The actions a freshly generated pair produces: the pair is announced
/// first, then its reference and its divergence are played in turn.
pub open spec fn note_request_actions(pair: NoteTuple) -> Seq<CoreAction> {
    seq![
        CoreAction::Emit(
            CoreMessage::GameMessage(
                CoreGameMessage::NoteResponse(NextNoteTuple { note_tuple: pair }),
            ),
        ),
        CoreAction::Play(pair.reference, PLAY_SECONDS),
        CoreAction::Play(pair.divergence, PLAY_SECONDS),
    ]
}

/// The pairs the generator can hand out: the reference's octave lies
/// between 1 and 4 and the divergence comes from clamping some offset of
/// at most an octave.
pub open spec fn generated_pair(pair: NoteTuple) -> bool {
    &&& 1 <= pair.reference.octave <= 4
    &&& exists|offset: int|
        -12 <= offset <= 12 && pair.divergence == #[trigger] divergence_of(pair.reference, offset)
}

/// What handling a main-menu command does: Start opens a fresh game
/// session with no pair generated yet, Quit stops the loop; neither sends
/// anything.
pub open spec fn menu_step(
    message: UIMainMenuMessage,
    pre: CoreModel,
    post: CoreModel,
    actions: Seq<CoreAction>,
) -> bool {
    &&& actions.len() == 0
    &&& match message {
        UIMainMenuMessage::Start => {
            &&& post.running == pre.running
            &&& post.state matches State::GameModeState(GameModeState::RandomMode(mode))
            &&& mode.current_note_tuple is None
        },
        UIMainMenuMessage::Quit => {
            &&& post.running == false
            &&& post.state == pre.state
        },
    }
}

/// What handling a game command does.  A note request in a running session
/// stores a fresh pair, announces it and plays both notes; a guess against
/// a stored pair is scored against that pair and answered; a stop request
/// returns to the main menu and drops the session.  A note request or a
/// guess outside a session, or a guess before any pair exists, changes
/// nothing and sends nothing.
pub open spec fn game_step(
    message: UIGameMessage,
    pre: CoreModel,
    post: CoreModel,
    actions: Seq<CoreAction>,
) -> bool {
    match message {
        UIGameMessage::NoteRequest => {
            if pre.state is GameModeState {
                &&& post.running == pre.running
                &&& post.state matches State::GameModeState(GameModeState::RandomMode(mode))
                &&& mode.current_note_tuple matches Some(pair)
                &&& generated_pair(pair)
                &&& actions == note_request_actions(pair)
            } else {
                post == pre && actions.len() == 0
            }
        },
        UIGameMessage::StopRequest => {
            &&& post.running == pre.running
            &&& post.state is MainMenuState
            &&& actions.len() == 0
        },
        UIGameMessage::Guess(note) => {
            &&& post == pre
            &&& match pre.state {
                State::GameModeState(GameModeState::RandomMode(mode)) => {
                    match mode.current_note_tuple {
                        Some(pair) => actions == seq![
                            CoreAction::Emit(
                                CoreMessage::GameMessage(
                                    CoreGameMessage::GuessResponse(guess_of(pair, note)),
                                ),
                            ),
                        ],
                        None => actions.len() == 0,
                    }
                },
                State::MainMenuState(_) => actions.len() == 0,
            }
        },
    }
}

/// What handling any command does: the main-menu and game rules above,
/// by the command's kind.
pub open spec fn core_step(
    message: UserInterfaceMessage,
    pre: CoreModel,
    post: CoreModel,
    actions: Seq<CoreAction>,
) -> bool {
    match message {
        UserInterfaceMessage::MainMenuMessage(menu_message) => menu_step(
            menu_message,
            pre,
            post,
            actions,
        ),
        UserInterfaceMessage::GameMessage(game_message) => game_step(
            game_message,
            pre,
            post,
            actions,
        ),
    }
}

impl CoreMessageHandler for UIMainMenuMessage {
    fn handle(self, model: &mut CoreModel) -> (actions: Vec<CoreAction>)
        ensures
            menu_step(self, *old(model), *final(model), actions@),
    {
        match self {
            UIMainMenuMessage::Start => {
                model.state = State::GameModeState(GameModeState::default());
            },
            UIMainMenuMessage::Quit => {
                model.running = false;
            },
        }
        Vec::new()
    }
}

impl CoreMessageHandler for UIGameMessage {
    fn handle(self, model: &mut CoreModel) -> (actions: Vec<CoreAction>)
        ensures
            game_step(self, *old(model), *final(model), actions@),
    {
        match self {
            UIGameMessage::NoteRequest => {
                if let State::GameModeState(GameModeState::RandomMode(random_mode)) =
                    &mut model.state {
                    let note_tuple = random_mode.next_note();
                    let mut actions: Vec<CoreAction> = Vec::new();
                    actions.push(
                        CoreAction::Emit(
                            CoreMessage::GameMessage(
                                CoreGameMessage::NoteResponse(NextNoteTuple::new(note_tuple)),
                            ),
                        ),
                    );
                    actions.push(CoreAction::Play(note_tuple.reference(), PLAY_SECONDS));
                    actions.push(CoreAction::Play(note_tuple.divergence(), PLAY_SECONDS));
                    proof {
                        assert(actions@ =~= note_request_actions(note_tuple));
                    }
                    actions
                } else {
                    Vec::new()
                }
            },
            UIGameMessage::StopRequest => {
                model.state = State::MainMenuState(MainMenuState {});
                Vec::new()
            },
            UIGameMessage::Guess(note) => {
                if let State::GameModeState(GameModeState::RandomMode(random_mode)) =
                    &mut model.state {
                    match random_mode.note_guess(note) {
                        Ok(guess) => {
                            let mut actions: Vec<CoreAction> = Vec::new();
                            actions.push(
                                CoreAction::Emit(
                                    CoreMessage::GameMessage(
                                        CoreGameMessage::GuessResponse(guess),
                                    ),
                                ),
                            );
                            proof {
                                assert(actions@ =~= seq![
                                    CoreAction::Emit(
                                        CoreMessage::GameMessage(
                                            CoreGameMessage::GuessResponse(guess),
                                        ),
                                    ),
                                ]);
                            }
                            actions
                        },
                        Err(_) => Vec::new(),
                    }
                } else {
                    Vec::new()
                }
            },
        }
    }
}

impl CoreMessageHandler for UserInterfaceMessage {
    fn handle(self, model: &mut CoreModel) -> (actions: Vec<CoreAction>)
        ensures
            core_step(self, *old(model), *final(model), actions@),
    {
        match self {
            UserInterfaceMessage::MainMenuMessage(message) => message.handle(model),
            UserInterfaceMessage::GameMessage(message) => message.handle(model),
        }
    }
}

} // verus!
