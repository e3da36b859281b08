use rand::SeedableRng;
use rand_chacha::ChaCha12Rng;
use zankyou::notes::{Accidental, Note, NoteLetter};
use zankyou::random::{NoteTuple, RandomNoteSequence};
use zankyou::state::{GameModeState, RandomMode, RandomModeStatistics, State};
use zankyou::ui::{CoreGameMessage, CoreMessage, UIGameMessage, UIMainMenuMessage, UserInterfaceMessage};
use zankyou::use_cases::{CoreAction, CoreMessageHandler, CoreModel, PLAY_SECONDS};

fn natural(letter: NoteLetter, octave: u8) -> Note {
    Note::new(letter, Accidental::Natural, octave)
}

fn model_in_game_mode(pair: Option<NoteTuple>) -> CoreModel {
    let mode = RandomMode {
        note_generator: RandomNoteSequence::new(ChaCha12Rng::seed_from_u64(9)),
        current_note_tuple: pair,
        _statistics: RandomModeStatistics,
    };
    CoreModel {
        state: State::GameModeState(GameModeState::RandomMode(Box::new(mode))),
        running: true,
    }
}

fn stored_pair(model: &CoreModel) -> Option<NoteTuple> {
    match &model.state {
        State::GameModeState(GameModeState::RandomMode(mode)) => mode.current_note_tuple,
        State::MainMenuState(_) => None,
    }
}

#[test]
fn start_opens_a_fresh_game_session() {
    let mut model = CoreModel::new();
    let actions = UIMainMenuMessage::Start.handle(&mut model);
    assert!(actions.is_empty());
    assert!(model.running);
    assert!(matches!(model.state, State::GameModeState(_)));
    assert_eq!(stored_pair(&model), None);
}

#[test]
fn quit_stops_the_loop_and_keeps_the_menu() {
    let mut model = CoreModel::new();
    let actions = UIMainMenuMessage::Quit.handle(&mut model);
    assert!(actions.is_empty());
    assert!(!model.running);
    assert!(matches!(model.state, State::MainMenuState(_)));
}

#[test]
fn a_note_request_in_the_main_menu_is_ignored() {
    let mut model = CoreModel::new();
    let actions = UIGameMessage::NoteRequest.handle(&mut model);
    assert!(actions.is_empty());
    assert!(model.running);
    assert!(matches!(model.state, State::MainMenuState(_)));
}

#[test]
fn a_note_request_announces_and_plays_the_stored_pair() {
    let mut model = model_in_game_mode(None);
    let actions = UIGameMessage::NoteRequest.handle(&mut model);

    let pair = stored_pair(&model).expect("the request stores a pair");
    assert_eq!(actions.len(), 3);
    assert_eq!(
        actions[0],
        CoreAction::Emit(CoreMessage::GameMessage(CoreGameMessage::NoteResponse(
            zankyou::ui::NextNoteTuple::new(pair),
        ))),
    );
    assert_eq!(actions[1], CoreAction::Play(pair.reference(), PLAY_SECONDS));
    assert_eq!(actions[2], CoreAction::Play(pair.divergence(), PLAY_SECONDS));
    assert!(model.running);
}

#[test]
fn each_note_request_overwrites_the_stored_pair() {
    let mut model = model_in_game_mode(None);
    UIGameMessage::NoteRequest.handle(&mut model);
    let first = stored_pair(&model).expect("a pair is stored");
    UIGameMessage::NoteRequest.handle(&mut model);
    let second = stored_pair(&model).expect("a pair is stored");
    // the second request replaced the first pair (the seeded stream
    // happens to produce two different pairs here)
    assert_ne!(first, second);
}

#[test]
fn a_guess_is_answered_with_its_score() {
    let e3 = natural(NoteLetter::E, 3);
    let g3 = natural(NoteLetter::G, 3);
    let pair = NoteTuple { reference: e3, divergence: g3 };
    let mut model = model_in_game_mode(Some(pair));

    let actions = UIGameMessage::Guess(e3).handle(&mut model);
    assert_eq!(actions.len(), 1);
    let CoreAction::Emit(CoreMessage::GameMessage(CoreGameMessage::GuessResponse(guess))) =
        &actions[0]
    else {
        panic!("expected a guess response, got {:?}", actions[0]);
    };
    assert!(guess.correct);
    assert_eq!(guess.score, e3.distance(&g3));
    assert_eq!(guess.true_note_tuple, pair);

    // the guess changes nothing: the pair stays stored
    assert_eq!(stored_pair(&model), Some(pair));
    assert!(model.running);
}

#[test]
fn a_guess_without_a_stored_pair_is_ignored() {
    let mut model = model_in_game_mode(None);
    let actions = UIGameMessage::Guess(natural(NoteLetter::E, 3)).handle(&mut model);
    assert!(actions.is_empty());
    assert!(matches!(model.state, State::GameModeState(_)));
}

#[test]
fn a_guess_in_the_main_menu_is_ignored() {
    let mut model = CoreModel::new();
    let actions = UIGameMessage::Guess(natural(NoteLetter::E, 3)).handle(&mut model);
    assert!(actions.is_empty());
    assert!(matches!(model.state, State::MainMenuState(_)));
}

#[test]
fn stop_returns_to_the_main_menu() {
    let mut model = model_in_game_mode(None);
    UIGameMessage::NoteRequest.handle(&mut model);
    let actions = UIGameMessage::StopRequest.handle(&mut model);
    assert!(actions.is_empty());
    assert!(model.running);
    assert!(matches!(model.state, State::MainMenuState(_)));
}

#[test]
fn the_dispatching_handler_behaves_like_the_parts() {
    let mut model = CoreModel::new();
    let actions =
        UserInterfaceMessage::MainMenuMessage(UIMainMenuMessage::Start).handle(&mut model);
    assert!(actions.is_empty());
    assert!(matches!(model.state, State::GameModeState(_)));

    let actions = UserInterfaceMessage::GameMessage(UIGameMessage::NoteRequest).handle(&mut model);
    assert_eq!(actions.len(), 3);

    let actions =
        UserInterfaceMessage::GameMessage(UIGameMessage::StopRequest).handle(&mut model);
    assert!(actions.is_empty());
    assert!(matches!(model.state, State::MainMenuState(_)));
}
