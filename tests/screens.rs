use wordle::answer_input::{AnswerInput, AnswerInputAction, AnswerInputMsg, AnswerInputResponse};
use wordle::charcell::{CharCell, CharCellState, Correctness, FilledState};
use wordle::game_model::{
    ApiError, CreateGameResponse, Correctness as Outcome, Guess, ManageGameResponse, PlayerResponse,
};
use wordle::keyboard::{Keyboard, KeyboardMsg};
use wordle::leaderboard::{Leaderboard, LeaderboardMsg};
use wordle::menu::{Menu, MenuAction, MenuMsg};
use wordle::register::{Register, RegisterAction, RegisterMsg};
use wordle::routes::Route;
use wordle::snackbar::{Snackbar, SnackbarProps};
use wordle::wordle::{Word, WordProps};

fn error() -> ApiError {
    ApiError { message: "offline".to_string() }
}

fn name_of(r: &Register) -> String {
    r.user_name().iter().collect()
}

#[test]
fn answer_input_sends_typed_answer() {
    let mut a = AnswerInput::create();
    for k in [KeyboardMsg::P, KeyboardMsg::L, KeyboardMsg::A, KeyboardMsg::N, KeyboardMsg::T] {
        a.update(AnswerInputMsg::KeyboardInput(k));
    }
    let (redraw, action) = a.update(AnswerInputMsg::KeyboardInput(KeyboardMsg::Enter));
    assert!(redraw);
    match action {
        AnswerInputAction::CreateGame(req) => assert_eq!(req.answer, "PLANT"),
        _ => panic!("expected a game creation"),
    }
    assert!(a.is_submitted());
    assert_eq!(a.cells()[0], CharCellState::Filled(FilledState { ch: 'P', correctness: Correctness::Correct }));
    let (redraw, _) = a.update(AnswerInputMsg::KeyboardInput(KeyboardMsg::Backspace));
    assert!(!redraw);
}

#[test]
fn answer_input_short_enter_only_animates() {
    let mut a = AnswerInput::create();
    a.update(AnswerInputMsg::KeyboardInput(KeyboardMsg::P));
    let (redraw, action) = a.update(AnswerInputMsg::KeyboardInput(KeyboardMsg::Enter));
    assert!(redraw);
    assert!(matches!(action, AnswerInputAction::Nothing));
    assert!(!a.is_submitted());
    assert!(a.is_animating());
    assert_eq!(a.cell_i(), 1);
}

#[test]
fn answer_input_created_game_opens_leaderboard() {
    let mut a = AnswerInput::create();
    let resp = CreateGameResponse { game_id: "abc".to_string() };
    let (_, action) = a.update(AnswerInputMsg::ApiResponse(AnswerInputResponse::CreateGame(Ok(resp))));
    match action {
        AnswerInputAction::Navigate(Route::Manage { game_id }) => assert_eq!(game_id, "abc"),
        _ => panic!("expected navigation"),
    }
    a.update(AnswerInputMsg::ApiResponse(AnswerInputResponse::CreateGame(Err(error()))));
    assert_eq!(a.toast_msg().as_deref(), Some("An error occurred"));
}

#[test]
fn register_replaces_prompt_and_sends_name() {
    let mut r = Register::create();
    assert_eq!(name_of(&r), "Enter name");
    assert_eq!(r.toast_msg().as_deref(), Some("Please register to begin"));
    r.update(RegisterMsg::KeyboardInput(KeyboardMsg::B));
    r.update(RegisterMsg::KeyboardInput(KeyboardMsg::O));
    assert_eq!(name_of(&r), "BO");
    assert!(r.toast_msg().is_none());
    let (redraw, action) = r.update(RegisterMsg::KeyboardInput(KeyboardMsg::Enter));
    assert!(redraw);
    match action {
        RegisterAction::RegisterUser(req) => assert_eq!(req.name, "BO"),
        _ => panic!("expected a registration"),
    }
}

#[test]
fn register_backspace_and_empty_enter_bring_prompt_back() {
    let mut r = Register::create();
    r.update(RegisterMsg::KeyboardInput(KeyboardMsg::B));
    r.update(RegisterMsg::KeyboardInput(KeyboardMsg::Backspace));
    assert_eq!(name_of(&r), "Enter name");
    let (redraw, action) = r.update(RegisterMsg::KeyboardInput(KeyboardMsg::Enter));
    assert!(!redraw);
    assert!(matches!(action, RegisterAction::Nothing));
    assert_eq!(name_of(&r), "Enter name");
}

#[test]
fn register_name_length_is_capped() {
    let mut r = Register::create();
    for _ in 0..30 {
        r.update(RegisterMsg::KeyboardInput(KeyboardMsg::X));
    }
    assert_eq!(r.user_name().len(), 21);
    let (redraw, action) = r.update(RegisterMsg::RegisterUserResponse(Ok(())));
    assert!(!redraw);
    assert!(matches!(action, RegisterAction::Navigate(Route::Menu)));
    r.update(RegisterMsg::RegisterUserResponse(Err(error())));
    assert_eq!(r.toast_msg().as_deref(), Some("Error registering user"));
}

#[test]
fn menu_checks_game_id_length() {
    let mut m = Menu::create();
    m.update(MenuMsg::Input("short".to_string()));
    let (redraw, action) = m.update(MenuMsg::Submit);
    assert!(redraw);
    assert!(matches!(action, MenuAction::Nothing));
    assert_eq!(m.toast_msg().as_deref(), Some("Game ID must be 24 characters long"));
    let id = "0123456789abcdef01234567".to_string();
    m.update(MenuMsg::Input(id.clone()));
    match m.update(MenuMsg::Submit).1 {
        MenuAction::JoinGame(g) => assert_eq!(g, id),
        _ => panic!("expected a join"),
    }
    match m.update(MenuMsg::SubmitResponse(Ok(()))).1 {
        MenuAction::Navigate(Route::Play { game_id }) => assert_eq!(game_id, id),
        _ => panic!("expected navigation"),
    }
    m.update(MenuMsg::SubmitResponse(Err(error())));
    assert_eq!(m.toast_msg().as_deref(), Some("Error joining the game"));
}

fn player(rows: Vec<Vec<(char, Outcome)>>) -> PlayerResponse {
    PlayerResponse {
        name: "ann".to_string(),
        start_time: 0,
        guesses: rows.into_iter().map(|guess| Guess { guess, submit_time: 1 }).collect(),
    }
}

#[test]
fn player_tally_counts_every_letter() {
    let p = player(vec![
        vec![('A', Outcome::Incorrect), ('B', Outcome::IncorrectPosition), ('C', Outcome::Correct)],
        vec![('D', Outcome::Correct), ('E', Outcome::Incorrect)],
    ]);
    assert_eq!(p.tally(), (2, 1, 2));
    assert!(!p.has_won());
    let q = player(vec![vec![('X', Outcome::Incorrect)], vec![('H', Outcome::Correct), ('I', Outcome::Correct)]]);
    assert!(q.has_won());
    assert!(!player(vec![]).has_won());
    assert_eq!(player(vec![]).tally(), (0, 0, 0));
}

#[test]
fn leaderboard_keeps_last_poll() {
    let mut l = Leaderboard::create();
    assert!(l.answer().is_none());
    let resp = ManageGameResponse { start_time: 3, players: vec![player(vec![])], answer: "PLANT".to_string() };
    assert!(l.update(LeaderboardMsg::Api(Ok(resp))));
    assert_eq!(l.answer().as_deref(), Some("PLANT"));
    assert_eq!(l.players().as_ref().map(|p| p.len()), Some(1));
    l.update(LeaderboardMsg::Api(Err(error())));
    assert_eq!(l.answer().as_deref(), Some("PLANT"));
    assert_eq!(l.toast_msg().as_deref(), Some("An error occurred"));
}

#[test]
fn snackbar_shows_fades_and_hides() {
    let props = SnackbarProps::new("hi".to_string(), true);
    assert_eq!(props.time, 5000);
    let (mut s, tick) = Snackbar::create(&props);
    assert_eq!(tick, Some(4000));
    assert!(s.display() && !s.fade());
    assert_eq!(s.update(), (true, Some(1000)));
    assert!(s.display() && s.fade());
    assert_eq!(s.update(), (true, None));
    assert!(!s.display() && !s.fade());
}

#[test]
fn snackbar_short_time_and_hidden_props() {
    let short = SnackbarProps { time: 500, message: "x".to_string(), display: true };
    let (mut s, tick) = Snackbar::create(&short);
    assert_eq!(tick, Some(1000));
    let hidden = SnackbarProps::new("x".to_string(), false);
    assert_eq!(s.changed(&hidden), (true, None));
    assert!(!s.display());
}

#[test]
fn keyboard_labels_and_hints() {
    let a: &str = KeyboardMsg::A.into();
    assert_eq!(a, "A");
    let enter: &str = KeyboardMsg::Enter.into();
    assert_eq!(enter, "Enter");
    let back: &str = KeyboardMsg::Backspace.into();
    assert_eq!(back, "\u{232b}");
    assert_eq!(KeyboardMsg::Q.letter(), Some('Q'));
    assert_eq!(KeyboardMsg::Enter.letter(), None);
    let mut map = wordle::hints::new_correctness_map();
    wordle::hints::update_correctness_map(&mut map, 'Q', Outcome::Correct);
    assert_eq!(Keyboard::hint_for(&map, KeyboardMsg::Q), Correctness::Correct);
    assert_eq!(Keyboard::hint_for(&map, KeyboardMsg::Enter), Correctness::Guess);
    assert_eq!(Keyboard::border_class(Correctness::Correct), "border-green-500");
    let rows = Keyboard::rows();
    assert_eq!(rows.iter().map(|r| r.len()).collect::<Vec<_>>(), vec![10, 9, 9]);
}

#[test]
fn cell_classes_follow_correctness() {
    let cell = |c| CharCellState::Filled(FilledState { ch: 'A', correctness: c });
    assert_eq!(CharCell::color_class(CharCellState::Empty, true), "border-white");
    assert_eq!(CharCell::color_class(cell(Correctness::Guess), true), "border-white");
    assert_eq!(CharCell::color_class(cell(Correctness::Correct), false), "bg-green-400");
    assert_eq!(CharCell::color_class(cell(Correctness::Incorrect), true), "animate-card-flip-incorrect");
    assert_eq!(CharCell::color_class(cell(Correctness::IncorrectPosition), false), "bg-orange-400");
}

#[test]
fn word_cells_flip_one_after_another() {
    let props = WordProps { text: vec![CharCellState::Empty; 5], animate: true };
    let cells = Word::cell_props(&props);
    assert_eq!(cells.len(), 5);
    assert_eq!(cells[3].animate, (true, 1500));
    assert_eq!(cells[0].state, CharCellState::Empty);
}
