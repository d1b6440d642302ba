use wordle::charcell::{CharCellState, Correctness, FilledState};
use wordle::game_model::{ApiError, Correctness as Outcome, GetStateResponse, PlayResponse};
use wordle::keyboard::KeyboardMsg;
use wordle::wordle::{GameStatus, Wordle, WordleAction, WordleMsg, WordleResponse};

fn local(answer: &str) -> Wordle {
    Wordle::with_answer("local".to_string(), answer.chars().collect()).unwrap()
}

fn key(w: &mut Wordle, k: KeyboardMsg) -> (bool, WordleAction) {
    w.update(WordleMsg::KeyboardInput(k))
}

fn type_word(w: &mut Wordle, word: &str) {
    for ch in word.chars() {
        key(w, KeyboardMsg::from_letter(ch).unwrap());
    }
}

fn error() -> ApiError {
    ApiError { message: "offline".to_string() }
}

fn scored(word: &str, outcome: Outcome) -> Vec<(char, Outcome)> {
    word.chars().map(|c| (c, outcome)).collect()
}

fn loaded_remote() -> Wordle {
    let mut w = Wordle::create("g1".to_string());
    w.update(WordleMsg::VerifyUserResponse(true));
    let resp = GetStateResponse { game_over: false, guesses: vec![] };
    w.update(WordleMsg::ApiResponse(WordleResponse::GetState(Ok(resp))));
    w
}

#[test]
fn guessing_hello_wins() {
    let mut w = local("HELLO");
    type_word(&mut w, "HELLO");
    let (redraw, action) = key(&mut w, KeyboardMsg::Enter);
    assert!(redraw);
    assert!(matches!(action, WordleAction::Nothing));
    assert_eq!(w.status(), GameStatus::Won);
    assert!(w.is_game_over());
    assert_eq!(w.toast_msg().as_deref(), Some("You won!"));
    for c in &w.grid()[0] {
        assert!(matches!(c, CharCellState::Filled(FilledState { correctness: Correctness::Correct, .. })));
    }
    assert_eq!(w.correctness_map()['H' as usize - 'A' as usize], Correctness::Correct);
}

#[test]
fn six_misses_lose() {
    let mut w = local("HELLO");
    for i in 0..6 {
        assert_eq!(w.status(), GameStatus::Composing);
        type_word(&mut w, "CRANE");
        key(&mut w, KeyboardMsg::Enter);
        assert_eq!(w.word_i(), i + 1);
    }
    assert_eq!(w.status(), GameStatus::Lost);
    assert_eq!(w.toast_msg().as_deref(), Some("Game over :("));
}

#[test]
fn five_misses_then_hit_wins() {
    let mut w = local("HELLO");
    for _ in 0..5 {
        type_word(&mut w, "CRANE");
        key(&mut w, KeyboardMsg::Enter);
    }
    assert_eq!(w.status(), GameStatus::Composing);
    type_word(&mut w, "HELLO");
    key(&mut w, KeyboardMsg::Enter);
    assert_eq!(w.status(), GameStatus::Won);
}

#[test]
fn short_row_is_not_submitted() {
    let mut w = local("HELLO");
    type_word(&mut w, "HELL");
    let grid = w.grid().clone();
    let (redraw, action) = key(&mut w, KeyboardMsg::Enter);
    assert!(!redraw);
    assert!(matches!(action, WordleAction::Nothing));
    assert_eq!(w.word_i(), 0);
    assert_eq!(w.cell_i(), 4);
    assert_eq!(w.grid(), &grid);
}

#[test]
fn no_input_after_game_over() {
    let mut w = local("HELLO");
    type_word(&mut w, "HELLO");
    key(&mut w, KeyboardMsg::Enter);
    let grid = w.grid().clone();
    let (redraw, _) = key(&mut w, KeyboardMsg::A);
    assert!(!redraw);
    key(&mut w, KeyboardMsg::Backspace);
    key(&mut w, KeyboardMsg::Enter);
    assert_eq!(w.grid(), &grid);
    assert_eq!(w.cell_i(), 0);
    assert_eq!(w.word_i(), 1);
    assert_eq!(w.status(), GameStatus::Won);
}

#[test]
fn cursor_bounds_are_kept() {
    let mut w = local("HELLO");
    let (redraw, _) = key(&mut w, KeyboardMsg::Backspace);
    assert!(!redraw);
    assert_eq!(w.cell_i(), 0);
    type_word(&mut w, "ABCDE");
    let (redraw, _) = key(&mut w, KeyboardMsg::F);
    assert!(!redraw);
    assert_eq!(w.cell_i(), 5);
    assert_eq!(w.grid()[0][4], CharCellState::Filled(FilledState { ch: 'E', correctness: Correctness::Guess }));
    key(&mut w, KeyboardMsg::Backspace);
    assert_eq!(w.cell_i(), 4);
    assert_eq!(w.grid()[0][4], CharCellState::Empty);
}

#[test]
fn lower_case_letters_type_upper_case() {
    let mut w = local("HELLO");
    type_word(&mut w, "he");
    assert_eq!(w.grid()[0][0], CharCellState::Filled(FilledState { ch: 'H', correctness: Correctness::Guess }));
    assert!(KeyboardMsg::from_letter('1').is_none());
}

#[test]
fn invalid_answers_are_refused() {
    assert!(Wordle::with_answer("x".to_string(), "HELL".chars().collect()).is_none());
    assert!(Wordle::with_answer("x".to_string(), "HeLLO".chars().collect()).is_none());
    assert!(Wordle::with_answer("x".to_string(), "HELLO".chars().collect()).is_some());
}

#[test]
fn hints_follow_local_scoring() {
    let mut w = local("HELLO");
    type_word(&mut w, "LLAMA");
    key(&mut w, KeyboardMsg::Enter);
    let map = w.correctness_map();
    assert_eq!(map['L' as usize - 'A' as usize], Correctness::IncorrectPosition);
    assert_eq!(map['A' as usize - 'A' as usize], Correctness::Incorrect);
    assert_eq!(map['M' as usize - 'A' as usize], Correctness::Incorrect);
    assert_eq!(map['Z' as usize - 'A' as usize], Correctness::Guess);
}

#[test]
fn remote_session_loads_before_input() {
    let mut w = Wordle::create("g1".to_string());
    assert_eq!(w.status(), GameStatus::Loading);
    assert_eq!(w.toast_msg().as_deref(), Some("Loading"));
    let (redraw, _) = key(&mut w, KeyboardMsg::A);
    assert!(!redraw);
    assert_eq!(w.cell_i(), 0);
    let (redraw, action) = w.update(WordleMsg::VerifyUserResponse(true));
    assert!(redraw);
    assert!(matches!(action, WordleAction::FetchState));
    assert_eq!(w.toast_msg().as_deref(), Some("Loading game state"));
}

#[test]
fn unverified_user_is_sent_to_register() {
    let mut w = Wordle::create("g1".to_string());
    let (redraw, action) = w.update(WordleMsg::VerifyUserResponse(false));
    assert!(!redraw);
    assert!(matches!(action, WordleAction::Navigate(wordle::routes::Route::Register)));
}

#[test]
fn remote_submission_round_trip() {
    let mut w = loaded_remote();
    assert_eq!(w.status(), GameStatus::Composing);
    type_word(&mut w, "CRANE");
    let (redraw, action) = key(&mut w, KeyboardMsg::Enter);
    assert!(!redraw);
    match action {
        WordleAction::SubmitGuess(req) => assert_eq!(req.guess, vec!['C', 'R', 'A', 'N', 'E']),
        _ => panic!("expected a submission"),
    }
    assert_eq!(w.status(), GameStatus::Submitting);
    let (redraw, _) = key(&mut w, KeyboardMsg::Backspace);
    assert!(!redraw);
    let resp = PlayResponse { game_over: false, guess: scored("CRANE", Outcome::Incorrect) };
    w.update(WordleMsg::ApiResponse(WordleResponse::PlayGame(Ok(resp))));
    assert_eq!(w.status(), GameStatus::Composing);
    assert_eq!(w.word_i(), 1);
    assert_eq!(w.cell_i(), 0);
    assert!(w.is_animating());
}

#[test]
fn failed_submission_reverts_to_composing() {
    let mut w = loaded_remote();
    type_word(&mut w, "CRANE");
    key(&mut w, KeyboardMsg::Enter);
    let (redraw, _) = w.update(WordleMsg::ApiResponse(WordleResponse::PlayGame(Err(error()))));
    assert!(redraw);
    assert_eq!(w.status(), GameStatus::Composing);
    assert_eq!(w.word_i(), 0);
    assert_eq!(w.cell_i(), 5);
    assert_eq!(w.grid()[0][0], CharCellState::Filled(FilledState { ch: 'C', correctness: Correctness::Guess }));
    assert_eq!(w.toast_msg().as_deref(), Some("An error occurred; please try refreshing this page"));
}

#[test]
fn malformed_score_is_a_failure() {
    let mut w = loaded_remote();
    type_word(&mut w, "CRANE");
    key(&mut w, KeyboardMsg::Enter);
    let resp = PlayResponse { game_over: false, guess: scored("CRAN", Outcome::Incorrect) };
    w.update(WordleMsg::ApiResponse(WordleResponse::PlayGame(Ok(resp))));
    assert_eq!(w.status(), GameStatus::Composing);
    assert_eq!(w.word_i(), 0);
}

#[test]
fn server_game_over_ends_round() {
    let mut w = loaded_remote();
    type_word(&mut w, "CRANE");
    key(&mut w, KeyboardMsg::Enter);
    let resp = PlayResponse { game_over: true, guess: scored("CRANE", Outcome::Incorrect) };
    w.update(WordleMsg::ApiResponse(WordleResponse::PlayGame(Ok(resp))));
    assert_eq!(w.status(), GameStatus::Lost);
}

#[test]
fn restore_replays_rows_and_hints() {
    let mut w = Wordle::create("g1".to_string());
    let rows = vec![
        scored("CRANE", Outcome::Incorrect),
        vec![('H', Outcome::Correct), ('E', Outcome::Correct), ('L', Outcome::IncorrectPosition), ('P', Outcome::Incorrect), ('S', Outcome::Incorrect)],
    ];
    let (redraw, action) = w.update(WordleMsg::ApiResponse(WordleResponse::GetState(Ok(GetStateResponse { game_over: false, guesses: rows }))));
    assert!(redraw);
    assert!(matches!(action, WordleAction::Nothing));
    assert_eq!(w.status(), GameStatus::Composing);
    assert_eq!(w.word_i(), 2);
    assert_eq!(w.grid()[1][0], CharCellState::Filled(FilledState { ch: 'H', correctness: Correctness::Correct }));
    assert_eq!(w.grid()[2][0], CharCellState::Empty);
    assert_eq!(w.correctness_map()['L' as usize - 'A' as usize], Correctness::IncorrectPosition);
    assert_eq!(w.correctness_map()['C' as usize - 'A' as usize], Correctness::Incorrect);
}

#[test]
fn restored_win_goes_to_menu_later() {
    let mut w = Wordle::create("g1".to_string());
    let rows = vec![scored("HELLO", Outcome::Correct)];
    let (_, action) = w.update(WordleMsg::ApiResponse(WordleResponse::GetState(Ok(GetStateResponse { game_over: true, guesses: rows }))));
    assert!(matches!(action, WordleAction::MenuAfter(10000)));
    assert_eq!(w.status(), GameStatus::Won);
    assert_eq!(w.toast_msg().as_deref(), Some("You won!"));
}

#[test]
fn restored_loss_goes_to_menu_sooner() {
    let mut w = Wordle::create("g1".to_string());
    let rows = vec![scored("CRANE", Outcome::Incorrect); 6];
    let (_, action) = w.update(WordleMsg::ApiResponse(WordleResponse::GetState(Ok(GetStateResponse { game_over: false, guesses: rows }))));
    assert!(matches!(action, WordleAction::MenuAfter(7000)));
    assert_eq!(w.status(), GameStatus::Lost);
    assert_eq!(w.toast_msg().as_deref(), Some("Game over!"));
}

#[test]
fn failed_restore_keeps_loading() {
    let mut w = Wordle::create("g1".to_string());
    w.update(WordleMsg::ApiResponse(WordleResponse::GetState(Err(error()))));
    assert_eq!(w.status(), GameStatus::Loading);
    let rows = vec![scored("crane", Outcome::Incorrect)];
    w.update(WordleMsg::ApiResponse(WordleResponse::GetState(Ok(GetStateResponse { game_over: false, guesses: rows }))));
    assert_eq!(w.status(), GameStatus::Loading);
    assert_eq!(w.toast_msg().as_deref(), Some("An error occurred; please try refreshing this page"));
}

#[test]
fn finished_round_ignores_server_answers() {
    let mut w = loaded_remote();
    type_word(&mut w, "HELLO");
    key(&mut w, KeyboardMsg::Enter);
    let resp = PlayResponse { game_over: true, guess: scored("HELLO", Outcome::Correct) };
    w.update(WordleMsg::ApiResponse(WordleResponse::PlayGame(Ok(resp))));
    assert_eq!(w.status(), GameStatus::Won);
    let (redraw, action) = w.update(WordleMsg::ApiResponse(WordleResponse::PlayGame(Err(error()))));
    assert!(!redraw);
    assert!(matches!(action, WordleAction::Nothing));
    assert_eq!(w.toast_msg().as_deref(), Some("You won!"));
    assert_eq!(w.word_i(), 1);
}
