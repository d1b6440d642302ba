use wordle::charcell::{CharCellProps, CharCellState, Correctness};
use wordle::game_model::Correctness as Outcome;
use wordle::hints::{new_correctness_map, update_correctness_map};

fn slot(ch: char) -> usize {
    ch as usize - 'A' as usize
}

#[test]
fn fresh_map_is_all_unscored() {
    let map = new_correctness_map();
    assert_eq!(map.len(), 26);
    assert!(map.iter().all(|c| *c == Correctness::Guess));
}

#[test]
fn correct_hint_is_never_changed() {
    let mut map = new_correctness_map();
    update_correctness_map(&mut map, 'E', Outcome::Correct);
    update_correctness_map(&mut map, 'E', Outcome::Incorrect);
    update_correctness_map(&mut map, 'E', Outcome::IncorrectPosition);
    assert_eq!(map[slot('E')], Correctness::Correct);
}

#[test]
fn present_hint_is_not_demoted_to_absent() {
    let mut map = new_correctness_map();
    update_correctness_map(&mut map, 'L', Outcome::IncorrectPosition);
    update_correctness_map(&mut map, 'L', Outcome::Incorrect);
    assert_eq!(map[slot('L')], Correctness::IncorrectPosition);
    update_correctness_map(&mut map, 'L', Outcome::Correct);
    assert_eq!(map[slot('L')], Correctness::Correct);
}

#[test]
fn absent_hint_takes_any_new_outcome() {
    let mut map = new_correctness_map();
    update_correctness_map(&mut map, 'Z', Outcome::Incorrect);
    assert_eq!(map[slot('Z')], Correctness::Incorrect);
    update_correctness_map(&mut map, 'Z', Outcome::IncorrectPosition);
    assert_eq!(map[slot('Z')], Correctness::IncorrectPosition);
    assert_eq!(map[slot('A')], Correctness::Guess);
}

#[test]
fn outcome_converts_to_cell_correctness() {
    assert_eq!(Correctness::from(Outcome::Correct), Correctness::Correct);
    assert_eq!(Correctness::from(Outcome::IncorrectPosition), Correctness::IncorrectPosition);
    assert_eq!(Correctness::from(Outcome::Incorrect), Correctness::Incorrect);
}

#[test]
fn cell_state_defaults_to_empty() {
    assert_eq!(CharCellState::default(), CharCellState::Empty);
    let p = CharCellProps::new(CharCellState::Empty);
    assert_eq!(p.animate, (false, 0));
}
