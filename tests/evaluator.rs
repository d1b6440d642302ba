use wordle::evaluator::evaluate;
use wordle::game_model::Correctness;

fn chars(s: &str) -> Vec<char> {
    s.chars().collect()
}

#[test]
fn hello_llama_marks_surplus_letters() {
    let r = evaluate(&chars("HELLO"), &chars("LLAMA"));
    assert_eq!(
        r,
        vec![
            Correctness::IncorrectPosition,
            Correctness::IncorrectPosition,
            Correctness::Incorrect,
            Correctness::Incorrect,
            Correctness::Incorrect,
        ]
    );
}

#[test]
fn hello_hello_is_all_correct() {
    let r = evaluate(&chars("HELLO"), &chars("HELLO"));
    assert_eq!(r, vec![Correctness::Correct; 5]);
}

#[test]
fn correct_exactly_where_letters_match() {
    let answer = chars("CRANE");
    let guess = chars("CRATE");
    let r = evaluate(&answer, &guess);
    for i in 0..5 {
        assert_eq!(r[i] == Correctness::Correct, answer[i] == guess[i]);
    }
    assert_eq!(r[3], Correctness::Incorrect);
}

#[test]
fn repeated_letter_correct_count_is_bounded() {
    let answer = chars("ABBEY");
    let guess = chars("BBBBB");
    let r = evaluate(&answer, &guess);
    let correct = r.iter().filter(|c| **c == Correctness::Correct).count();
    assert_eq!(correct, 2);
    assert_eq!(
        r,
        vec![
            Correctness::IncorrectPosition,
            Correctness::Correct,
            Correctness::Correct,
            Correctness::IncorrectPosition,
            Correctness::IncorrectPosition,
        ]
    );
}

#[test]
fn absent_letter_is_incorrect_and_present_letter_elsewhere_is_position() {
    let r = evaluate(&chars("PLANT"), &chars("TZZZZ"));
    assert_eq!(r[0], Correctness::IncorrectPosition);
    assert_eq!(r[1], Correctness::Incorrect);
}

#[test]
fn empty_words_score_nothing() {
    let r = evaluate(&[], &[]);
    assert!(r.is_empty());
}
