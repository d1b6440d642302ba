use vstd::prelude::*;
use vstd::math::min;
use vstd::set_lib::*;

use crate::game_model::Correctness;

verus! {

/// Number of letters in every answer and every guess.
pub const WORD_LEN: usize = 5;

/// The positions that letter `c` occupies in `s`.
pub open spec fn positions(s: Seq<char>, c: char) -> Set<int> {
    Set::new(|i: int| 0 <= i < s.len() && s[i] == c)
}

/// Score of guess position `i`, by position sets: with `A` the positions of the guessed
/// letter in the answer, `i` in `A` is `Correct`; otherwise `IncorrectPosition` when `A`
/// is non-empty, and `Incorrect` when the letter does not occur in the answer at all.
pub open spec fn score_at(answer: Seq<char>, guess: Seq<char>, i: int) -> Correctness {
    let a = positions(answer, guess[i]);
    if a.contains(i) {
        Correctness::Correct
    } else if a != Set::<int>::empty() {
        Correctness::IncorrectPosition
    } else {
        Correctness::Incorrect
    }
}

/// Score of every position of `guess` against `answer`.
pub open spec fn scores(answer: Seq<char>, guess: Seq<char>) -> Seq<Correctness> {
    Seq::new(guess.len(), |i: int| score_at(answer, guess, i))
}

/// Whether `c` occurs in `answer`.
fn occurs(answer: &[char], c: char) -> (r: bool)
    ensures
        r == (positions(answer@, c) != Set::<int>::empty()),
{
    let mut i: usize = 0;
    while i < answer.len()
        invariant
            i <= answer@.len(),
            forall|j: int| 0 <= j < i ==> answer@[j] != c,
        decreases answer@.len() - i,
    {
        if answer[i] == c {
            assert(positions(answer@, c).contains(i as int));
            return true;
        }
        i = i + 1;
    }
    assert(positions(answer@, c) =~= Set::<int>::empty());
    false
}

/// Scores `guess` against `answer`, position by position.
pub fn evaluate(answer: &[char], guess: &[char]) -> (r: Vec<Correctness>)
    requires
        answer@.len() == guess@.len(),
    ensures
        r@ == scores(answer@, guess@),
{
    let mut r: Vec<Correctness> = Vec::new();
    let mut i: usize = 0;
    while i < guess.len()
        invariant
            i <= guess@.len(),
            answer@.len() == guess@.len(),
            r@ == scores(answer@, guess@).take(i as int),
        decreases guess@.len() - i,
    {
        let c = guess[i];
        let s = if answer[i] == c {
            Correctness::Correct
        } else if occurs(answer, c) {
            Correctness::IncorrectPosition
        } else {
            Correctness::Incorrect
        };
        assert(positions(answer@, c).contains(i as int) == (answer@[i as int] == c));
        r.push(s);
        i = i + 1;
        assert(r@ =~= scores(answer@, guess@).take(i as int));
    }
    assert(r@ =~= scores(answer@, guess@));
    r
}

/// A guessed position scores `Correct` exactly when it holds the answer's letter there.
pub proof fn lemma_correct_iff_same_letter(answer: Seq<char>, guess: Seq<char>, i: int)
    requires
        answer.len() == guess.len(),
        0 <= i < guess.len(),
    ensures
        (scores(answer, guess)[i] == Correctness::Correct) <==> (guess[i] == answer[i]),
{
    assert(positions(answer, guess[i]).contains(i) == (answer[i] == guess[i]));
}

/// The positions of `guess` that hold letter `c` and score `Correct`.
pub open spec fn correct_positions(answer: Seq<char>, guess: Seq<char>, c: char) -> Set<int> {
    Set::new(
        |i: int| 0 <= i < guess.len() && guess[i] == c && scores(answer, guess)[i] == Correctness::Correct,
    )
}

/// The positions of `s` are a finite set bounded by its length.
proof fn lemma_positions_finite(s: Seq<char>, c: char)
    ensures
        positions(s, c).finite(),
        positions(s, c).len() <= s.len(),
{
    lemma_int_range(0, s.len() as int);
    assert(positions(s, c).subset_of(set_int_range(0, s.len() as int)));
    lemma_len_subset(positions(s, c), set_int_range(0, s.len() as int));
}

/// No letter scores `Correct` more often than it occurs in the answer, nor more often
/// than it occurs in the guess.
pub proof fn lemma_correct_count_bounded(answer: Seq<char>, guess: Seq<char>, c: char)
    requires
        answer.len() == guess.len(),
    ensures
        correct_positions(answer, guess, c).finite(),
        correct_positions(answer, guess, c).len() <= positions(answer, c).len(),
        correct_positions(answer, guess, c).len() <= positions(guess, c).len(),
        correct_positions(answer, guess, c).len() <= min(
            positions(answer, c).len() as int,
            positions(guess, c).len() as int,
        ),
{
    lemma_positions_finite(answer, c);
    lemma_positions_finite(guess, c);
    assert forall|i: int| correct_positions(answer, guess, c).contains(i) implies positions(answer, c).contains(i) by {
        lemma_correct_iff_same_letter(answer, guess, i);
    }
    assert(correct_positions(answer, guess, c).subset_of(positions(answer, c)));
    assert(correct_positions(answer, guess, c).subset_of(positions(guess, c)));
    lemma_len_subset(correct_positions(answer, guess, c), positions(answer, c));
    lemma_len_subset(correct_positions(answer, guess, c), positions(guess, c));
}

/// Every position scores `Correct` exactly when the guess is the answer.
pub proof fn lemma_all_correct_iff_equal(answer: Seq<char>, guess: Seq<char>)
    requires
        answer.len() == guess.len(),
    ensures
        (forall|i: int| 0 <= i < guess.len() ==> #[trigger] scores(answer, guess)[i] == Correctness::Correct)
            <==> guess == answer,
{
    if guess == answer {
        assert forall|i: int| 0 <= i < guess.len() implies #[trigger] scores(answer, guess)[i] == Correctness::Correct by {
            lemma_correct_iff_same_letter(answer, guess, i);
        }
    }
    if forall|i: int| 0 <= i < guess.len() ==> #[trigger] scores(answer, guess)[i] == Correctness::Correct {
        assert forall|i: int| 0 <= i < guess.len() implies guess[i] == answer[i] by {
            assert(scores(answer, guess)[i] == Correctness::Correct);
            lemma_correct_iff_same_letter(answer, guess, i);
        }
        assert(guess =~= answer);
    }
}

} // verus!
