use vstd::prelude::*;

use crate::charcell::{resolved, Correctness};
use crate::game_model;

verus! {

/// Number of letters that the keyboard hints cover, `A` to `Z`.
pub const ALPHABET_LEN: usize = 26;

/// Whether `ch` is an upper-case letter of the Latin alphabet.
pub open spec fn is_letter(ch: char) -> bool {
    'A' <= ch <= 'Z'
}

/// The slot of letter `ch` in the hint map.
pub open spec fn letter_index(ch: char) -> int {
    ch as int - 'A' as int
}

/// The hint that a letter shows after a new outcome: `Correct` stays; `Guess` and
/// `Incorrect` take the outcome; `IncorrectPosition` takes it unless it is `Incorrect`.
pub open spec fn promote(current: Correctness, outcome: game_model::Correctness) -> Correctness {
    match current {
        Correctness::Correct => Correctness::Correct,
        Correctness::IncorrectPosition => if outcome == game_model::Correctness::Incorrect {
            Correctness::IncorrectPosition
        } else {
            resolved(outcome)
        },
        _ => resolved(outcome),
    }
}

/// The hint map after one outcome for letter `ch`; a map is left as it is for any other character.
pub open spec fn hint_update(map: Seq<Correctness>, ch: char, outcome: game_model::Correctness) -> Seq<
    Correctness,
> {
    if is_letter(ch) {
        map.update(letter_index(ch), promote(map[letter_index(ch)], outcome))
    } else {
        map
    }
}

/// The hint map after the outcomes of `updates`, applied in order.
pub open spec fn hints_after(map: Seq<Correctness>, updates: Seq<(char, game_model::Correctness)>) -> Seq<
    Correctness,
>
    decreases updates.len(),
{
    if updates.len() == 0 {
        map
    } else {
        let last = updates.last();
        hint_update(hints_after(map, updates.drop_last()), last.0, last.1)
    }
}

/// The hint map of a fresh game: every letter unscored.
pub open spec fn fresh_hints() -> Seq<Correctness> {
    Seq::new(ALPHABET_LEN as nat, |i: int| Correctness::Guess)
}

/// A hint map with every letter unscored.
pub fn new_correctness_map() -> (r: Vec<Correctness>)
    ensures
        r@ == fresh_hints(),
{
    let mut r: Vec<Correctness> = Vec::new();
    let mut i: usize = 0;
    while i < ALPHABET_LEN
        invariant
            i <= ALPHABET_LEN,
            r@ == Seq::new(i as nat, |j: int| Correctness::Guess),
        decreases ALPHABET_LEN - i,
    {
        r.push(Correctness::Guess);
        i = i + 1;
        assert(r@ =~= Seq::new(i as nat, |j: int| Correctness::Guess));
    }
    r
}

/// Records one outcome for letter `ch` in the hint map.
pub fn update_correctness_map(map: &mut Vec<Correctness>, ch: char, correctness: game_model::Correctness)
    requires
        old(map)@.len() == ALPHABET_LEN,
        is_letter(ch),
    ensures
        final(map)@ == hint_update(old(map)@, ch, correctness),
{
    let ord = (ch as u32 - 'A' as u32) as usize;
    let current = map[ord];
    // A letter known to be somewhere in the answer is never shown as absent again.
    let next = match current {
        Correctness::Correct => Correctness::Correct,
        Correctness::IncorrectPosition => {
            if correctness == game_model::Correctness::Incorrect {
                Correctness::IncorrectPosition
            } else {
                Correctness::from(correctness)
            }
        },
        _ => Correctness::from(correctness),
    };
    map[ord] = next;
}

/// Outcomes keep the number of slots of a hint map.
pub proof fn lemma_hints_after_len(map: Seq<Correctness>, updates: Seq<(char, game_model::Correctness)>)
    requires
        map.len() == ALPHABET_LEN,
    ensures
        hints_after(map, updates).len() == map.len(),
    decreases updates.len(),
{
    if updates.len() > 0 {
        lemma_hints_after_len(map, updates.drop_last());
    }
}

/// Once a letter's hint is `Correct`, no later outcomes change it.
pub proof fn lemma_correct_hint_stays(
    map: Seq<Correctness>,
    updates: Seq<(char, game_model::Correctness)>,
    ch: char,
)
    requires
        map.len() == ALPHABET_LEN,
        is_letter(ch),
        map[letter_index(ch)] == Correctness::Correct,
    ensures
        hints_after(map, updates).len() == ALPHABET_LEN,
        hints_after(map, updates)[letter_index(ch)] == Correctness::Correct,
    decreases updates.len(),
{
    if updates.len() > 0 {
        lemma_correct_hint_stays(map, updates.drop_last(), ch);
    }
}

/// A letter whose hint is `IncorrectPosition` is never shown as `Incorrect` (nor unscored)
/// after later outcomes: it stays `IncorrectPosition` or becomes `Correct`.
pub proof fn lemma_present_hint_never_absent(
    map: Seq<Correctness>,
    updates: Seq<(char, game_model::Correctness)>,
    ch: char,
)
    requires
        map.len() == ALPHABET_LEN,
        is_letter(ch),
        map[letter_index(ch)] == Correctness::IncorrectPosition,
    ensures
        hints_after(map, updates).len() == ALPHABET_LEN,
        hints_after(map, updates)[letter_index(ch)] == Correctness::IncorrectPosition
            || hints_after(map, updates)[letter_index(ch)] == Correctness::Correct,
    decreases updates.len(),
{
    if updates.len() > 0 {
        lemma_present_hint_never_absent(map, updates.drop_last(), ch);
    }
}

} // verus!
