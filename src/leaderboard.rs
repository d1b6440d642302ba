use vstd::prelude::*;

use crate::game_model::{self, ApiError, Guess, ManageGameResponse, PlayerResponse};
use crate::wordle::row_won;

verus! {

/// What the leaderboard is drawn for: the game's id.
#[derive(Clone, Debug)]
pub struct LeaderboardProps {
    pub game_id: String,
}

/// An event for the leaderboard: one answer of the periodic poll.
pub enum LeaderboardMsg {
    Api(Result<ManageGameResponse, ApiError>),
}

/// The creator's view of a game: its answer and its players.
pub struct Leaderboard {
    answer: Option<String>,
    players: Option<Vec<PlayerResponse>>,
    toast_msg: Option<String>,
}

/// How many letters of a row have outcome `c`.
pub open spec fn count_in_row(row: Seq<(char, game_model::Correctness)>, c: game_model::Correctness) -> nat
    decreases row.len(),
{
    if row.len() == 0 {
        0
    } else {
        count_in_row(row.drop_last(), c) + if row.last().1 == c {
            1nat
        } else {
            0nat
        }
    }
}

/// How many letters of all the guesses have outcome `c`.
pub open spec fn count_in_guesses(guesses: Seq<Guess>, c: game_model::Correctness) -> nat
    decreases guesses.len(),
{
    if guesses.len() == 0 {
        0
    } else {
        count_in_guesses(guesses.drop_last(), c) + count_in_row(guesses.last().guess@, c)
    }
}

/// `n`, or the largest `u64` where `n` is larger.
pub open spec fn capped(n: nat) -> u64 {
    if n <= u64::MAX {
        n as u64
    } else {
        u64::MAX
    }
}

fn bump(n: u64, hit: bool) -> (r: u64)
    ensures
        forall|m: nat| n == #[trigger] capped(m) ==> r == capped(m + if hit { 1nat } else { 0nat }),
{
    if hit && n < u64::MAX {
        n + 1
    } else {
        n
    }
}

impl PlayerResponse {
    /// How many letters of the player's guesses were `Correct`, `IncorrectPosition` and
    /// `Incorrect` (each capped at the largest `u64`).
    pub fn tally(&self) -> (r: (u64, u64, u64))
        ensures
            r.0 == capped(count_in_guesses(self.guesses@, game_model::Correctness::Correct)),
            r.1 == capped(count_in_guesses(self.guesses@, game_model::Correctness::IncorrectPosition)),
            r.2 == capped(count_in_guesses(self.guesses@, game_model::Correctness::Incorrect)),
    {
        let ghost gs = self.guesses@;
        let mut n_correct: u64 = 0;
        let mut n_position: u64 = 0;
        let mut n_incorrect: u64 = 0;
        let mut g: usize = 0;
        while g < self.guesses.len()
            invariant
                g <= gs.len(),
                gs == self.guesses@,
                n_correct == capped(count_in_guesses(gs.take(g as int), game_model::Correctness::Correct)),
                n_position == capped(count_in_guesses(gs.take(g as int), game_model::Correctness::IncorrectPosition)),
                n_incorrect == capped(count_in_guesses(gs.take(g as int), game_model::Correctness::Incorrect)),
            decreases gs.len() - g,
        {
            let row = &self.guesses[g].guess;
            let ghost before = gs.take(g as int);
            assert(gs.take(g as int + 1).drop_last() =~= before);
            let mut i: usize = 0;
            while i < row.len()
                invariant
                    i <= row@.len(),
                    n_correct == capped(count_in_guesses(before, game_model::Correctness::Correct) + count_in_row(row@.take(i as int), game_model::Correctness::Correct)),
                    n_position == capped(count_in_guesses(before, game_model::Correctness::IncorrectPosition) + count_in_row(row@.take(i as int), game_model::Correctness::IncorrectPosition)),
                    n_incorrect == capped(count_in_guesses(before, game_model::Correctness::Incorrect) + count_in_row(row@.take(i as int), game_model::Correctness::Incorrect)),
                decreases row@.len() - i,
            {
                let c = row[i].1;
                assert(row@.take(i as int + 1).drop_last() =~= row@.take(i as int));
                n_correct = bump(n_correct, c == game_model::Correctness::Correct);
                n_position = bump(n_position, c == game_model::Correctness::IncorrectPosition);
                n_incorrect = bump(n_incorrect, c == game_model::Correctness::Incorrect);
                i = i + 1;
            }
            assert(row@.take(row@.len() as int) =~= row@);
            assert(gs.take(g as int + 1).last() == gs[g as int]);
            g = g + 1;
        }
        assert(gs.take(gs.len() as int) =~= gs);
        (n_correct, n_position, n_incorrect)
    }

    /// Whether the player's last guess was all `Correct`.
    pub fn has_won(&self) -> (r: bool)
        ensures
            r == (self.guesses@.len() > 0 && row_won(self.guesses@.last().guess@)),
    {
        let n = self.guesses.len();
        if n == 0 {
            return false;
        }
        let row = &self.guesses[n - 1].guess;
        assert(row@ == self.guesses@.last().guess@);
        let mut i: usize = 0;
        while i < row.len()
            invariant
                i <= row@.len(),
                n > 0,
                row@ == self.guesses@.last().guess@,
                forall|j: int| 0 <= j < i ==> #[trigger] row@[j].1 == game_model::Correctness::Correct,
            decreases row@.len() - i,
        {
            if row[i].1 != game_model::Correctness::Correct {
                return false;
            }
            i = i + 1;
        }
        true
    }
}

impl Leaderboard {
    pub closed spec fn spec_answer(&self) -> Option<Seq<char>> {
        match self.answer {
            Some(a) => Some(a@),
            None => None,
        }
    }

    pub closed spec fn spec_players(&self) -> Option<Seq<PlayerResponse>> {
        match self.players {
            Some(p) => Some(p@),
            None => None,
        }
    }

    pub closed spec fn toast(&self) -> Option<Seq<char>> {
        match self.toast_msg {
            Some(t) => Some(t@),
            None => None,
        }
    }

    /// A leaderboard that has heard nothing yet.
    pub fn create() -> (r: Self)
        ensures
            r.spec_answer() is None,
            r.spec_players() is None,
            r.toast() is None,
    {
        Leaderboard { answer: None, players: None, toast_msg: None }
    }

    /// Takes one poll's answer; always redraws.
    pub fn update(&mut self, msg: LeaderboardMsg) -> (r: bool)
        ensures
            r,
            match msg {
                LeaderboardMsg::Api(Ok(resp)) => {
                    &&& final(self).spec_answer() == Some(resp.answer@)
                    &&& final(self).spec_players() == Some(resp.players@)
                    &&& final(self).toast() == old(self).toast()
                },
                LeaderboardMsg::Api(Err(_)) => {
                    &&& final(self).spec_answer() == old(self).spec_answer()
                    &&& final(self).spec_players() == old(self).spec_players()
                    &&& final(self).toast() == Some("An error occurred"@)
                },
            },
    {
        match msg {
            LeaderboardMsg::Api(Ok(resp)) => {
                self.answer = Some(resp.answer);
                self.players = Some(resp.players);
            },
            LeaderboardMsg::Api(Err(_)) => {
                self.toast_msg = Some("An error occurred".to_owned());
            },
        }
        true
    }

    pub fn answer(&self) -> (r: &Option<String>)
        ensures
            match *r {
                Some(a) => self.spec_answer() == Some(a@),
                None => self.spec_answer() is None,
            },
    {
        &self.answer
    }

    pub fn players(&self) -> (r: &Option<Vec<PlayerResponse>>)
        ensures
            match *r {
                Some(p) => self.spec_players() == Some(p@),
                None => self.spec_players() is None,
            },
    {
        &self.players
    }

    pub fn toast_msg(&self) -> (r: &Option<String>)
        ensures
            match *r {
                Some(t) => self.toast() == Some(t@),
                None => self.toast() is None,
            },
    {
        &self.toast_msg
    }
}

} // verus!
