use vstd::prelude::*;

use crate::charcell::{
    cell_char, is_typed_letter, scored_cell, CharCellProps, CharCellState, Correctness, FilledState,
};
use crate::evaluator::{evaluate, lemma_all_correct_iff_equal, scores, WORD_LEN};
use crate::game_model::{self, ApiError, GetStateResponse, PlayRequest, PlayResponse};
use crate::hints::{
    fresh_hints, hints_after, is_letter, lemma_hints_after_len, new_correctness_map, update_correctness_map,
    ALPHABET_LEN,
};
use crate::keyboard::{key_letter, KeyboardMsg};
use crate::routes::Route;

verus! {

/// Number of guesses a player has in one round.
pub const MAX_GUESSES: usize = 6;

/// Delay before going back to the menu after a restored round that was won, in milliseconds.
pub const WON_MENU_DELAY_MS: u32 = 10000;

/// Delay before going back to the menu after a restored round that was lost, in milliseconds.
pub const LOST_MENU_DELAY_MS: u32 = 7000;

/// Delay between the flips of two neighbouring cells of a row, in milliseconds.
pub const FLIP_STEP_MS: u16 = 500;

/// What a row of cells is drawn from.
#[derive(Clone, Debug)]
pub struct WordProps {
    pub text: Vec<CharCellState>,
    pub animate: bool,
}

/// A row of cells, as drawn.
pub struct Word;

impl Word {
    /// The properties of each cell of a row: its state, and when it flips in.
    pub fn cell_props(props: &WordProps) -> (r: Vec<CharCellProps>)
        requires
            props.text@.len() <= WORD_LEN,
        ensures
            r@.len() == props.text@.len(),
            forall|i: int|
                0 <= i < r@.len() ==> (#[trigger] r@[i]).state == props.text@[i] && r@[i].animate == (
                    props.animate,
                    (i * FLIP_STEP_MS) as u16,
                ),
    {
        let mut r: Vec<CharCellProps> = Vec::new();
        let mut i: usize = 0;
        while i < props.text.len()
            invariant
                i <= props.text@.len(),
                props.text@.len() <= WORD_LEN,
                r@.len() == i,
                forall|j: int|
                    0 <= j < i ==> (#[trigger] r@[j]).state == props.text@[j] && r@[j].animate == (
                        props.animate,
                        (j * FLIP_STEP_MS) as u16,
                    ),
            decreases props.text@.len() - i,
        {
            let delay = (i as u16) * FLIP_STEP_MS;
            r.push(CharCellProps { state: props.text[i], animate: (props.animate, delay) });
            i = i + 1;
        }
        r
    }
}

/// What a session screen is drawn for: the game's id.
#[derive(Clone, Debug)]
pub struct WordleProps {
    pub game_id: String,
}

/// Answer of the game server to a request of the session.
pub enum WordleResponse {
    GetState(Result<GetStateResponse, ApiError>),
    PlayGame(Result<PlayResponse, ApiError>),
}

/// An event for the session.
pub enum WordleMsg {
    KeyboardInput(KeyboardMsg),
    VerifyUserResponse(bool),
    ApiResponse(WordleResponse),
}

/// What the session asks its runner to do after an event.
pub enum WordleAction {
    Nothing,
    Navigate(Route),
    /// Fetch the guesses made so far in this game.
    FetchState,
    /// Send the composed guess for scoring.
    SubmitGuess(PlayRequest),
    /// Go back to the menu after the given number of milliseconds.
    MenuAfter(u32),
}

/// Where a session stands.
#[derive(Clone, Copy, Debug, PartialEq, Eq, Structural)]
pub enum GameStatus {
    /// The past guesses are not known yet.
    Loading,
    /// A row is being composed.
    Composing,
    /// A composed row awaits its score.
    Submitting,
    Won,
    Lost,
}

/// One round of guessing against one secret answer.
pub struct Wordle {
    animate: bool,
    loading: bool,
    submitting: bool,
    game_over: bool,
    won: bool,
    game_id: String,
    answer: Option<Vec<char>>,
    cell_i: usize,
    word_i: usize,
    verification_pending: bool,
    state: Vec<Vec<CharCellState>>,
    correctness_map: Vec<Correctness>,
    toast_msg: Option<String>,
}

/// The mathematical state of a session.
pub struct WordleView {
    pub animate: bool,
    pub loading: bool,
    pub submitting: bool,
    pub game_over: bool,
    pub won: bool,
    pub game_id: Seq<char>,
    /// The secret answer, when this session scores guesses itself.
    pub answer: Option<Seq<char>>,
    pub cell_i: int,
    pub word_i: int,
    pub verification_pending: bool,
    pub grid: Seq<Seq<CharCellState>>,
    pub hints: Seq<Correctness>,
    pub toast: Option<Seq<char>>,
}

/// The rows of a grid as sequences.
pub open spec fn grid_view(rows: Seq<Vec<CharCellState>>) -> Seq<Seq<CharCellState>> {
    rows.map_values(|r: Vec<CharCellState>| r@)
}

/// An optional string as an optional sequence of characters.
pub open spec fn opt_string_view(s: Option<String>) -> Option<Seq<char>> {
    match s {
        Some(t) => Some(t@),
        None => None,
    }
}

impl View for Wordle {
    type V = WordleView;

    closed spec fn view(&self) -> WordleView {
        WordleView {
            animate: self.animate,
            loading: self.loading,
            submitting: self.submitting,
            game_over: self.game_over,
            won: self.won,
            game_id: self.game_id@,
            answer: match self.answer {
                Some(a) => Some(a@),
                None => None,
            },
            cell_i: self.cell_i as int,
            word_i: self.word_i as int,
            verification_pending: self.verification_pending,
            grid: grid_view(self.state@),
            hints: self.correctness_map@,
            toast: opt_string_view(self.toast_msg),
        }
    }
}

/// An empty grid.
pub open spec fn empty_grid() -> Seq<Seq<CharCellState>> {
    Seq::new(MAX_GUESSES as nat, |r: int| Seq::new(WORD_LEN as nat, |c: int| CharCellState::Empty))
}

/// Whether a scored row has the right width and only letters.
pub open spec fn valid_row(row: Seq<(char, game_model::Correctness)>) -> bool {
    &&& row.len() == WORD_LEN
    &&& forall|i: int| 0 <= i < row.len() ==> is_letter(#[trigger] row[i].0)
}

/// Whether every letter of a scored row is `Correct`.
pub open spec fn row_won(row: Seq<(char, game_model::Correctness)>) -> bool {
    forall|i: int| 0 <= i < row.len() ==> #[trigger] row[i].1 == game_model::Correctness::Correct
}

/// The cells that show a scored row.
pub open spec fn scored_cells(row: Seq<(char, game_model::Correctness)>) -> Seq<CharCellState> {
    Seq::new(row.len(), |i: int| scored_cell(row[i]))
}

/// Each letter of `guess` paired with its score.
pub open spec fn zip_scores(guess: Seq<char>, outcome: Seq<game_model::Correctness>) -> Seq<
    (char, game_model::Correctness),
> {
    Seq::new(guess.len(), |i: int| (guess[i], outcome[i]))
}

/// The view of the scored rows of a state response.
pub open spec fn rows_view(rows: Seq<Vec<(char, game_model::Correctness)>>) -> Seq<
    Seq<(char, game_model::Correctness)>,
> {
    rows.map_values(|r: Vec<(char, game_model::Correctness)>| r@)
}

/// The hint map after replaying scored rows in order.
pub open spec fn replay(hints: Seq<Correctness>, rows: Seq<Seq<(char, game_model::Correctness)>>) -> Seq<
    Correctness,
>
    decreases rows.len(),
{
    if rows.len() == 0 {
        hints
    } else {
        hints_after(replay(hints, rows.drop_last()), rows.last())
    }
}

/// The toast shown when a request of the session failed.
pub open spec fn error_toast() -> Seq<char> {
    "An error occurred; please try refreshing this page"@
}

/// The toast shown when the round is won.
pub open spec fn won_toast() -> Seq<char> {
    "You won!"@
}

impl WordleView {
    /// The invariant of every session.
    pub open spec fn wf(self) -> bool {
        &&& self.grid.len() == MAX_GUESSES
        &&& forall|r: int| 0 <= r < MAX_GUESSES ==> (#[trigger] self.grid[r]).len() == WORD_LEN
        &&& self.hints.len() == ALPHABET_LEN
        &&& 0 <= self.cell_i <= WORD_LEN
        &&& 0 <= self.word_i <= MAX_GUESSES
        &&& !self.game_over ==> self.word_i < MAX_GUESSES
        &&& self.won ==> self.game_over
        &&& self.submitting ==> self.cell_i == WORD_LEN && !self.game_over && !self.loading
        &&& self.answer matches Some(a) ==> a.len() == WORD_LEN
        &&& self.word_i < MAX_GUESSES ==> forall|c: int|
            0 <= c < self.cell_i ==> is_typed_letter(#[trigger] self.grid[self.word_i][c])
    }

    /// Whether keys are taken: neither loading, nor awaiting a score, nor over.
    pub open spec fn accepts_input(self) -> bool {
        !self.game_over && !self.loading && !self.submitting
    }

    /// Where the session stands: an end decides over anything else.
    pub open spec fn status(self) -> GameStatus {
        if self.won {
            GameStatus::Won
        } else if self.game_over {
            GameStatus::Lost
        } else if self.loading {
            GameStatus::Loading
        } else if self.submitting {
            GameStatus::Submitting
        } else {
            GameStatus::Composing
        }
    }

    /// The letters of the row being composed.
    pub open spec fn composed_guess(self) -> Seq<char> {
        Seq::new(WORD_LEN as nat, |i: int| cell_char(self.grid[self.word_i][i]))
    }

    /// After typing letter `ch` into the next cell.
    pub open spec fn after_letter(self, ch: char) -> WordleView {
        WordleView {
            grid: self.grid.update(
                self.word_i,
                self.grid[self.word_i].update(
                    self.cell_i,
                    CharCellState::Filled(FilledState { ch, correctness: Correctness::Guess }),
                ),
            ),
            cell_i: self.cell_i + 1,
            animate: false,
            ..self
        }
    }

    /// After clearing the last typed cell.
    pub open spec fn after_backspace(self) -> WordleView {
        WordleView {
            grid: self.grid.update(
                self.word_i,
                self.grid[self.word_i].update(self.cell_i - 1, CharCellState::Empty),
            ),
            cell_i: self.cell_i - 1,
            animate: false,
            ..self
        }
    }

    /// After the current row was scored as `row`; `over` is the server's word on the round.
    pub open spec fn after_scored_row(self, row: Seq<(char, game_model::Correctness)>, over: bool) -> WordleView {
        let won = row_won(row);
        let game_over = self.game_over || over || won || self.word_i + 1 == MAX_GUESSES;
        WordleView {
            grid: self.grid.update(self.word_i, scored_cells(row)),
            hints: hints_after(self.hints, row),
            cell_i: 0,
            word_i: self.word_i + 1,
            game_over,
            won,
            animate: true,
            submitting: false,
            toast: if won {
                Some(won_toast())
            } else if game_over {
                Some("Game over :("@)
            } else {
                self.toast
            },
            ..self
        }
    }

    /// After a full row was submitted: scored at once when the answer is known here,
    /// else awaiting the server's score.
    pub open spec fn after_submit(self) -> WordleView {
        match self.answer {
            Some(a) => self.after_scored_row(
                zip_scores(self.composed_guess(), scores(a, self.composed_guess())),
                false,
            ),
            None => WordleView { submitting: true, animate: false, ..self },
        }
    }

    /// After a key; keys that are not legal in this state change nothing.
    pub open spec fn after_key(self, k: KeyboardMsg) -> WordleView {
        if !self.accepts_input() {
            self
        } else {
            match k {
                KeyboardMsg::Backspace => if self.cell_i > 0 {
                    self.after_backspace()
                } else {
                    self
                },
                KeyboardMsg::Enter => if self.cell_i == WORD_LEN {
                    self.after_submit()
                } else {
                    self
                },
                _ => if self.cell_i < WORD_LEN {
                    self.after_letter(key_letter(k)->0)
                } else {
                    self
                },
            }
        }
    }

    /// The grid after writing the restored rows over its first rows.
    pub open spec fn restored_grid(self, rows: Seq<Seq<(char, game_model::Correctness)>>) -> Seq<
        Seq<CharCellState>,
    > {
        Seq::new(
            self.grid.len(),
            |r: int|
                if r < rows.len() {
                    scored_cells(rows[r])
                } else {
                    self.grid[r]
                },
        )
    }

    /// After the past rows of the game were restored; `over` is the server's word on the round.
    pub open spec fn after_restore(self, rows: Seq<Seq<(char, game_model::Correctness)>>, over: bool) -> WordleView {
        let won = rows.len() > 0 && row_won(rows.last());
        let game_over = over || won || rows.len() == MAX_GUESSES;
        WordleView {
            grid: self.restored_grid(rows),
            hints: replay(self.hints, rows),
            cell_i: 0,
            word_i: rows.len() as int,
            game_over,
            won,
            animate: true,
            loading: false,
            toast: if won {
                Some(won_toast())
            } else if game_over {
                Some("Game over!"@)
            } else {
                self.toast
            },
            ..self
        }
    }

    /// Whether a key changes what is shown at once (a guess sent for scoring shows later).
    pub open spec fn key_redraws(self, k: KeyboardMsg) -> bool {
        &&& self.accepts_input()
        &&& match k {
            KeyboardMsg::Backspace => self.cell_i > 0,
            KeyboardMsg::Enter => self.cell_i == WORD_LEN && self.answer is Some,
            _ => self.cell_i < WORD_LEN,
        }
    }

    /// Whether a key sends the composed row to the server for scoring.
    pub open spec fn key_submits(self, k: KeyboardMsg) -> bool {
        self.accepts_input() && k == KeyboardMsg::Enter && self.cell_i == WORD_LEN && self.answer is None
    }

    /// Whether a state response holds at most a full grid of well-formed rows.
    pub open spec fn restorable(self, resp: GetStateResponse) -> bool {
        &&& self.loading
        &&& resp.guesses@.len() <= MAX_GUESSES
        &&& forall|r: int| 0 <= r < resp.guesses@.len() ==> valid_row(#[trigger] resp.guesses@[r]@)
    }

    /// After an event.
    pub open spec fn after_msg(self, msg: WordleMsg) -> WordleView {
        if self.game_over {
            self
        } else {
            self.after_msg_in_play(msg)
        }
    }

    /// After an event, while the round is not over.
    pub open spec fn after_msg_in_play(self, msg: WordleMsg) -> WordleView {
        match msg {
            WordleMsg::KeyboardInput(k) => self.after_key(k),
            WordleMsg::VerifyUserResponse(ok) => if ok {
                WordleView {
                    verification_pending: false,
                    toast: Some("Loading game state"@),
                    ..self
                }
            } else {
                self
            },
            WordleMsg::ApiResponse(WordleResponse::PlayGame(res)) => match res {
                Ok(resp) => if self.submitting && valid_row(resp.guess@) {
                    self.after_scored_row(resp.guess@, resp.game_over)
                } else {
                    WordleView { submitting: false, toast: Some(error_toast()), ..self }
                },
                Err(_) => WordleView { submitting: false, toast: Some(error_toast()), ..self },
            },
            WordleMsg::ApiResponse(WordleResponse::GetState(res)) => match res {
                Ok(resp) => if self.restorable(resp) {
                    self.after_restore(rows_view(resp.guesses@), resp.game_over)
                } else {
                    WordleView { toast: Some(error_toast()), ..self }
                },
                Err(_) => WordleView { toast: Some(error_toast()), ..self },
            },
        }
    }
}

/// A fresh session view for game `game_id`, scored by the server.
pub open spec fn fresh_session(game_id: Seq<char>, answer: Option<Seq<char>>) -> WordleView {
    WordleView {
        animate: false,
        loading: answer is None,
        submitting: false,
        game_over: false,
        won: false,
        game_id,
        answer,
        cell_i: 0,
        word_i: 0,
        verification_pending: answer is None,
        grid: empty_grid(),
        hints: fresh_hints(),
        toast: if answer is None {
            Some("Loading"@)
        } else {
            None
        },
    }
}

fn empty_state() -> (r: Vec<Vec<CharCellState>>)
    ensures
        grid_view(r@) == empty_grid(),
{
    let mut r: Vec<Vec<CharCellState>> = Vec::new();
    let mut w: usize = 0;
    while w < MAX_GUESSES
        invariant
            w <= MAX_GUESSES,
            r@.len() == w,
            forall|k: int| 0 <= k < w ==> (#[trigger] r@[k])@ == empty_grid()[k],
        decreases MAX_GUESSES - w,
    {
        let mut row: Vec<CharCellState> = Vec::new();
        let mut c: usize = 0;
        while c < WORD_LEN
            invariant
                c <= WORD_LEN,
                row@ == Seq::new(c as nat, |i: int| CharCellState::Empty),
            decreases WORD_LEN - c,
        {
            row.push(CharCellState::Empty);
            c = c + 1;
            assert(row@ =~= Seq::new(c as nat, |i: int| CharCellState::Empty));
        }
        assert(row@ == empty_grid()[w as int]);
        r.push(row);
        w = w + 1;
    }
    assert(grid_view(r@) =~= empty_grid());
    r
}

fn string_from(s: &str) -> (r: String)
    ensures
        r@ == s@,
{
    s.to_owned()
}

impl Wordle {
    /// The invariant of the session, with its grid's row count.
    pub closed spec fn well_formed(&self) -> bool {
        &&& self@.wf()
        &&& self.state@.len() == MAX_GUESSES
    }

    /// A session of game `game_id` whose guesses the server scores; it starts loading.
    pub fn create(game_id: String) -> (r: Self)
        ensures
            r.well_formed(),
            r@ == fresh_session(game_id@, None),
    {
        let r = Wordle {
            animate: false,
            loading: true,
            submitting: false,
            game_over: false,
            won: false,
            game_id,
            answer: None,
            cell_i: 0,
            word_i: 0,
            verification_pending: true,
            state: empty_state(),
            correctness_map: new_correctness_map(),
            toast_msg: Some(string_from("Loading")),
        };
        assert(r@ =~= fresh_session(r.game_id@, None));
        r
    }

    /// A session that scores guesses itself against `answer`; `None` unless the answer is
    /// five upper-case letters.
    pub fn with_answer(game_id: String, answer: Vec<char>) -> (r: Option<Self>)
        ensures
            r is Some <==> (answer@.len() == WORD_LEN && forall|i: int|
                0 <= i < answer@.len() ==> is_letter(#[trigger] answer@[i])),
            r matches Some(w) ==> w.well_formed() && w@ == fresh_session(game_id@, Some(answer@)),
    {
        if answer.len() != WORD_LEN {
            return None;
        }
        let mut i: usize = 0;
        while i < answer.len()
            invariant
                i <= answer@.len(),
                forall|j: int| 0 <= j < i ==> is_letter(#[trigger] answer@[j]),
            decreases answer@.len() - i,
        {
            if !(answer[i] >= 'A' && answer[i] <= 'Z') {
                return None;
            }
            i = i + 1;
        }
        let ghost a = answer@;
        let r = Wordle {
            animate: false,
            loading: false,
            submitting: false,
            game_over: false,
            won: false,
            game_id,
            answer: Some(answer),
            cell_i: 0,
            word_i: 0,
            verification_pending: false,
            state: empty_state(),
            correctness_map: new_correctness_map(),
            toast_msg: None,
        };
        assert(r@ =~= fresh_session(r.game_id@, Some(a)));
        Some(r)
    }

    pub fn game_id(&self) -> (r: &String)
        ensures
            r@ == self@.game_id,
    {
        &self.game_id
    }

    /// The row being composed (or the number of rows used, once the round is over).
    pub fn word_i(&self) -> (r: usize)
        ensures
            r == self@.word_i,
    {
        self.word_i
    }

    /// The next cell to type into.
    pub fn cell_i(&self) -> (r: usize)
        ensures
            r == self@.cell_i,
    {
        self.cell_i
    }

    pub fn is_game_over(&self) -> (r: bool)
        ensures
            r == self@.game_over,
    {
        self.game_over
    }

    pub fn is_animating(&self) -> (r: bool)
        ensures
            r == self@.animate,
    {
        self.animate
    }

    pub fn grid(&self) -> (r: &Vec<Vec<CharCellState>>)
        ensures
            grid_view(r@) == self@.grid,
    {
        &self.state
    }

    /// The keyboard hint of every letter, `A` first.
    pub fn correctness_map(&self) -> (r: &Vec<Correctness>)
        ensures
            r@ == self@.hints,
    {
        &self.correctness_map
    }

    pub fn toast_msg(&self) -> (r: &Option<String>)
        ensures
            opt_string_view(*r) == self@.toast,
    {
        &self.toast_msg
    }

    pub fn status(&self) -> (r: GameStatus)
        ensures
            r == self@.status(),
    {
        if self.won {
            GameStatus::Won
        } else if self.game_over {
            GameStatus::Lost
        } else if self.loading {
            GameStatus::Loading
        } else if self.submitting {
            GameStatus::Submitting
        } else {
            GameStatus::Composing
        }
    }
}

/// Scores one row into cells and the hint map; also tells whether every letter is `Correct`.
fn score_row_into(map: &mut Vec<Correctness>, row: &Vec<(char, game_model::Correctness)>) -> (r: (
    Vec<CharCellState>,
    bool,
))
    requires
        old(map)@.len() == ALPHABET_LEN,
        valid_row(row@),
    ensures
        final(map)@ == hints_after(old(map)@, row@),
        final(map)@.len() == ALPHABET_LEN,
        r.0@ == scored_cells(row@),
        r.1 == row_won(row@),
{
    let mut cells: Vec<CharCellState> = Vec::new();
    let mut won = true;
    let mut i: usize = 0;
    assert(scored_cells(row@.take(0)) =~= Seq::<CharCellState>::empty());
    while i < row.len()
        invariant
            i <= row@.len(),
            valid_row(row@),
            map@.len() == ALPHABET_LEN,
            map@ == hints_after(old(map)@, row@.take(i as int)),
            cells@ == scored_cells(row@.take(i as int)),
            won == row_won(row@.take(i as int)),
        decreases row@.len() - i,
    {
        let (ch, c) = row[i];
        assert(is_letter(row@[i as int].0));
        update_correctness_map(map, ch, c);
        let ghost prev = cells@;
        cells.push(CharCellState::Filled(FilledState { ch, correctness: Correctness::from(c) }));
        won = won && c == game_model::Correctness::Correct;
        proof {
            let t = row@.take(i as int + 1);
            assert(t.drop_last() =~= row@.take(i as int));
            assert(t.last() == row@[i as int]);
        }
        i = i + 1;
        assert forall|k: int| 0 <= k < i implies #[trigger] cells@[k] == scored_cells(row@.take(i as int))[k] by {
            if k < i - 1 {
                assert(prev[k] == scored_cells(row@.take(i - 1))[k]);
            }
        }
        assert(cells@ =~= scored_cells(row@.take(i as int)));
        assert(won == row_won(row@.take(i as int))) by {
            if !won {
                if c != game_model::Correctness::Correct {
                    assert(row@.take(i as int)[i - 1].1 != game_model::Correctness::Correct);
                }
            }
        }
    }
    assert(row@.take(row@.len() as int) =~= row@);
    (cells, won)
}

/// Whether every letter of a scored row is `Correct`.
fn all_correct(row: &Vec<(char, game_model::Correctness)>) -> (r: bool)
    ensures
        r == row_won(row@),
{
    let mut i: usize = 0;
    while i < row.len()
        invariant
            i <= row@.len(),
            forall|j: int| 0 <= j < i ==> #[trigger] row@[j].1 == game_model::Correctness::Correct,
        decreases row@.len() - i,
    {
        if row[i].1 != game_model::Correctness::Correct {
            return false;
        }
        i = i + 1;
    }
    true
}

/// Whether a scored row has the right width and only letters.
fn check_row(row: &Vec<(char, game_model::Correctness)>) -> (r: bool)
    ensures
        r == valid_row(row@),
{
    if row.len() != WORD_LEN {
        return false;
    }
    let mut i: usize = 0;
    while i < row.len()
        invariant
            i <= row@.len(),
            forall|j: int| 0 <= j < i ==> is_letter(#[trigger] row@[j].0),
        decreases row@.len() - i,
    {
        if !(row[i].0 >= 'A' && row[i].0 <= 'Z') {
            return false;
        }
        i = i + 1;
    }
    true
}

/// Whether a state response holds at most a full grid of well-formed rows.
fn check_rows(rows: &Vec<Vec<(char, game_model::Correctness)>>) -> (r: bool)
    ensures
        r == (rows@.len() <= MAX_GUESSES && forall|k: int|
            0 <= k < rows@.len() ==> valid_row(#[trigger] rows@[k]@)),
{
    if rows.len() > MAX_GUESSES {
        return false;
    }
    let mut k: usize = 0;
    while k < rows.len()
        invariant
            k <= rows@.len(),
            forall|j: int| 0 <= j < k ==> valid_row(#[trigger] rows@[j]@),
        decreases rows@.len() - k,
    {
        if !check_row(&rows[k]) {
            return false;
        }
        k = k + 1;
    }
    true
}

impl Wordle {
    /// Writes the scored current row, updates the hints and moves to the next row.
    fn apply_row(&mut self, row: &Vec<(char, game_model::Correctness)>, over: bool)
        requires
            old(self).well_formed(),
            !old(self)@.game_over,
            valid_row(row@),
        ensures
            final(self).well_formed(),
            final(self)@ == old(self)@.after_scored_row(row@, over),
    {
        let w = self.word_i;
        let (cells, won) = score_row_into(&mut self.correctness_map, row);
        self.state.set(w, cells);
        self.cell_i = 0;
        self.word_i = w + 1;
        self.game_over = self.game_over || over || won || self.word_i == MAX_GUESSES;
        self.won = won;
        self.animate = true;
        self.submitting = false;
        if won {
            self.toast_msg = Some(string_from("You won!"));
        } else if self.game_over {
            self.toast_msg = Some(string_from("Game over :("));
        }
        assert(grid_view(self.state@) =~= old(self)@.grid.update(w as int, scored_cells(row@)));
        assert(self@ =~= old(self)@.after_scored_row(row@, over));
        assert(forall|r: int| 0 <= r < MAX_GUESSES ==> (#[trigger] self@.grid[r]).len() == WORD_LEN);
        assert(self@.hints.len() == ALPHABET_LEN);
        assert(self.state@.len() == MAX_GUESSES);
    }

    /// The letters of the row being composed.
    fn composed_guess(&self) -> (r: Vec<char>)
        requires
            self.well_formed(),
            self@.word_i < MAX_GUESSES,
            self@.cell_i == WORD_LEN,
        ensures
            r@ == self@.composed_guess(),
            forall|i: int| 0 <= i < r@.len() ==> is_letter(#[trigger] r@[i]),
    {
        let mut r: Vec<char> = Vec::new();
        let row = &self.state[self.word_i];
        assert(self@.grid[self@.word_i] == row@);
        assert(self@.grid[self@.word_i].len() == WORD_LEN);
        let mut i: usize = 0;
        while i < WORD_LEN
            invariant
                i <= WORD_LEN,
                row@ == self@.grid[self@.word_i],
                row@.len() == WORD_LEN,
                forall|c: int| 0 <= c < WORD_LEN ==> is_typed_letter(#[trigger] row@[c]),
                r@ == self@.composed_guess().take(i as int),
            decreases WORD_LEN - i,
        {
            assert(is_typed_letter(row@[i as int]));
            match row[i] {
                CharCellState::Filled(f) => r.push(f.ch),
                CharCellState::Empty => {},
            }
            i = i + 1;
            assert(r@ =~= self@.composed_guess().take(i as int));
        }
        assert(r@ =~= self@.composed_guess());
        r
    }

    /// Handles one key of the keyboard.
    fn keydown_handler(&mut self, e: KeyboardMsg) -> (r: (bool, WordleAction))
        requires
            old(self).well_formed(),
        ensures
            final(self).well_formed(),
            final(self)@ == old(self)@.after_key(e),
            r.0 == old(self)@.key_redraws(e),
            old(self)@.key_submits(e) ==> (r.1 matches WordleAction::SubmitGuess(req) && req.guess@
                == old(self)@.composed_guess()),
            !old(self)@.key_submits(e) ==> r.1 is Nothing,
    {
        if self.game_over || self.loading || self.submitting {
            return (false, WordleAction::Nothing);
        }
        match e {
            KeyboardMsg::Backspace => {
                if self.cell_i > 0 {
                    let c = self.cell_i - 1;
                    let w = self.word_i;
                    self.cell_i = c;
                    self.state[w][c] = CharCellState::Empty;
                    self.animate = false;
                    assert(grid_view(self.state@) =~= old(self)@.after_backspace().grid);
                    assert(self@ =~= old(self)@.after_backspace());
                    (true, WordleAction::Nothing)
                } else {
                    (false, WordleAction::Nothing)
                }
            },
            KeyboardMsg::Enter => {
                if self.cell_i == WORD_LEN {
                    let guess = self.composed_guess();
                    match &self.answer {
                        Some(a) => {
                            let outcome = evaluate(a.as_slice(), guess.as_slice());
                            let mut row: Vec<(char, game_model::Correctness)> = Vec::new();
                            let mut i: usize = 0;
                            while i < WORD_LEN
                                invariant
                                    i <= WORD_LEN,
                                    guess@.len() == WORD_LEN,
                                    outcome@.len() == WORD_LEN,
                                    forall|j: int| 0 <= j < guess@.len() ==> is_letter(#[trigger] guess@[j]),
                                    row@ == zip_scores(guess@, outcome@).take(i as int),
                                decreases WORD_LEN - i,
                            {
                                row.push((guess[i], outcome[i]));
                                i = i + 1;
                                assert(row@ =~= zip_scores(guess@, outcome@).take(i as int));
                            }
                            assert(row@ =~= zip_scores(guess@, outcome@));
                            self.apply_row(&row, false);
                            (true, WordleAction::Nothing)
                        },
                        None => {
                            self.submitting = true;
                            self.animate = false;
                            assert(self@ =~= old(self)@.after_submit());
                            (false, WordleAction::SubmitGuess(PlayRequest { guess }))
                        },
                    }
                } else {
                    (false, WordleAction::Nothing)
                }
            },
            k => {
                if self.cell_i < WORD_LEN {
                    let ch = match k.letter() {
                        Some(ch) => ch,
                        None => 'A',
                    };
                    let c = self.cell_i;
                    let w = self.word_i;
                    self.state[w][c] = CharCellState::Filled(
                        FilledState { ch, correctness: Correctness::Guess },
                    );
                    self.cell_i = c + 1;
                    self.animate = false;
                    assert(grid_view(self.state@) =~= old(self)@.after_letter(ch).grid);
                    assert(self@ =~= old(self)@.after_letter(ch));
                    (true, WordleAction::Nothing)
                } else {
                    (false, WordleAction::Nothing)
                }
            },
        }
    }
}


impl Wordle {
    /// Rebuilds the grid and the hints from the rows scored so far.
    fn restore(&mut self, rows: &Vec<Vec<(char, game_model::Correctness)>>, over: bool) -> (r: WordleAction)
        requires
            old(self).well_formed(),
            old(self)@.loading,
            rows@.len() <= MAX_GUESSES,
            forall|k: int| 0 <= k < rows@.len() ==> valid_row(#[trigger] rows@[k]@),
        ensures
            final(self).well_formed(),
            final(self)@ == old(self)@.after_restore(rows_view(rows@), over),
            final(self)@.won ==> (r matches WordleAction::MenuAfter(d) && d == WON_MENU_DELAY_MS),
            !final(self)@.won && final(self)@.game_over ==> (r matches WordleAction::MenuAfter(d) && d
                == LOST_MENU_DELAY_MS),
            !final(self)@.game_over ==> r is Nothing,
    {
        let ghost rv = rows_view(rows@);
        let mut k: usize = 0;
        assert(old(self)@.restored_grid(rv.take(0)) =~= old(self)@.grid);
        assert(rv.take(0) =~= Seq::<Seq<(char, game_model::Correctness)>>::empty());
        while k < rows.len()
            invariant
                k <= rows@.len(),
                rows@.len() <= MAX_GUESSES,
                rv == rows_view(rows@),
                forall|j: int| 0 <= j < rows@.len() ==> valid_row(#[trigger] rows@[j]@),
                self.state@.len() == MAX_GUESSES,
                self.correctness_map@.len() == ALPHABET_LEN,
                old(self).well_formed(),
                self@ == (WordleView {
                    grid: old(self)@.restored_grid(rv.take(k as int)),
                    hints: replay(old(self)@.hints, rv.take(k as int)),
                    ..old(self)@
                }),
            decreases rows@.len() - k,
        {
            assert(rv[k as int] == rows@[k as int]@);
            let ghost prev = grid_view(self.state@);
            let (cells, _) = score_row_into(&mut self.correctness_map, &rows[k]);
            self.state.set(k, cells);
            assert forall|j: int| 0 <= j < MAX_GUESSES implies #[trigger] grid_view(self.state@)[j]
                == old(self)@.restored_grid(rv.take(k as int + 1))[j] by {
                if j != k {
                    assert(grid_view(self.state@)[j] == prev[j]);
                    assert(prev[j] == old(self)@.restored_grid(rv.take(k as int))[j]);
                }
            }
            proof {
                let t = rv.take(k as int + 1);
                assert(t.drop_last() =~= rv.take(k as int));
                assert(t.last() == rv[k as int]);
            }
            k = k + 1;
            assert(grid_view(self.state@) =~= old(self)@.restored_grid(rv.take(k as int)));
            assert(self@ =~= (WordleView {
                grid: old(self)@.restored_grid(rv.take(k as int)),
                hints: replay(old(self)@.hints, rv.take(k as int)),
                ..old(self)@
            }));
        }
        assert(rv.take(rows@.len() as int) =~= rv);
        let n = rows.len();
        let won = if n > 0 {
            assert(rv.last() == rows@[n - 1]@);
            all_correct(&rows[n - 1])
        } else {
            false
        };
        self.word_i = n;
        self.cell_i = 0;
        self.won = won;
        self.game_over = over || won || n == MAX_GUESSES;
        self.animate = true;
        self.loading = false;
        let action = if won {
            self.toast_msg = Some(string_from("You won!"));
            WordleAction::MenuAfter(WON_MENU_DELAY_MS)
        } else if self.game_over {
            self.toast_msg = Some(string_from("Game over!"));
            WordleAction::MenuAfter(LOST_MENU_DELAY_MS)
        } else {
            WordleAction::Nothing
        };
        assert(self@ =~= old(self)@.after_restore(rv, over));
        assert(forall|r: int| 0 <= r < MAX_GUESSES ==> (#[trigger] self@.grid[r]).len() == WORD_LEN) by {
            assert forall|r: int| 0 <= r < MAX_GUESSES implies (#[trigger] self@.grid[r]).len() == WORD_LEN by {
                if r < rv.len() {
                    assert(valid_row(rows@[r]@));
                }
            }
        }
        action
    }

    /// Handles one event and says whether the view changed and what to do next.
    pub fn update(&mut self, msg: WordleMsg) -> (r: (bool, WordleAction))
        requires
            old(self).well_formed(),
        ensures
            final(self).well_formed(),
            final(self)@ == old(self)@.after_msg(msg),
            old(self)@.game_over ==> !r.0 && r.1 is Nothing,
            !old(self)@.game_over ==> match msg {
                WordleMsg::KeyboardInput(k) => {
                    &&& r.0 == old(self)@.key_redraws(k)
                    &&& old(self)@.key_submits(k) ==> (r.1 matches WordleAction::SubmitGuess(req)
                        && req.guess@ == old(self)@.composed_guess())
                    &&& !old(self)@.key_submits(k) ==> r.1 is Nothing
                },
                WordleMsg::VerifyUserResponse(ok) => {
                    &&& r.0 == ok
                    &&& ok ==> r.1 is FetchState
                    &&& !ok ==> r.1 matches WordleAction::Navigate(Route::Register)
                },
                WordleMsg::ApiResponse(WordleResponse::GetState(Ok(resp))) => {
                    &&& r.0
                    &&& old(self)@.restorable(resp) && final(self)@.won ==> (r.1 matches WordleAction::MenuAfter(d)
                        && d == WON_MENU_DELAY_MS)
                    &&& old(self)@.restorable(resp) && !final(self)@.won && final(self)@.game_over ==> (r.1 matches WordleAction::MenuAfter(d) && d
                        == LOST_MENU_DELAY_MS)
                    &&& !(old(self)@.restorable(resp) && final(self)@.game_over) ==> r.1 is Nothing
                },
                WordleMsg::ApiResponse(_) => r.0 && r.1 is Nothing,
            },
    {
        match msg {
            _ if self.game_over => (false, WordleAction::Nothing),
            WordleMsg::VerifyUserResponse(false) => (false, WordleAction::Navigate(Route::Register)),
            WordleMsg::VerifyUserResponse(true) => {
                self.verification_pending = false;
                self.toast_msg = Some(string_from("Loading game state"));
                assert(self@ =~= old(self)@.after_msg(msg));
                (true, WordleAction::FetchState)
            },
            WordleMsg::KeyboardInput(k) => self.keydown_handler(k),
            WordleMsg::ApiResponse(WordleResponse::PlayGame(Ok(resp))) => {
                if self.submitting && check_row(&resp.guess) {
                    self.apply_row(&resp.guess, resp.game_over);
                } else {
                    self.submitting = false;
                    self.toast_msg = Some(string_from("An error occurred; please try refreshing this page"));
                    assert(self@ =~= old(self)@.after_msg(msg));
                }
                (true, WordleAction::Nothing)
            },
            WordleMsg::ApiResponse(WordleResponse::GetState(Ok(resp))) => {
                if self.loading && check_rows(&resp.guesses) {
                    let action = self.restore(&resp.guesses, resp.game_over);
                    (true, action)
                } else {
                    self.toast_msg = Some(string_from("An error occurred; please try refreshing this page"));
                    assert(self@ =~= old(self)@.after_msg(msg));
                    (true, WordleAction::Nothing)
                }
            },
            WordleMsg::ApiResponse(WordleResponse::PlayGame(Err(_))) => {
                self.submitting = false;
                self.toast_msg = Some(string_from("An error occurred; please try refreshing this page"));
                assert(self@ =~= old(self)@.after_msg(msg));
                (true, WordleAction::Nothing)
            },
            WordleMsg::ApiResponse(WordleResponse::GetState(Err(_))) => {
                self.toast_msg = Some(string_from("An error occurred; please try refreshing this page"));
                assert(self@ =~= old(self)@.after_msg(msg));
                (true, WordleAction::Nothing)
            },
        }
    }
}


/// The session after each row of `rows` was scored in turn, with no word from the server.
pub open spec fn after_rows(s: WordleView, rows: Seq<Seq<(char, game_model::Correctness)>>) -> WordleView
    decreases rows.len(),
{
    if rows.len() == 0 {
        s
    } else {
        after_rows(s, rows.drop_last()).after_scored_row(rows.last(), false)
    }
}

/// Enter on a row that is not full is ignored: grid, cursor and everything else stay.
pub proof fn lemma_short_row_rejected(s: WordleView)
    requires
        s.cell_i < WORD_LEN,
    ensures
        s.after_key(KeyboardMsg::Enter) == s,
        s.after_msg(WordleMsg::KeyboardInput(KeyboardMsg::Enter)) == s,
        !s.key_submits(KeyboardMsg::Enter),
        !s.key_redraws(KeyboardMsg::Enter),
{
}

/// Once the round is over, no key and no other event changes the session.
pub proof fn lemma_over_ignores_events(s: WordleView, msg: WordleMsg)
    requires
        s.game_over,
    ensures
        s.after_msg(msg) == s,
        msg matches WordleMsg::KeyboardInput(k) ==> s.after_key(k) == s,
        s.status() == GameStatus::Won || s.status() == GameStatus::Lost,
{
}

/// A row scored all `Correct` wins the round.
pub proof fn lemma_correct_row_wins(s: WordleView, row: Seq<(char, game_model::Correctness)>, over: bool)
    requires
        s.wf(),
        !s.game_over,
        valid_row(row),
        row_won(row),
    ensures
        s.after_scored_row(row, over).wf(),
        s.after_scored_row(row, over).status() == GameStatus::Won,
{
    lemma_hints_after_len(s.hints, row);
}

/// In a session that knows the answer, a full row submitted with enter moves to the
/// next row; the round is won exactly when the row is the answer, and lost when a
/// row other than the answer fills the last allowed row.
pub proof fn lemma_local_submission(s: WordleView)
    requires
        s.wf(),
        s.accepts_input(),
        s.cell_i == WORD_LEN,
        s.answer is Some,
    ensures
        s.after_key(KeyboardMsg::Enter).wf(),
        s.after_key(KeyboardMsg::Enter).word_i == s.word_i + 1,
        s.after_key(KeyboardMsg::Enter).cell_i == 0,
        (s.after_key(KeyboardMsg::Enter).status() == GameStatus::Won) <==> (s.composed_guess() == s.answer->0),
        s.composed_guess() != s.answer->0 && s.word_i + 1 == MAX_GUESSES ==> s.after_key(
            KeyboardMsg::Enter,
        ).status() == GameStatus::Lost,
        s.composed_guess() != s.answer->0 && s.word_i + 1 < MAX_GUESSES ==> s.after_key(
            KeyboardMsg::Enter,
        ).status() == GameStatus::Composing,
{
    let a = s.answer->0;
    let g = s.composed_guess();
    let row = zip_scores(g, scores(a, g));
    lemma_all_correct_iff_equal(a, g);
    lemma_hints_after_len(s.hints, row);
    if g == a {
        assert forall|i: int| 0 <= i < row.len() implies #[trigger] row[i].1 == game_model::Correctness::Correct by {
            assert(scores(a, g)[i] == game_model::Correctness::Correct);
        }
    }
    if row_won(row) {
        assert forall|i: int| 0 <= i < g.len() implies #[trigger] scores(a, g)[i] == game_model::Correctness::Correct by {
            assert(row[i].1 == game_model::Correctness::Correct);
        }
    }
}

/// From a session at its first row, scoring rows none of which wins: before the last
/// allowed row the round goes on, and after it the round is lost.
pub proof fn lemma_all_rows_missed_loses(s: WordleView, rows: Seq<Seq<(char, game_model::Correctness)>>)
    requires
        s.wf(),
        !s.game_over,
        s.word_i == 0,
        rows.len() <= MAX_GUESSES,
        forall|k: int| 0 <= k < rows.len() ==> valid_row(#[trigger] rows[k]),
        forall|k: int| 0 <= k < rows.len() ==> !row_won(#[trigger] rows[k]),
    ensures
        after_rows(s, rows).wf(),
        after_rows(s, rows).word_i == rows.len(),
        rows.len() < MAX_GUESSES ==> !after_rows(s, rows).game_over,
        rows.len() == MAX_GUESSES ==> after_rows(s, rows).status() == GameStatus::Lost,
    decreases rows.len(),
{
    if rows.len() > 0 {
        let init = rows.drop_last();
        assert forall|k: int| 0 <= k < init.len() implies valid_row(#[trigger] init[k]) by {
            assert(init[k] == rows[k]);
        }
        assert forall|k: int| 0 <= k < init.len() implies !row_won(#[trigger] init[k]) by {
            assert(init[k] == rows[k]);
        }
        lemma_all_rows_missed_loses(s, init);
        assert(valid_row(rows[rows.len() - 1]));
        assert(!row_won(rows[rows.len() - 1]));
        lemma_hints_after_len(after_rows(s, init).hints, rows.last());
    }
}

} // verus!
