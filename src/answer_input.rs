use vstd::prelude::*;

use crate::charcell::{cell_char, is_typed_letter, scored_cell, CharCellState, Correctness, FilledState};
use crate::evaluator::WORD_LEN;
use crate::game_model::{self, ApiError, CreateGameRequest, CreateGameResponse};
use crate::keyboard::{key_letter, KeyboardMsg};
use crate::routes::Route;
use crate::strings::string_of;

verus! {

/// Answer of the game server to the creation of a game.
pub enum AnswerInputResponse {
    CreateGame(Result<CreateGameResponse, ApiError>),
}

/// An event for the answer input.
pub enum AnswerInputMsg {
    KeyboardInput(KeyboardMsg),
    ApiResponse(AnswerInputResponse),
}

/// What the answer input asks its runner to do after an event.
pub enum AnswerInputAction {
    Nothing,
    /// Ask the server for a game with this answer.
    CreateGame(CreateGameRequest),
    Navigate(Route),
}

/// The screen on which a player types the answer of a new game.
pub struct AnswerInput {
    answer: Vec<CharCellState>,
    cell_i: usize,
    submitted: bool,
    animate: bool,
    toast_msg: Option<String>,
}

/// The mathematical state of the answer input.
pub struct AnswerInputView {
    pub cells: Seq<CharCellState>,
    pub cell_i: int,
    pub submitted: bool,
    pub animate: bool,
    pub toast: Option<Seq<char>>,
}

impl View for AnswerInput {
    type V = AnswerInputView;

    closed spec fn view(&self) -> AnswerInputView {
        AnswerInputView {
            cells: self.answer@,
            cell_i: self.cell_i as int,
            submitted: self.submitted,
            animate: self.animate,
            toast: match self.toast_msg {
                Some(t) => Some(t@),
                None => None,
            },
        }
    }
}

impl AnswerInputView {
    pub open spec fn wf(self) -> bool {
        &&& self.cells.len() == WORD_LEN
        &&& 0 <= self.cell_i <= WORD_LEN
        &&& !self.submitted ==> forall|c: int|
            0 <= c < self.cell_i ==> is_typed_letter(#[trigger] self.cells[c])
    }

    /// The typed answer.
    pub open spec fn typed(self) -> Seq<char> {
        Seq::new(WORD_LEN as nat, |i: int| cell_char(self.cells[i]))
    }

    /// After a key; `animate` is cleared by any key taken before the answer was sent.
    pub open spec fn after_key(self, k: KeyboardMsg) -> AnswerInputView {
        if self.submitted {
            self
        } else {
            let s = AnswerInputView { animate: false, ..self };
            match k {
                KeyboardMsg::Backspace => if s.cell_i > 0 {
                    AnswerInputView {
                        cells: s.cells.update(s.cell_i - 1, CharCellState::Empty),
                        cell_i: s.cell_i - 1,
                        ..s
                    }
                } else {
                    s
                },
                KeyboardMsg::Enter => if s.cell_i == WORD_LEN {
                    AnswerInputView {
                        cells: Seq::new(
                            WORD_LEN as nat,
                            |i: int| scored_cell((cell_char(s.cells[i]), game_model::Correctness::Correct)),
                        ),
                        submitted: true,
                        animate: true,
                        ..s
                    }
                } else {
                    AnswerInputView { animate: true, ..s }
                },
                _ => if s.cell_i < WORD_LEN {
                    AnswerInputView {
                        cells: s.cells.update(
                            s.cell_i,
                            CharCellState::Filled(
                                FilledState { ch: key_letter(k)->0, correctness: Correctness::Guess },
                            ),
                        ),
                        cell_i: s.cell_i + 1,
                        ..s
                    }
                } else {
                    s
                },
            }
        }
    }

    /// Whether a key changes what is shown.
    pub open spec fn key_redraws(self, k: KeyboardMsg) -> bool {
        &&& !self.submitted
        &&& match k {
            KeyboardMsg::Backspace => self.cell_i > 0,
            KeyboardMsg::Enter => true,
            _ => self.cell_i < WORD_LEN,
        }
    }

    /// Whether a key sends the typed answer to create a game.
    pub open spec fn key_submits(self, k: KeyboardMsg) -> bool {
        !self.submitted && k == KeyboardMsg::Enter && self.cell_i == WORD_LEN
    }
}

impl AnswerInput {
    pub closed spec fn well_formed(&self) -> bool {
        self@.wf()
    }

    /// An empty answer input.
    pub fn create() -> (r: Self)
        ensures
            r.well_formed(),
            r@.cells == Seq::new(WORD_LEN as nat, |i: int| CharCellState::Empty),
            r@.cell_i == 0,
            !r@.submitted,
            !r@.animate,
            r@.toast is None,
    {
        let mut answer: Vec<CharCellState> = Vec::new();
        let mut i: usize = 0;
        while i < WORD_LEN
            invariant
                i <= WORD_LEN,
                answer@ == Seq::new(i as nat, |j: int| CharCellState::Empty),
            decreases WORD_LEN - i,
        {
            answer.push(CharCellState::Empty);
            i = i + 1;
            assert(answer@ =~= Seq::new(i as nat, |j: int| CharCellState::Empty));
        }
        AnswerInput { answer, cell_i: 0, submitted: false, animate: false, toast_msg: None }
    }

    /// Handles one key of the keyboard.
    fn keydown_handler(&mut self, e: KeyboardMsg) -> (r: (bool, AnswerInputAction))
        requires
            old(self).well_formed(),
        ensures
            final(self).well_formed(),
            final(self)@ == old(self)@.after_key(e),
            r.0 == old(self)@.key_redraws(e),
            old(self)@.key_submits(e) ==> (r.1 matches AnswerInputAction::CreateGame(req)
                && req.answer@ == old(self)@.typed()),
            !old(self)@.key_submits(e) ==> r.1 is Nothing,
    {
        if self.submitted {
            return (false, AnswerInputAction::Nothing);
        }
        self.animate = false;
        match e {
            KeyboardMsg::Backspace => {
                if self.cell_i > 0 {
                    self.cell_i = self.cell_i - 1;
                    let c = self.cell_i;
                    self.answer.set(c, CharCellState::Empty);
                    assert(self@ =~= old(self)@.after_key(e));
                    (true, AnswerInputAction::Nothing)
                } else {
                    assert(self@ =~= old(self)@.after_key(e));
                    (false, AnswerInputAction::Nothing)
                }
            },
            KeyboardMsg::Enter => {
                if self.cell_i == WORD_LEN {
                    let ghost before = self@;
                    self.submitted = true;
                    let mut chars: Vec<char> = Vec::new();
                    let mut i: usize = 0;
                    while i < WORD_LEN
                        invariant
                            i <= WORD_LEN,
                            self.answer@.len() == WORD_LEN,
                            before.wf(),
                            !before.submitted,
                            before.cell_i == WORD_LEN,
                            before == (AnswerInputView { animate: false, ..old(self)@ }),
                            self.cell_i == WORD_LEN,
                            self.submitted,
                            !self.animate,
                            self.toast_msg == old(self).toast_msg,
                            chars@ == before.typed().take(i as int),
                            forall|j: int| 0 <= j < i ==> #[trigger] self.answer@[j] == scored_cell(
                                (cell_char(before.cells[j]), game_model::Correctness::Correct),
                            ),
                            forall|j: int| i <= j < WORD_LEN ==> #[trigger] self.answer@[j] == before.cells[j],
                        decreases WORD_LEN - i,
                    {
                        assert(is_typed_letter(before.cells[i as int]));
                        let ch = match self.answer[i] {
                            CharCellState::Filled(f) => f.ch,
                            CharCellState::Empty => ' ',
                        };
                        self.answer.set(
                            i,
                            CharCellState::Filled(FilledState { ch, correctness: Correctness::Correct }),
                        );
                        chars.push(ch);
                        i = i + 1;
                        assert(chars@ =~= before.typed().take(i as int));
                    }
                    assert(chars@ =~= before.typed());
                    let answer = string_of(&chars);
                    self.animate = true;
                    assert(self.answer@ =~= Seq::new(
                        WORD_LEN as nat,
                        |i: int| scored_cell((cell_char(before.cells[i]), game_model::Correctness::Correct)),
                    ));
                    assert(self@ =~= old(self)@.after_key(e));
                    (true, AnswerInputAction::CreateGame(CreateGameRequest { answer }))
                } else {
                    self.animate = true;
                    assert(self@ =~= old(self)@.after_key(e));
                    (true, AnswerInputAction::Nothing)
                }
            },
            k => {
                if self.cell_i < WORD_LEN {
                    let ch = match k.letter() {
                        Some(ch) => ch,
                        None => 'A',
                    };
                    let c = self.cell_i;
                    self.answer.set(c, CharCellState::Filled(FilledState { ch, correctness: Correctness::Guess }));
                    self.cell_i = c + 1;
                    assert(self@ =~= old(self)@.after_key(e));
                    (true, AnswerInputAction::Nothing)
                } else {
                    assert(self@ =~= old(self)@.after_key(e));
                    (false, AnswerInputAction::Nothing)
                }
            },
        }
    }

    /// Handles one event and says whether the view changed and what to do next.
    pub fn update(&mut self, msg: AnswerInputMsg) -> (r: (bool, AnswerInputAction))
        requires
            old(self).well_formed(),
        ensures
            final(self).well_formed(),
            match msg {
                AnswerInputMsg::KeyboardInput(k) => {
                    &&& final(self)@ == old(self)@.after_key(k)
                    &&& r.0 == old(self)@.key_redraws(k)
                    &&& old(self)@.key_submits(k) ==> (r.1 matches AnswerInputAction::CreateGame(req)
                        && req.answer@ == old(self)@.typed())
                    &&& !old(self)@.key_submits(k) ==> r.1 is Nothing
                },
                AnswerInputMsg::ApiResponse(AnswerInputResponse::CreateGame(Ok(resp))) => {
                    &&& final(self)@ == old(self)@
                    &&& r.0
                    &&& r.1 matches AnswerInputAction::Navigate(Route::Manage { game_id }) && game_id@
                        == resp.game_id@
                },
                AnswerInputMsg::ApiResponse(AnswerInputResponse::CreateGame(Err(_))) => {
                    &&& final(self)@ == (AnswerInputView { toast: Some("An error occurred"@), ..old(self)@ })
                    &&& r.0
                    &&& r.1 is Nothing
                },
            },
    {
        match msg {
            AnswerInputMsg::KeyboardInput(e) => self.keydown_handler(e),
            AnswerInputMsg::ApiResponse(AnswerInputResponse::CreateGame(Ok(resp))) => {
                (true, AnswerInputAction::Navigate(Route::Manage { game_id: resp.game_id }))
            },
            AnswerInputMsg::ApiResponse(AnswerInputResponse::CreateGame(Err(_))) => {
                self.toast_msg = Some("An error occurred".to_owned());
                (true, AnswerInputAction::Nothing)
            },
        }
    }

    pub fn cells(&self) -> (r: &Vec<CharCellState>)
        ensures
            r@ == self@.cells,
    {
        &self.answer
    }

    pub fn cell_i(&self) -> (r: usize)
        ensures
            r == self@.cell_i,
    {
        self.cell_i
    }

    pub fn is_submitted(&self) -> (r: bool)
        ensures
            r == self@.submitted,
    {
        self.submitted
    }

    pub fn is_animating(&self) -> (r: bool)
        ensures
            r == self@.animate,
    {
        self.animate
    }

    pub fn toast_msg(&self) -> (r: &Option<String>)
        ensures
            match *r {
                Some(t) => self@.toast == Some(t@),
                None => self@.toast is None,
            },
    {
        &self.toast_msg
    }
}

} // verus!
