use vstd::prelude::*;

use crate::game_model;
use crate::hints::is_letter;

verus! {

/// Correctness of one cell or one keyboard letter; `Guess` marks a letter not scored yet.
#[derive(Clone, Copy, Debug, PartialEq, Eq, Structural)]
pub enum Correctness {
    Incorrect,
    IncorrectPosition,
    Guess,
    Correct,
}

/// The cell correctness that a resolved outcome shows as.
pub open spec fn resolved(c: game_model::Correctness) -> Correctness {
    match c {
        game_model::Correctness::Correct => Correctness::Correct,
        game_model::Correctness::IncorrectPosition => Correctness::IncorrectPosition,
        game_model::Correctness::Incorrect => Correctness::Incorrect,
    }
}

impl From<game_model::Correctness> for Correctness {
    fn from(correctness: game_model::Correctness) -> (r: Self)
        ensures
            r == resolved(correctness),
    {
        match correctness {
            game_model::Correctness::Correct => Self::Correct,
            game_model::Correctness::IncorrectPosition => Self::IncorrectPosition,
            game_model::Correctness::Incorrect => Self::Incorrect,
        }
    }
}

impl vstd::std_specs::convert::FromSpecImpl<game_model::Correctness> for Correctness {
    open spec fn obeys_from_spec() -> bool {
        true
    }

    open spec fn from_spec(v: game_model::Correctness) -> Self {
        resolved(v)
    }
}

/// A cell that holds a letter.
#[derive(Clone, Copy, Debug, PartialEq, Eq, Structural)]
pub struct FilledState {
    pub ch: char,
    pub correctness: Correctness,
}

/// One cell of the grid: empty, or holding a letter with its correctness.
#[derive(Clone, Copy, Debug, PartialEq, Eq, Structural)]
pub enum CharCellState {
    Empty,
    Filled(FilledState),
}

impl Default for CharCellState {
    fn default() -> (r: Self)
        ensures
            r == CharCellState::Empty,
    {
        Self::Empty
    }
}

/// What a cell is drawn from: its state, and whether it flips in, after how many milliseconds.
#[derive(Clone, Copy, Debug)]
pub struct CharCellProps {
    pub state: CharCellState,
    pub animate: (bool, u16),
}

/// The character in a cell (a space for an empty cell).
pub open spec fn cell_char(cell: CharCellState) -> char {
    match cell {
        CharCellState::Filled(f) => f.ch,
        CharCellState::Empty => ' ',
    }
}

/// Whether a cell holds a letter not scored yet.
pub open spec fn is_typed_letter(cell: CharCellState) -> bool {
    cell matches CharCellState::Filled(f) && f.correctness == Correctness::Guess && is_letter(f.ch)
}

/// The cell that shows one scored letter.
pub open spec fn scored_cell(entry: (char, game_model::Correctness)) -> CharCellState {
    CharCellState::Filled(FilledState { ch: entry.0, correctness: resolved(entry.1) })
}

impl CharCellProps {
    /// A cell drawn without animation.
    pub fn new(state: CharCellState) -> (r: Self)
        ensures
            r.state == state,
            r.animate == (false, 0u16),
    {
        CharCellProps { state, animate: (false, 0) }
    }
}

/// A cell of the grid, as drawn.
pub struct CharCell;

/// The class that colours a cell: white border while empty or unscored, otherwise the
/// colour of its correctness, or the flip animation into it.
pub open spec fn cell_class(state: CharCellState, animate: bool) -> &'static str {
    match state {
        CharCellState::Empty => "border-white",
        CharCellState::Filled(f) => match f.correctness {
            Correctness::Guess => "border-white",
            Correctness::Incorrect => if animate {
                "animate-card-flip-incorrect"
            } else {
                "bg-gray-400"
            },
            Correctness::IncorrectPosition => if animate {
                "animate-card-flip-position"
            } else {
                "bg-orange-400"
            },
            Correctness::Correct => if animate {
                "animate-card-flip-correct"
            } else {
                "bg-green-400"
            },
        },
    }
}

impl CharCell {
    /// The class that colours a cell in `state`, flipping in when `animate` holds.
    pub fn color_class(state: CharCellState, animate: bool) -> (r: &'static str)
        ensures
            r == cell_class(state, animate),
    {
        match state {
            CharCellState::Empty => "border-white",
            CharCellState::Filled(f) => match f.correctness {
                Correctness::Guess => "border-white",
                Correctness::Incorrect => if animate {
                    "animate-card-flip-incorrect"
                } else {
                    "bg-gray-400"
                },
                Correctness::IncorrectPosition => if animate {
                    "animate-card-flip-position"
                } else {
                    "bg-orange-400"
                },
                Correctness::Correct => if animate {
                    "animate-card-flip-correct"
                } else {
                    "bg-green-400"
                },
            },
        }
    }
}

} // verus!
