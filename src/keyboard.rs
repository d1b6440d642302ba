use vstd::prelude::*;

use crate::charcell::Correctness;
use crate::hints::{letter_index, ALPHABET_LEN};

verus! {

/// A key of the on-screen keyboard: a letter, backspace or enter.
#[derive(Clone, Copy, Debug, PartialEq, Eq, Structural)]
pub enum KeyboardMsg {
    A,
    B,
    C,
    D,
    E,
    F,
    G,
    H,
    I,
    J,
    K,
    L,
    M,
    N,
    O,
    P,
    Q,
    R,
    S,
    T,
    U,
    V,
    W,
    X,
    Y,
    Z,
    Backspace,
    Enter,
}

/// The text written on a key.
pub open spec fn key_label(km: KeyboardMsg) -> &'static str {
    match km {
        KeyboardMsg::A => "A",
        KeyboardMsg::B => "B",
        KeyboardMsg::C => "C",
        KeyboardMsg::D => "D",
        KeyboardMsg::E => "E",
        KeyboardMsg::F => "F",
        KeyboardMsg::G => "G",
        KeyboardMsg::H => "H",
        KeyboardMsg::I => "I",
        KeyboardMsg::J => "J",
        KeyboardMsg::K => "K",
        KeyboardMsg::L => "L",
        KeyboardMsg::M => "M",
        KeyboardMsg::N => "N",
        KeyboardMsg::O => "O",
        KeyboardMsg::P => "P",
        KeyboardMsg::Q => "Q",
        KeyboardMsg::R => "R",
        KeyboardMsg::S => "S",
        KeyboardMsg::T => "T",
        KeyboardMsg::U => "U",
        KeyboardMsg::V => "V",
        KeyboardMsg::W => "W",
        KeyboardMsg::X => "X",
        KeyboardMsg::Y => "Y",
        KeyboardMsg::Z => "Z",
        KeyboardMsg::Backspace => "\u{232b}",
        KeyboardMsg::Enter => "Enter",
    }
}

/// The letter that a key types, if it is a letter key.
pub open spec fn key_letter(km: KeyboardMsg) -> Option<char> {
    match km {
        KeyboardMsg::A => Some('A'),
        KeyboardMsg::B => Some('B'),
        KeyboardMsg::C => Some('C'),
        KeyboardMsg::D => Some('D'),
        KeyboardMsg::E => Some('E'),
        KeyboardMsg::F => Some('F'),
        KeyboardMsg::G => Some('G'),
        KeyboardMsg::H => Some('H'),
        KeyboardMsg::I => Some('I'),
        KeyboardMsg::J => Some('J'),
        KeyboardMsg::K => Some('K'),
        KeyboardMsg::L => Some('L'),
        KeyboardMsg::M => Some('M'),
        KeyboardMsg::N => Some('N'),
        KeyboardMsg::O => Some('O'),
        KeyboardMsg::P => Some('P'),
        KeyboardMsg::Q => Some('Q'),
        KeyboardMsg::R => Some('R'),
        KeyboardMsg::S => Some('S'),
        KeyboardMsg::T => Some('T'),
        KeyboardMsg::U => Some('U'),
        KeyboardMsg::V => Some('V'),
        KeyboardMsg::W => Some('W'),
        KeyboardMsg::X => Some('X'),
        KeyboardMsg::Y => Some('Y'),
        KeyboardMsg::Z => Some('Z'),
        _ => None,
    }
}

impl From<KeyboardMsg> for &'static str {
    fn from(km: KeyboardMsg) -> (r: &'static str)
        ensures
            r == key_label(km),
    {
        match km {
        KeyboardMsg::A => "A",
        KeyboardMsg::B => "B",
        KeyboardMsg::C => "C",
        KeyboardMsg::D => "D",
        KeyboardMsg::E => "E",
        KeyboardMsg::F => "F",
        KeyboardMsg::G => "G",
        KeyboardMsg::H => "H",
        KeyboardMsg::I => "I",
        KeyboardMsg::J => "J",
        KeyboardMsg::K => "K",
        KeyboardMsg::L => "L",
        KeyboardMsg::M => "M",
        KeyboardMsg::N => "N",
        KeyboardMsg::O => "O",
        KeyboardMsg::P => "P",
        KeyboardMsg::Q => "Q",
        KeyboardMsg::R => "R",
        KeyboardMsg::S => "S",
        KeyboardMsg::T => "T",
        KeyboardMsg::U => "U",
        KeyboardMsg::V => "V",
        KeyboardMsg::W => "W",
        KeyboardMsg::X => "X",
        KeyboardMsg::Y => "Y",
        KeyboardMsg::Z => "Z",
            KeyboardMsg::Backspace => "\u{232b}",
            KeyboardMsg::Enter => "Enter",
        }
    }
}

impl vstd::std_specs::convert::FromSpecImpl<KeyboardMsg> for &'static str {
    open spec fn obeys_from_spec() -> bool {
        true
    }

    open spec fn from_spec(km: KeyboardMsg) -> Self {
        key_label(km)
    }
}

impl KeyboardMsg {
    /// The letter this key types, or `None` for backspace and enter.
    pub fn letter(self) -> (r: Option<char>)
        ensures
            r == key_letter(self),
    {
        match self {
            KeyboardMsg::A => Some('A'),
            KeyboardMsg::B => Some('B'),
            KeyboardMsg::C => Some('C'),
            KeyboardMsg::D => Some('D'),
            KeyboardMsg::E => Some('E'),
            KeyboardMsg::F => Some('F'),
            KeyboardMsg::G => Some('G'),
            KeyboardMsg::H => Some('H'),
            KeyboardMsg::I => Some('I'),
            KeyboardMsg::J => Some('J'),
            KeyboardMsg::K => Some('K'),
            KeyboardMsg::L => Some('L'),
            KeyboardMsg::M => Some('M'),
            KeyboardMsg::N => Some('N'),
            KeyboardMsg::O => Some('O'),
            KeyboardMsg::P => Some('P'),
            KeyboardMsg::Q => Some('Q'),
            KeyboardMsg::R => Some('R'),
            KeyboardMsg::S => Some('S'),
            KeyboardMsg::T => Some('T'),
            KeyboardMsg::U => Some('U'),
            KeyboardMsg::V => Some('V'),
            KeyboardMsg::W => Some('W'),
            KeyboardMsg::X => Some('X'),
            KeyboardMsg::Y => Some('Y'),
            KeyboardMsg::Z => Some('Z'),
            _ => None,
        }
    }
}

/// The upper-case form of an ASCII letter; any other character as it is.
pub open spec fn ascii_upper(ch: char) -> char {
    if 'a' <= ch <= 'z' {
        ((ch as u32) - 32) as char
    } else {
        ch
    }
}

impl KeyboardMsg {
    /// The key that types letter `ch`, in either case; `None` for any other character.
    pub fn from_letter(ch: char) -> (r: Option<KeyboardMsg>)
        ensures
            r is Some <==> ('A' <= ch <= 'Z' || 'a' <= ch <= 'z'),
            r matches Some(k) ==> key_letter(k) == Some(ascii_upper(ch)),
    {
        match ch {
            'A' | 'a' => Some(KeyboardMsg::A),
            'B' | 'b' => Some(KeyboardMsg::B),
            'C' | 'c' => Some(KeyboardMsg::C),
            'D' | 'd' => Some(KeyboardMsg::D),
            'E' | 'e' => Some(KeyboardMsg::E),
            'F' | 'f' => Some(KeyboardMsg::F),
            'G' | 'g' => Some(KeyboardMsg::G),
            'H' | 'h' => Some(KeyboardMsg::H),
            'I' | 'i' => Some(KeyboardMsg::I),
            'J' | 'j' => Some(KeyboardMsg::J),
            'K' | 'k' => Some(KeyboardMsg::K),
            'L' | 'l' => Some(KeyboardMsg::L),
            'M' | 'm' => Some(KeyboardMsg::M),
            'N' | 'n' => Some(KeyboardMsg::N),
            'O' | 'o' => Some(KeyboardMsg::O),
            'P' | 'p' => Some(KeyboardMsg::P),
            'Q' | 'q' => Some(KeyboardMsg::Q),
            'R' | 'r' => Some(KeyboardMsg::R),
            'S' | 's' => Some(KeyboardMsg::S),
            'T' | 't' => Some(KeyboardMsg::T),
            'U' | 'u' => Some(KeyboardMsg::U),
            'V' | 'v' => Some(KeyboardMsg::V),
            'W' | 'w' => Some(KeyboardMsg::W),
            'X' | 'x' => Some(KeyboardMsg::X),
            'Y' | 'y' => Some(KeyboardMsg::Y),
            'Z' | 'z' => Some(KeyboardMsg::Z),
            _ => None,
        }
    }
}

/// The on-screen keyboard.
pub struct Keyboard;

/// The hint shown on a key: the letter's hint, and `Guess` for backspace and enter.
pub open spec fn key_hint(map: Seq<Correctness>, km: KeyboardMsg) -> Correctness {
    match key_letter(km) {
        Some(ch) => map[letter_index(ch)],
        None => Correctness::Guess,
    }
}

/// The class that colours a key's border by its hint.
pub open spec fn hint_class(state: Correctness) -> &'static str {
    match state {
        Correctness::Guess => "border-white",
        Correctness::Correct => "border-green-500",
        Correctness::IncorrectPosition => "border-orange-400",
        Correctness::Incorrect => "border-gray-500",
    }
}

impl Keyboard {
    /// The hint of key `km` in the hint map `map`.
    pub fn hint_for(map: &Vec<Correctness>, km: KeyboardMsg) -> (r: Correctness)
        requires
            map@.len() == ALPHABET_LEN,
        ensures
            r == key_hint(map@, km),
    {
        match km.letter() {
            Some(ch) => map[(ch as u32 - 'A' as u32) as usize],
            None => Correctness::Guess,
        }
    }

    /// The class that colours a key's border by its hint.
    pub fn border_class(state: Correctness) -> (r: &'static str)
        ensures
            r == hint_class(state),
    {
        match state {
            Correctness::Guess => "border-white",
            Correctness::Correct => "border-green-500",
            Correctness::IncorrectPosition => "border-orange-400",
            Correctness::Incorrect => "border-gray-500",
        }
    }

    /// The keys, row by row, as laid out on screen.
    pub fn rows() -> (r: Vec<Vec<KeyboardMsg>>)
        ensures
            r@.len() == 3,
            r@[0]@ == seq![
                KeyboardMsg::Q, KeyboardMsg::W, KeyboardMsg::E, KeyboardMsg::R, KeyboardMsg::T,
                KeyboardMsg::Y, KeyboardMsg::U, KeyboardMsg::I, KeyboardMsg::O, KeyboardMsg::P,
            ],
            r@[1]@ == seq![
                KeyboardMsg::A, KeyboardMsg::S, KeyboardMsg::D, KeyboardMsg::F, KeyboardMsg::G,
                KeyboardMsg::H, KeyboardMsg::J, KeyboardMsg::K, KeyboardMsg::L,
            ],
            r@[2]@ == seq![
                KeyboardMsg::Enter, KeyboardMsg::Z, KeyboardMsg::X, KeyboardMsg::C, KeyboardMsg::V,
                KeyboardMsg::B, KeyboardMsg::N, KeyboardMsg::M, KeyboardMsg::Backspace,
            ],
    {
        let top = vec![
            KeyboardMsg::Q, KeyboardMsg::W, KeyboardMsg::E, KeyboardMsg::R, KeyboardMsg::T,
            KeyboardMsg::Y, KeyboardMsg::U, KeyboardMsg::I, KeyboardMsg::O, KeyboardMsg::P,
        ];
        let middle = vec![
            KeyboardMsg::A, KeyboardMsg::S, KeyboardMsg::D, KeyboardMsg::F, KeyboardMsg::G,
            KeyboardMsg::H, KeyboardMsg::J, KeyboardMsg::K, KeyboardMsg::L,
        ];
        let bottom = vec![
            KeyboardMsg::Enter, KeyboardMsg::Z, KeyboardMsg::X, KeyboardMsg::C, KeyboardMsg::V,
            KeyboardMsg::B, KeyboardMsg::N, KeyboardMsg::M, KeyboardMsg::Backspace,
        ];
        let r = vec![top, middle, bottom];
        r
    }
}

} // verus!
