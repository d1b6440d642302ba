use vstd::prelude::*;

verus! {

/// Resolved outcome of one guessed letter, as the scoring side reports it.
#[derive(Clone, Copy, Debug, PartialEq, Eq, Structural)]
pub enum Correctness {
    Correct,
    IncorrectPosition,
    Incorrect,
}

/// Asks for a new game with the given answer.
#[derive(Clone, Debug)]
pub struct CreateGameRequest {
    pub answer: String,
}

/// One scored guess of a player, with the time it was made.
#[derive(Clone, Debug)]
pub struct Guess {
    pub guess: Vec<(char, Correctness)>,
    pub submit_time: u64,
}

/// The identifier of a newly created game.
#[derive(Clone, Debug)]
pub struct CreateGameResponse {
    pub game_id: String,
}

/// One player of a game and the guesses they made so far.
#[derive(Clone, Debug)]
pub struct PlayerResponse {
    pub name: String,
    pub start_time: u64,
    pub guesses: Vec<Guess>,
}

/// The state of a game as its creator sees it.
#[derive(Clone, Debug)]
pub struct ManageGameResponse {
    pub start_time: u64,
    pub players: Vec<PlayerResponse>,
    pub answer: String,
}

/// One composed guess, sent for scoring.
#[derive(Clone, Debug)]
pub struct PlayRequest {
    pub guess: Vec<char>,
}

/// The scored guess, and whether the round is over.
#[derive(Clone, Debug)]
pub struct PlayResponse {
    pub game_over: bool,
    pub guess: Vec<(char, Correctness)>,
}

/// The guesses made so far in a game, and whether the round is over.
#[derive(Clone, Debug)]
pub struct GetStateResponse {
    pub game_over: bool,
    pub guesses: Vec<Vec<(char, Correctness)>>,
}

/// A request to the game server that failed in transport or in decoding its answer.
#[derive(Clone, Debug)]
pub struct ApiError {
    pub message: String,
}

} // verus!
