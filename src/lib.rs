//! Word-guessing game: guess scoring, keyboard hints and the session state machine,
//! with the small state machines of the screens around it.
pub mod answer_input;
pub mod charcell;
pub mod evaluator;
pub mod game_model;
pub mod hints;
pub mod keyboard;
pub mod leaderboard;
pub mod menu;
pub mod register;
pub mod routes;
pub mod snackbar;
mod strings;
pub mod user_model;
pub mod wordle;
