//! Core of a terminal word-guessing game: a player has a fixed number of
//! attempts to guess a hidden word, receiving per-letter feedback after each
//! guess. Some letter cells may be pre-revealed ("masked") and are exempt
//! from evaluation. The engine here is pure state-machine logic; any
//! rendering layer consumes the snapshot it exposes.

pub mod engine;
pub mod keyboard;
pub mod laws;
pub mod mask;
pub mod row;
pub mod state;
pub mod text;
