pub mod board;
pub mod errors;
pub mod fen;
pub mod game;
pub mod input;
pub mod laws;
pub mod ruleengine;
pub mod stockfish;
pub mod types;
