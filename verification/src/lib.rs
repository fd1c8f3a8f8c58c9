//! Board-state core of a chess engine: the position model, decoding of FEN
//! text, unchecked move application, and the ordered queue of control
//! messages that the command reader hands to the search worker.

pub mod color;
pub mod piece;
pub mod position;
pub mod engine_thread_manager;
pub mod fen;
pub mod laws;
pub mod protocol;
