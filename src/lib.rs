//! A rules engine for standard chess: board state, legal destinations for
//! each piece, move application, and check, checkmate and stalemate.

pub mod board;
pub mod piece;
pub mod pin;
pub mod types;
pub mod utils;
