//! Rules engine for a two-player chess board: squares, pieces, the board,
//! move legality by piece geometry, and a linear undo/redo history.
//!
//! [`Game`] is the entry point. It owns a [`Board`], knows whose turn it
//! is, accepts or refuses moves between two [`Position`]s, and keeps the
//! log of [`MoveRecord`]s that undo and redo walk along. A [`Session`]
//! drives a game from pointer and key events. The modules
//! `rules` and `model` hold the mathematical definitions that the
//! contracts speak of, and `laws` holds what is proved of them.

pub mod board;
pub mod error;
pub mod game;
pub mod laws;
pub mod model;
pub mod move_record;
pub mod piece;
pub mod position;
pub mod rules;
pub mod session;

pub use board::{Board, BoardState};
pub use error::MoveError;
pub use game::Game;
pub use move_record::MoveRecord;
pub use piece::{Color, Piece, PieceType};
pub use position::Position;
pub use session::{Feedback, InputEvent, Session};
