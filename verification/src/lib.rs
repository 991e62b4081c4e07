//! Rules engine for ultimate tic-tac-toe: nine small boards arranged on a
//! master board. Winning a small board claims its cell of the master board,
//! and a line on the master board wins the game.

pub mod error;
pub mod inner_board;
pub mod laws;
pub mod lines;
pub mod marking;
pub mod outer_board;
pub mod position;
pub mod render;
pub mod session;
pub mod text;

pub use crate::error::PlacementError;
pub use crate::inner_board::{BoardView, InnerBoard};
pub use crate::marking::Marking;
pub use crate::outer_board::{GameView, OuterBoard, Outcome};
pub use crate::position::{get_position, NumberError, PositionError};
pub use crate::session::{Reply, Session, SessionView};
