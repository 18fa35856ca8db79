//! The rules of a mine-clearing puzzle on a rectangular grid: placing mines,
//! starting play, opening and flagging cells, detecting a win or a loss, and
//! counting the mines around a cell. Every operation is verified against an
//! abstract model of the game, `GameState`.

pub mod error;
pub mod game;
pub mod laws;
pub mod model;
pub mod position;
pub mod status;

pub use error::GameError;
pub use game::Game;
pub use model::GameState;
pub use position::Position;
pub use status::Status;
