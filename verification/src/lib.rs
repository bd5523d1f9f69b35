//! The logical core of a square grid-game board, fully verified: exact
//! integer translation between grid cells and continuous board space, an
//! occupancy registry that keeps cells and piece records consistent under
//! placement and transfer, and the two-click selection gesture that turns
//! pointer events into move proposals. A rendering layer owns windows,
//! cameras and sprites; this crate owns every decision they draw.

pub mod board_positions;
pub mod mouse_handler;
pub mod piece;
pub mod piece_registry;
pub mod position;
pub mod sprite_index;

pub use board_positions::BoardPositions;
pub use board_positions::ScaleRatio;
pub use position::Point;
pub use position::Position;
