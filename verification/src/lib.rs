//! A two-player, turn-based tactics match on a fixed sixteen-by-sixteen board.
//!
//! Each player steers one character. A turn has two phases: in the movement
//! phase the character spends its movement budget walking between tiles, in the
//! targeting phase it positions a selector over the board; confirming the
//! target ends the turn and hands control to the other player.
//!
//! Every executable function carries a contract over a mathematical model of
//! the match ([`GameModel`]), and the rules of play are stated once, as the
//! pure transition function [`GameModel::step`]. What holds of every match
//! is proved in [`laws`].
//!
//! Drawing and keyboard capture are left to the program around the library:
//! it feeds one [`Input`] at a time to [`GameState::key_down_event`] and
//! reads the board, the characters and the selector back. [`render`] says
//! where on a canvas they belong.
//!
//! The module [`console`] holds a smaller skirmish of its own for the text
//! console.

pub mod character;
pub mod console;
pub mod direction;
pub mod game;
pub mod grid;
pub mod laws;
pub mod layout;
pub mod model;
pub mod render;
pub mod tile;
pub mod tile_map;

pub use character::{Character, Status};
pub use direction::{Direction, Input};
pub use game::GameState;
pub use grid::{GridError, GridPosition, Selector, GRID_CELLS, GRID_X, GRID_Y};
pub use layout::ARENA;
pub use model::{Action, GameModel};
pub use render::{Pixel, PixelRect, RES_X, RES_Y};
pub use tile::{Tile, TileState, NB_CHAR, UNOCCUPIED};
pub use tile_map::TileMap;
