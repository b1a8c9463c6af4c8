//! Turn engine of a tile-based roguelike: a grid of tiles, actors that
//! move over it one timed action at a time, and the world that advances
//! all of them in lockstep.
//!
//! `util` and `map` hold the grid; `actor`, `player` and `world` what
//! moves on it and the turns it moves in; `description`, `log`, `ui`,
//! `menu` and `input` what the user reads and presses. `console` holds
//! the plain values that go to and come from a console, `layout` the
//! cutting of a map's layout into rows.

pub mod actor;
pub mod console;
pub mod description;
pub mod input;
pub mod layout;
pub mod log;
pub mod map;
pub mod menu;
pub mod player;
pub mod ui;
pub mod util;
pub mod world;
