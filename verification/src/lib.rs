//! Timing decisions for speedruns of Sonic & All-Stars Racing Transformed,
//! derived from samples of the game's memory.
//!
//! The library neither reads the game nor drives the timer. Its user does
//! both, and the library says what to read and what to do:
//!
//! - `locator` leads the search for the game's variables, once per
//!   attachment to the game;
//! - `layout` says where each sample lies, `sampler` takes what was read
//!   into the debounced state of `watchers`, and `timing` adds the in-game
//!   time up;
//! - `decision` answers whether to start, split or reset the timer and what
//!   game time to show, and `driver` puts the answers in order.

pub mod classify;
pub mod decision;
pub mod driver;
pub mod game_time;
pub mod layout;
pub mod locator;
pub mod pair;
pub mod sampler;
pub mod segment;
pub mod settings;
pub mod timer;
pub mod timing;
pub mod watchers;
