//! A status strip for herbstluftwm: the shared redraw state, the module
//! layout protocol and the parsers that feed them.

pub mod config;
pub mod draw;
pub mod generator;
pub mod geometry;
pub mod lifecycle;
pub mod modules;
pub mod number;
pub mod stalonetray;
pub mod state;
pub mod textbox;
pub mod utils;
