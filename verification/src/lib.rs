//! Decision logic of a local print bridge: request admission, print dispatch
//! and printer discovery, with machine-checked contracts.

pub mod api;
pub mod codec;
pub mod config;
pub mod directory;
pub mod error;
pub mod gui;
pub mod logging;
pub mod pattern;
pub mod printer;
pub mod random;
pub mod rate;
pub mod text;
