//! A one-screen demo: a background picture with a greeting drawn over it.
//!
//! The library decides what every frame holds and when the program leaves.
//! A driver owns the window, loads the assets, polls the keyboard and carries
//! out the draw calls that the library hands back.

pub mod app;
pub mod render;
pub mod screen;
