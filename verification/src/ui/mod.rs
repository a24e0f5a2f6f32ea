//! User-interface texts and choices.
pub mod display;
pub mod interactive;
pub mod progress;
pub mod theme;
pub mod screen;
