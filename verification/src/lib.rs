//! Session logic of a terminal vocabulary trainer.
//!
//! The crate holds the state machines behind the two tabs of the interface
//! (browsing the dictionary, running a timed learn session), together with the
//! small computations that surround them. Terminal, keyboard, files and the
//! network stay with the program that uses the crate.

pub mod args;
pub mod background_mode;
pub mod draw;
pub mod event;
pub mod loader;
mod random;
pub mod search_video;
pub mod selection;
pub mod text;
pub mod tui_mode;
