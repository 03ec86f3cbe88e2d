//! A word-guessing puzzle for the terminal: the grid of letter boxes, the
//! evaluation of a guess against the secret word, the windows that interrupt
//! the grid, and the layout of the help texts.
//!
//! The library computes; drawing and key reading are left to the caller, who
//! hands in the screen size and the key codes and gets back what to draw.

pub mod geometry;
pub mod text;
pub mod layout;
pub mod help;
pub mod utils;
pub mod lb;
pub mod guess;
pub mod keys;
pub mod screen;
pub mod judge;
pub mod modal;
pub mod words;
