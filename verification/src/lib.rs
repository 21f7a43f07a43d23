//! A terminal word-guessing game: the player has unlimited attempts to guess
//! a fixed five-letter word, receiving per-letter colour-coded feedback after
//! each guess.
//!
//! The crate is split into four parts:
//! - [`evaluate`]: the pure guess-scoring algorithm;
//! - [`input`]: trimming, validation and case-normalisation of a typed line;
//! - [`render`]: the ANSI escape sequences and coloured rows, built as bytes;
//! - [`session`]: the game's state machine, which turns each input line into
//!   the exact bytes to print and the next state.
//!
//! All terminal I/O lives outside this crate: callers read lines, hand them to
//! a [`session::Session`], and write the returned bytes to the terminal.

pub mod evaluate;
pub mod input;
pub mod render;
pub mod session;
