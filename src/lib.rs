//! A terminal throbber: a single glyph, redrawn in place at a fixed interval,
//! cycling through a short animation while the host program works.
//!
//! This crate holds the throbber's state and the decisions of its render loop.
//! A driver owns the terminal and the background thread: it asks the throbber
//! what to do next with [`Throbber::tick`] and carries the answer out.
use vstd::prelude::*;

pub mod frames;
pub mod laws;
pub mod throbber;

pub use throbber::{Action, Throbber};
