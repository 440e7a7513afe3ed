//! A presentation-oriented error value for a command-line tool: an ordered
//! chain of context messages (root cause first), or an "ignored" sentinel
//! that propagates like any failure but is never shown.

pub mod decimal;
pub mod convert;
pub mod error;
pub mod laws;
mod outside;

pub use error::{details, message_of, render, Error, Result};
