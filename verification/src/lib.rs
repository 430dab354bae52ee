//! A single-line text prompt with command history.
//!
//! The prompt holds an in-progress line with a cursor, the lines committed so
//! far together with the value computed from each, and a pointer into that
//! history for browsing. Every key press is one total state transition.
//!
//! - `prompt`: the prompt and its key handler.
//! - `state`: the prompt as a mathematical value, which the contracts of
//!   `prompt` speak of.
//! - `laws`: what is proved of every prompt.
//! - `bounds`: the saturating arithmetic behind every move.
//! - `rope`: what is taken on trust of the `ropey` crate.
//! - `events`: keys, mouse reports and the events made of them.

pub mod bounds;
pub mod events;
pub mod laws;
pub mod prompt;
pub mod rope;
pub mod state;
