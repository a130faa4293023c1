//! Interactive value prompting, as a verified engine.
//!
//! A prompt shows a message, reads one line from a line source, coerces the
//! text into a typed value, and asks again with the identical message whenever
//! the text is rejected. This crate holds the decisions of that loop and the
//! coercion rules for each promptable type; the terminal itself is left to the
//! caller.
//!
//! There are two ways in. A caller that owns a terminal reads a line, hands it
//! to [`required_step`], [`optional_step`] or [`then_step`], and does what the
//! [`Step`] says. A caller that has the answers in advance puts them into a
//! [`Prompter`] and calls [`prompt`], [`prompt_opt`] or [`prompt_default`],
//! which run the loop to its end and leave a transcript of every prompt shown
//! and every diagnostic printed.
//!
//! - `line`: what a line source hands back, and the policy for failed reads.
//! - `text`: trimming and case folding.
//! - `engine`: the retry loop as a function of the verdicts on each answer.
//! - `prompter`: the scripted line source and the one loop that retries.
//! - `promptable`: the trait of promptable types, and the typed prompts.
//! - `coerce`, `decimal`, `numbers`, `nonzero`, `path`, `web`: the coercion
//!   rules.
//! - `laws`: what holds of every prompt, proved.

pub mod coerce;
pub mod decimal;
pub mod engine;
pub mod laws;
pub mod line;
pub mod nonzero;
pub mod numbers;
pub mod path;
pub mod promptable;
pub mod prompter;
pub mod text;
pub mod web;

pub use crate::line::{
    on_failure, Environment, FailureAction, FailurePolicy, LineResult, ReadFailure,
};
pub use crate::nonzero::{Integer, NonZeroInt};
pub use crate::path::{path_expand, PathText};
pub use crate::promptable::{
    decorate, optional_step, optional_step_with, prompt, prompt_default, prompt_opt,
    required_step, required_step_with, then_step, Completion, Promptable, Step,
};
pub use crate::prompter::{render, Prompter};
pub use crate::text::trim;
pub use crate::web::UrlText;
