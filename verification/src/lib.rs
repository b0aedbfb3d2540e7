//! Core of a bridge that runs the Gemini command-line agent as a child
//! process and condenses its streamed JSON events into one outcome.
//!
//! The crate neither starts a process nor reads a stream. Its
//! [`Invocation`] decides what is to happen next, from the check of the
//! working directory to the reaping of the process; a driver performs each
//! action and reports what it observed. What the stream held is folded by a
//! [`Dispatcher`] and turned into a [`GeminiResult`] by [`outcome::classify`].

pub mod args;
pub mod backlog;
pub mod dispatcher;
pub mod error;
pub mod escape;
pub mod event;
pub mod invocation;
pub mod json;
pub mod outcome;
pub mod resolver;
pub mod text;
pub mod tool;

pub use args::build_args;
pub use backlog::ErrorBacklog;
pub use dispatcher::Dispatcher;
pub use error::GeminiError;
pub use escape::windows_escape;
pub use event::{is_turn_completed, GeminiEvent};
pub use invocation::{Action, Invocation, Observation, Request};
pub use outcome::{classify, GeminiResult};
pub use resolver::find_gemini_executable;
pub use tool::GeminiToolInput;
