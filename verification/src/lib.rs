//! An orchestration core for tool-augmented conversational agents.
//!
//! An agent keeps a growing transcript of typed messages, repeatedly asks a
//! language-model backend for the next step, executes any tool calls the
//! model requested, lets a chain of callbacks rewrite the transcript, and
//! stops when a caller-supplied predicate says the task is done.

pub mod agent;
pub mod callbacks;
pub mod error;
pub mod jsonargs;
pub mod llm;
pub mod research;
pub mod text;
pub mod tools;

pub use agent::{Agent, AgentBuilder, StopCondition};
pub use error::Error;
