//! Post-processing callbacks: transcript transforms that run once per loop
//! iteration, after tool dispatch, in registration order.

use vstd::prelude::*;

use crate::error::Error;
use crate::llm::Message;

pub mod logger;

pub use logger::MessageLogger;

verus! {

/// A transcript transform run after each model turn. Each callback receives
/// the transcript and returns a (possibly transformed) transcript; callbacks
/// run strictly in registration order, each seeing the previous one's
/// output.
pub trait Callback {
    /// Transforms the transcript once.
    fn call(&mut self, messages: Vec<Message>) -> Result<Vec<Message>, Error>;
}

} // verus!
