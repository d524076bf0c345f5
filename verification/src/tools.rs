//! The tool capability: what a tool advertises to the model, what a call to
//! a tool looks like, and the two shapes a tool implementation can take.

use vstd::prelude::*;

use crate::error::Error;
use crate::llm::Message;

pub mod kv_memory;
pub mod summarize_history;

pub use kv_memory::KVMemoryTool;
pub use summarize_history::SummarizeHistory;

verus! {

/// The advertisement sent to the model for one registered tool.
pub struct ToolDefinition {
    /// Unique name the model calls the tool by.
    pub name: String,
    /// Human-readable description of what the tool does.
    pub desc: String,
    /// Schema of the expected argument shape, as JSON text.
    pub params: String,
}

/// The mathematical value of a [`ToolDefinition`].
pub struct ToolDefinitionView {
    pub name: Seq<char>,
    pub desc: Seq<char>,
    pub params: Seq<char>,
}

impl View for ToolDefinition {
    type V = ToolDefinitionView;

    open spec fn view(&self) -> ToolDefinitionView {
        ToolDefinitionView { name: self.name@, desc: self.desc@, params: self.params@ }
    }
}

impl ToolDefinition {
    /// Builds an advertisement from its three parts.
    pub fn new(name: &str, desc: &str, params: &str) -> (r: Self)
        ensures
            r@.name == name@,
            r@.desc == desc@,
            r@.params == params@,
    {
        ToolDefinition { name: name.to_owned(), desc: desc.to_owned(), params: params.to_owned() }
    }
}

/// One tool invocation requested by the model.
#[derive(Clone)]
pub struct ToolCall {
    /// Opaque identifier the answering `Tool` message must carry back.
    pub id: String,
    /// Name of the tool to invoke.
    pub name: String,
    /// Raw serialized argument payload; each tool parses it lazily into its
    /// own expected shape.
    pub args: String,
}

/// The mathematical value of a [`ToolCall`].
pub struct ToolCallView {
    pub id: Seq<char>,
    pub name: Seq<char>,
    pub args: Seq<char>,
}

impl View for ToolCall {
    type V = ToolCallView;

    open spec fn view(&self) -> ToolCallView {
        ToolCallView { id: self.id@, name: self.name@, args: self.args@ }
    }
}

/// A capability with full control: invoked with the call and the whole
/// transcript, it may append to, rewrite or shrink the transcript, and may
/// have side effects outside it.
pub trait Tool {
    /// The advertisement registered for this tool.
    fn definition(&self) -> Result<ToolDefinition, Error>;

    /// Handles one call, returning the replacement transcript.
    fn invoke(&mut self, call: &ToolCall, messages: Vec<Message>) -> Result<Vec<Message>, Error>;
}

/// A pure-function capability: answers one call with one message. Adapted
/// to [`Tool`] by appending that single message to the transcript.
pub trait FunctionalTool {
    /// The advertisement registered for this tool.
    fn definition(&self) -> Result<ToolDefinition, Error>;

    /// Answers one call with a single message.
    fn invoke_fn(&mut self, call: &ToolCall) -> Result<Message, Error>;
}

impl<T: FunctionalTool> Tool for T {
    fn definition(&self) -> Result<ToolDefinition, Error> {
        FunctionalTool::definition(self)
    }

    /// Appends the single result message; everything already in the
    /// transcript is left exactly as it came in.
    fn invoke(&mut self, call: &ToolCall, messages: Vec<Message>) -> (r: Result<
        Vec<Message>,
        Error,
    >)
        ensures
            r matches Ok(out) ==> out@.len() == messages@.len() + 1 && out@.drop_last()
                == messages@,
    {
        let result = FunctionalTool::invoke_fn(self, call)?;
        let mut out = messages;
        out.push(result);
        proof {
            assert(out@.drop_last() =~= messages@);
        }
        Ok(out)
    }
}

} // verus!
