//! The error taxonomy of the agent core.

use vstd::prelude::*;

verus! {

/// Everything that can abort an agent run or the construction of an agent.
///
/// Nothing in the core retries: every error aborts the current run and is
/// returned to the caller.
#[derive(Debug, Clone, PartialEq, Eq)]
pub enum Error {
    /// A tool argument payload could not be read as the expected shape.
    JsonError(String),
    /// The backend broke the completion contract (no choices, wrong role,
    /// missing content).
    LLMResponseError(String),
    /// The model requested a tool that is not registered.
    ToolDoesNotExist(String),
    /// An agent was built without a required part, or with two tools that
    /// share a name.
    MissingArg(String),
    /// Joining a sub-agent task failed.
    TaskJoinError(String),
    /// A structural expectation about message sequencing was violated.
    AgentWorkflowError(String),
    /// An input/output failure reported by a sink or the process around us.
    IOError(String),
}

impl Error {
    /// A human-readable description, used by callers that report the error.
    pub fn describe(&self) -> (r: String)
        ensures
            r@ == self.spec_describe(),
    {
        match self {
            Error::JsonError(m) => concat_str("Json error: ", m),
            Error::LLMResponseError(m) => concat_str("No response from llm: ", m),
            Error::ToolDoesNotExist(m) => concat_tool_missing(m),
            Error::MissingArg(m) => concat_str("Missing arg: ", m),
            Error::TaskJoinError(m) => concat_str("Task join error: ", m),
            Error::AgentWorkflowError(m) => concat_str("Agent workflow error: ", m),
            Error::IOError(m) => concat_str("IO Error: ", m),
        }
    }

    /// The text `describe` returns.
    pub open spec fn spec_describe(&self) -> Seq<char> {
        match self {
            Error::JsonError(m) => "Json error: "@ + m@,
            Error::LLMResponseError(m) => "No response from llm: "@ + m@,
            Error::ToolDoesNotExist(m) => "Tool "@ + m@ + " does not exist"@,
            Error::MissingArg(m) => "Missing arg: "@ + m@,
            Error::TaskJoinError(m) => "Task join error: "@ + m@,
            Error::AgentWorkflowError(m) => "Agent workflow error: "@ + m@,
            Error::IOError(m) => "IO Error: "@ + m@,
        }
    }
}

/// `prefix` followed by `suffix`, as one owned string.
fn concat_str(prefix: &str, suffix: &String) -> (r: String)
    ensures
        r@ == prefix@ + suffix@,
{
    let mut r = prefix.to_owned();
    r.append(suffix.as_str());
    r
}

fn concat_tool_missing(name: &String) -> (r: String)
    ensures
        r@ == "Tool "@ + name@ + " does not exist"@,
{
    let mut r = "Tool ".to_owned();
    r.append(name.as_str());
    r.append(" does not exist");
    r
}

} // verus!
