//! The decisions of the research orchestrator: the terminal-tool stop
//! predicate, the completion tool, the bookkeeping of spawning and joining
//! sub-agents, and the reading of a finished run's transcript.
//!
//! Spawning and joining child tasks is the surrounding program's work; it
//! runs every decision through the functions here, handing them plain
//! values (the tool call, the join outcome) and acting on what they return.

use vstd::prelude::*;

use crate::agent::StopCondition;
use crate::error::Error;
use crate::jsonargs::{json_field, json_string, parse_string_arg, parse_string_field};
use crate::llm::{Message, MessageView};
use crate::text::{spec_dec, u64_to_string};
use crate::tools::{FunctionalTool, ToolCall, ToolDefinition};

verus! {

/// The result text of the transcript's last message, when that message
/// answers the terminal `complete_task` tool; nothing otherwise.
pub open spec fn spec_terminal_result(t: Seq<Message>) -> Option<Seq<char>> {
    if t.len() > 0 {
        match t.last()@ {
            MessageView::Tool { name, result, .. } => if name == "complete_task"@ {
                Some(result)
            } else {
                None
            },
            _ => None,
        }
    } else {
        None
    }
}

/// Stops an agent once its transcript ends with an answer of the terminal
/// `complete_task` tool: completion must be called explicitly.
pub struct TaskCompleted;

impl StopCondition for TaskCompleted {
    open spec fn spec_done(&self, transcript: Seq<Message>) -> bool {
        spec_terminal_result(transcript) is Some
    }

    fn done(&self, transcript: &Vec<Message>) -> (r: bool)
        ensures
            r == self.spec_done(transcript@),
    {
        let n = transcript.len();
        if n == 0 {
            return false;
        }
        match &transcript[n - 1] {
            Message::Tool { name, .. } => name.eq(&"complete_task".to_owned()),
            _ => false,
        }
    }
}

/// The tool an agent must call to mark its task complete; its argument is
/// one JSON string, the task's result.
pub struct CompleteTask;

impl FunctionalTool for CompleteTask {
    fn definition(&self) -> (r: Result<ToolDefinition, Error>)
        ensures
            r matches Ok(d) ==> d@.name == "complete_task"@,
            r is Ok,
    {
        Ok(
            ToolDefinition::new(
                "complete_task",
                "This tool will mark your task as complete and return the result. You must use this tool when you have completed your task.",
                "{\"type\":\"string\"}",
            ),
        )
    }

    /// Echoes the result the model handed over as the terminal tool answer;
    /// an argument that is not one JSON string is the per-call `JsonError`.
    fn invoke_fn(&mut self, call: &ToolCall) -> (r: Result<Message, Error>)
        ensures
            json_string(call.args@) is None ==> (r matches Err(e) && e
                matches Error::JsonError(_)),
            json_string(call.args@) matches Some(res) ==> (r matches Ok(m) && (m@
                matches MessageView::Tool { id, name, result } && id == call.id@ && name
                == "complete_task"@ && result == res)),
    {
        match parse_string_arg(call.args.as_str()) {
            None => Err(Error::JsonError("expected a string result".to_owned())),
            Some(result) => Ok(
                Message::Tool { id: call.id.clone(), name: "complete_task".to_owned(), result },
            ),
        }
    }
}

/// Everything the spawn of one sub-agent is decided by: the child's
/// generated name, the task text seeding it, the immediate acknowledgement
/// for the parent's transcript, and the advanced counter.
pub struct SubAgentStart {
    pub name: String,
    pub task_desc: String,
    pub ack: Message,
    pub next_id: u32,
}

/// Decides one `start_subagent` call: reads the task description, names the
/// child `subagent_{id}` — ids grow by one per spawn, so names are unique
/// and monotone — and acknowledges at once, never waiting for the child.
pub fn start_subagent_step(call: &ToolCall, subagent_id: u32) -> (r: Result<SubAgentStart, Error>)
    requires
        subagent_id < 0xffffffffu32,
    ensures
        json_field(call.args@, "task_desc"@) is None ==> (r matches Err(e) && e
            matches Error::JsonError(_)),
        json_field(call.args@, "task_desc"@) matches Some(task) ==> (r matches Ok(p) && {
            &&& p.name@ == "subagent_"@ + spec_dec(subagent_id as nat)
            &&& p.task_desc@ == task
            &&& p.next_id == subagent_id + 1
            &&& (p.ack@ matches MessageView::Tool { id, name, result } && id == call.id@ && name
                == "start_subagent"@ && result == "Research sub-agent started for task: "@ + task)
        }),
{
    match parse_string_field(call.args.as_str(), "task_desc") {
        None => Err(Error::JsonError("expected a task_desc argument".to_owned())),
        Some(task_desc) => {
            let mut name = "subagent_".to_owned();
            name.append(u64_to_string(subagent_id as u64).as_str());
            let mut result = "Research sub-agent started for task: ".to_owned();
            result.append(task_desc.as_str());
            let ack = Message::Tool {
                id: call.id.clone(),
                name: "start_subagent".to_owned(),
                result,
            };
            Ok(SubAgentStart { name, task_desc, ack, next_id: subagent_id + 1 })
        },
    }
}

/// Decides one `wait_for_subagent` call from what the join produced.
/// Nothing outstanding is answered with an informational message, never by
/// blocking. A failed child surfaces its error. A finished child must have
/// ended by answering the terminal tool: its result is passed on; anything
/// else is the fatal workflow error.
pub fn wait_for_subagent_step(call: &ToolCall, outcome: Option<Result<Vec<Message>, Error>>) -> (r:
    Result<Message, Error>)
    ensures
        outcome is None ==> (r matches Ok(m) && (m@ matches MessageView::Tool { id, name, result }
            && id == call.id@ && name == "wait_for_subagent"@ && result
            == "no sub-agents are currently active, create a new sub-agent to wait for a task"@)),
        outcome matches Some(Err(e)) ==> r == Err::<Message, Error>(e),
        outcome matches Some(Ok(t)) ==> (match spec_terminal_result(t@) {
            Some(res) => r matches Ok(m) && (m@ matches MessageView::Tool { id, name, result }
                && id == call.id@ && name == "wait_for_subagent"@ && result == res),
            None => r matches Err(e) && e matches Error::AgentWorkflowError(_),
        }),
{
    match outcome {
        None => Ok(
            Message::Tool {
                id: call.id.clone(),
                name: "wait_for_subagent".to_owned(),
                result:
                    "no sub-agents are currently active, create a new sub-agent to wait for a task".to_owned(),
            },
        ),
        Some(Err(e)) => Err(e),
        Some(Ok(transcript)) => {
            let mut transcript = transcript;
            match transcript.pop() {
                Some(Message::Tool { name, result, .. }) => {
                    if name.eq(&"complete_task".to_owned()) {
                        Ok(
                            Message::Tool {
                                id: call.id.clone(),
                                name: "wait_for_subagent".to_owned(),
                                result,
                            },
                        )
                    } else {
                        Err(
                            Error::AgentWorkflowError(
                                "sub agent terminated without correct tool call".to_owned(),
                            ),
                        )
                    }
                },
                _ => Err(
                    Error::AgentWorkflowError(
                        "sub agent terminated without correct tool call".to_owned(),
                    ),
                ),
            }
        },
    }
}

/// The advertisement of the sub-agent spawning tool.
pub fn start_subagent_definition() -> (r: ToolDefinition)
    ensures
        r@.name == "start_subagent"@,
{
    ToolDefinition::new(
        "start_subagent",
        "This tool allows you to create a research sub-agent to investigate a specific research task. You must use this tool to delegate parts of your research task to sub-agents. Make sure to provide clear instructions to the sub-agent as to what it should research.",
        "{\"type\":\"object\",\"properties\":{\"task_desc\":{\"type\":\"string\"}},\"required\":[\"task_desc\"]}",
    )
}

/// The advertisement of the sub-agent joining tool.
pub fn wait_for_subagent_definition() -> (r: ToolDefinition)
    ensures
        r@.name == "wait_for_subagent"@,
{
    ToolDefinition::new(
        "wait_for_subagent",
        "This tool will wait for any of the active sub-agents to complete, and return the result they provide for their completed task.",
        "{\"type\":\"null\"}",
    )
}

/// Reads a finished run's transcript: the terminal tool's result text when
/// the run ended as required, the fatal workflow error otherwise.
pub fn finish_run(history: Vec<Message>) -> (r: Result<String, Error>)
    ensures
        history@.len() == 0 ==> (r matches Err(e) && e matches Error::AgentWorkflowError(m) && m@
            == "message history empty"@),
        history@.len() > 0 ==> (match spec_terminal_result(history@) {
            Some(res) => r matches Ok(text) && text@ == res,
            None => r matches Err(e) && e matches Error::AgentWorkflowError(_),
        }),
{
    let mut history = history;
    match history.pop() {
        Some(Message::Tool { name, result, .. }) => {
            if name.eq(&"complete_task".to_owned()) {
                Ok(result)
            } else {
                let mut msg =
                    "expected final message to be complete_task tool call not ".to_owned();
                msg.append(name.as_str());
                msg.append(" tool call");
                Err(Error::AgentWorkflowError(msg))
            }
        },
        Some(_) => Err(
            Error::AgentWorkflowError("expected final message to be complete_task tool call".to_owned()),
        ),
        None => Err(Error::AgentWorkflowError("message history empty".to_owned())),
    }
}

} // verus!
