//! Messages, transcripts, and the completion contract with the model
//! backend.

use vstd::prelude::*;

use crate::error::Error;
use crate::text::{
    count_words, fnv_step, fnv_step_exec, hash_field, hash_field_exec, word_count, FNV_OFFSET,
};
use crate::tools::{ToolCall, ToolCallView, ToolDefinition};

verus! {

/// One entry of a transcript. Immutable once created; a transcript is a
/// sequence of messages in conversational order.
#[derive(Clone)]
pub enum Message {
    /// Text supplied by the user (or by a parent agent seeding a child).
    User(String),
    /// One model turn: assistant text plus the tool calls it requested, in
    /// the order it requested them.
    Assistant(String, Vec<ToolCall>),
    /// Task framing supplied by the caller.
    System(String),
    /// The answer to one tool call.
    Tool { id: String, name: String, result: String },
}

/// The mathematical value of a [`Message`].
pub enum MessageView {
    User(Seq<char>),
    Assistant(Seq<char>, Seq<ToolCallView>),
    System(Seq<char>),
    Tool { id: Seq<char>, name: Seq<char>, result: Seq<char> },
}

impl View for Message {
    type V = MessageView;

    open spec fn view(&self) -> MessageView {
        match self {
            Message::User(text) => MessageView::User(text@),
            Message::Assistant(text, calls) => MessageView::Assistant(
                text@,
                calls@.map_values(|c: ToolCall| c@),
            ),
            Message::System(text) => MessageView::System(text@),
            Message::Tool { id, name, result } => MessageView::Tool {
                id: id@,
                name: name@,
                result: result@,
            },
        }
    }
}

/// The views of a whole transcript.
pub open spec fn transcript_view(t: Seq<Message>) -> Seq<MessageView> {
    t.map_values(|m: Message| m@)
}

impl MessageView {
    /// The one text payload of the message: its content, or a tool call's
    /// result.
    pub open spec fn content(self) -> Seq<char> {
        match self {
            MessageView::User(text) => text,
            MessageView::Assistant(text, _) => text,
            MessageView::System(text) => text,
            MessageView::Tool { result, .. } => result,
        }
    }

    /// What [`Message::ntokens`] returns.
    pub open spec fn spec_ntokens(self) -> nat {
        word_count(self.content())
    }

    /// What [`Message::get_hash`] returns: a 64-bit content hash over the
    /// message kind and every text field, including the tool calls of an
    /// assistant message.
    pub open spec fn spec_hash(self) -> u64 {
        match self {
            MessageView::User(text) => hash_field(fnv_step(FNV_OFFSET, 1), text),
            MessageView::Assistant(text, calls) => hash_calls(
                hash_field(fnv_step(FNV_OFFSET, 2), text),
                calls,
            ),
            MessageView::System(text) => hash_field(fnv_step(FNV_OFFSET, 3), text),
            MessageView::Tool { id, name, result } => hash_field(
                hash_field(hash_field(fnv_step(FNV_OFFSET, 4), id), name),
                result,
            ),
        }
    }

    /// What [`Message::render`] returns: the message as one role-labelled
    /// markdown block followed by a blank line.
    pub open spec fn spec_render(self) -> Seq<char> {
        match self {
            MessageView::User(text) => "__User:__ "@ + text + "\n"@ + "\n"@,
            MessageView::Assistant(text, calls) => render_calls_onto(
                "__Assistant:__ "@ + text + "\n"@,
                calls,
            ) + "\n"@,
            MessageView::System(text) => "__System:__ "@ + text + "\n"@ + "\n"@,
            MessageView::Tool { id, name, result } => "__Tool:__ "@ + name + " ("@ + id + ")\n"@
                + result + "\n"@ + "\n"@,
        }
    }
}

/// The hash of one tool call folded into the running hash `h`.
pub open spec fn hash_call(h: u64, c: ToolCallView) -> u64 {
    hash_field(hash_field(hash_field(h, c.id), c.name), c.args)
}

/// The hashes of a sequence of tool calls folded into `h`, first call
/// first.
pub open spec fn hash_calls(h: u64, calls: Seq<ToolCallView>) -> u64
    decreases calls.len(),
{
    if calls.len() == 0 {
        h
    } else {
        hash_calls(hash_call(h, calls[0]), calls.drop_first())
    }
}

/// One tool call as the log renders it: name, id, raw arguments.
pub open spec fn spec_render_call(c: ToolCallView) -> Seq<char> {
    "- "@ + c.name + " ("@ + c.id + ")\n\t- `"@ + c.args + "\n`"@
}

/// The renderings of a sequence of tool calls appended to `acc`, first
/// call first.
pub open spec fn render_calls_onto(acc: Seq<char>, calls: Seq<ToolCallView>) -> Seq<char>
    decreases calls.len(),
{
    if calls.len() == 0 {
        acc
    } else {
        render_calls_onto(acc + spec_render_call(calls[0]), calls.drop_first())
    }
}

fn hash_call_exec(h: u64, c: &ToolCall) -> (r: u64)
    ensures
        r == hash_call(h, c@),
{
    let r = hash_field_exec(h, c.id.as_str());
    let r = hash_field_exec(r, c.name.as_str());
    hash_field_exec(r, c.args.as_str())
}

/// Renders one tool call and appends it to `out`.
fn render_call_onto(out: &mut String, c: &ToolCall)
    ensures
        final(out)@ == old(out)@ + spec_render_call(c@),
{
    out.append("- ");
    out.append(c.name.as_str());
    out.append(" (");
    out.append(c.id.as_str());
    out.append(")\n\t- `");
    out.append(c.args.as_str());
    out.append("\n`");
}

impl Message {
    /// The number of whitespace-delimited words in the message's text
    /// payload: a cheap proxy for its size in model tokens.
    pub fn ntokens(&self) -> (r: usize)
        ensures
            r as nat == self@.spec_ntokens(),
    {
        match self {
            Message::User(text) => count_words(text.as_str()),
            Message::Assistant(text, _) => count_words(text.as_str()),
            Message::System(text) => count_words(text.as_str()),
            Message::Tool { result, .. } => count_words(result.as_str()),
        }
    }

    /// A 64-bit hash of the message kind and content, used by the logger to
    /// detect history rewrites. Distinct messages may collide; equal
    /// messages never differ.
    pub fn get_hash(&self) -> (r: u64)
        ensures
            r == self@.spec_hash(),
    {
        match self {
            Message::User(text) => hash_field_exec(fnv_step_exec(FNV_OFFSET, 1), text.as_str()),
            Message::System(text) => hash_field_exec(fnv_step_exec(FNV_OFFSET, 3), text.as_str()),
            Message::Tool { id, name, result } => {
                let h = fnv_step_exec(FNV_OFFSET, 4);
                let h = hash_field_exec(h, id.as_str());
                let h = hash_field_exec(h, name.as_str());
                hash_field_exec(h, result.as_str())
            },
            Message::Assistant(text, calls) => {
                let mut h = hash_field_exec(fnv_step_exec(FNV_OFFSET, 2), text.as_str());
                let ghost views = calls@.map_values(|c: ToolCall| c@);
                let ghost target = hash_calls(h, views);
                let n = calls.len();
                let mut i: usize = 0;
                proof {
                    assert(views.skip(0) =~= views);
                }
                while i < n
                    invariant
                        i <= n,
                        n == calls@.len(),
                        views == calls@.map_values(|c: ToolCall| c@),
                        hash_calls(h, views.skip(i as int)) == target,
                    decreases n - i,
                {
                    proof {
                        assert(views.skip(i as int).drop_first() =~= views.skip(i + 1));
                        assert(views.skip(i as int)[0] == calls@[i as int]@);
                    }
                    h = hash_call_exec(h, &calls[i]);
                    i = i + 1;
                }
                h
            },
        }
    }

    /// The message as one role-labelled markdown block followed by a blank
    /// line, the shape the transcript log uses.
    pub fn render(&self) -> (r: String)
        ensures
            r@ == self@.spec_render(),
    {
        match self {
            Message::User(text) => {
                let mut r = "__User:__ ".to_owned();
                r.append(text.as_str());
                r.append("\n");
                r.append("\n");
                r
            },
            Message::System(text) => {
                let mut r = "__System:__ ".to_owned();
                r.append(text.as_str());
                r.append("\n");
                r.append("\n");
                r
            },
            Message::Tool { id, name, result } => {
                let mut r = "__Tool:__ ".to_owned();
                r.append(name.as_str());
                r.append(" (");
                r.append(id.as_str());
                r.append(")\n");
                r.append(result.as_str());
                r.append("\n");
                r.append("\n");
                r
            },
            Message::Assistant(text, calls) => {
                let mut r = "__Assistant:__ ".to_owned();
                r.append(text.as_str());
                r.append("\n");
                let ghost views = calls@.map_values(|c: ToolCall| c@);
                let ghost target = render_calls_onto(r@, views);
                let n = calls.len();
                let mut i: usize = 0;
                proof {
                    assert(views.skip(0) =~= views);
                }
                while i < n
                    invariant
                        i <= n,
                        n == calls@.len(),
                        views == calls@.map_values(|c: ToolCall| c@),
                        render_calls_onto(r@, views.skip(i as int)) == target,
                    decreases n - i,
                {
                    proof {
                        assert(views.skip(i as int).drop_first() =~= views.skip(i + 1));
                        assert(views.skip(i as int)[0] == calls@[i as int]@);
                    }
                    render_call_onto(&mut r, &calls[i]);
                    i = i + 1;
                }
                r.append("\n");
                r
            },
        }
    }
}

/// What the agent sends the backend on each turn.
pub struct CompletionRequest<'a> {
    /// The whole transcript so far, in conversational order.
    pub messages: &'a Vec<Message>,
    /// The advertisements of every registered tool.
    pub tools: &'a Vec<ToolDefinition>,
    /// Whether the backend should enable its native web-search capability.
    pub web_search_tool: bool,
}

/// What the backend must answer with: assistant text plus zero or more
/// tool calls.
pub struct CompletionResponse {
    pub content: String,
    pub tool_calls: Vec<ToolCall>,
}

/// A language-model completion backend. Implementations live outside the
/// core: a vendor adapter in the surrounding program, a scripted mock in
/// tests.
pub trait LLM {
    /// Asks the backend for the next step given the transcript so far.
    fn completion(&self, request: CompletionRequest<'_>) -> Result<CompletionResponse, Error>;
}

/// Turns the observable parts of one backend choice into the response the
/// agent loop consumes, surfacing each backend contract violation as a
/// distinguishable error: no choices at all, a message with a role other
/// than assistant, or missing content.
pub fn response_from_parts(
    has_choices: bool,
    role_is_assistant: bool,
    content: Option<String>,
    tool_calls: Vec<ToolCall>,
) -> (r: Result<CompletionResponse, Error>)
    ensures
        !has_choices ==> (r matches Err(e) && e matches Error::LLMResponseError(m) && m@
            == "choices is empty"@),
        has_choices && !role_is_assistant ==> (r matches Err(e) && e
            matches Error::LLMResponseError(m) && m@ == "expected role to be assistant"@),
        has_choices && role_is_assistant && content is None ==> (r matches Err(e) && e
            matches Error::LLMResponseError(m) && m@ == "content is empty"@),
        has_choices && role_is_assistant && content is Some ==> (r matches Ok(resp)
            && resp.content == content->0 && resp.tool_calls == tool_calls),
{
    if !has_choices {
        Err(Error::LLMResponseError("choices is empty".to_owned()))
    } else if !role_is_assistant {
        Err(Error::LLMResponseError("expected role to be assistant".to_owned()))
    } else {
        match content {
            None => Err(Error::LLMResponseError("content is empty".to_owned())),
            Some(content) => Ok(CompletionResponse { content, tool_calls }),
        }
    }
}

} // verus!
