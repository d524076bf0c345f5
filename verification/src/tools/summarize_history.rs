//! Context compaction: replacing a run of older messages with one generated
//! summary message to bound transcript growth. Available both as a tool the
//! model may invoke on demand and as a callback that fires automatically
//! once the transcript grows past a word-count threshold.

use vstd::prelude::*;

use crate::callbacks::Callback;
use crate::error::Error;
use crate::llm::{CompletionRequest, Message, MessageView, LLM};
use crate::text::u64_to_string;
use crate::tools::{Tool, ToolCall, ToolCallView, ToolDefinition};

verus! {

/// The word-count threshold past which the callback form compacts.
pub const SUMMARIZE_THRESHOLD: usize = 5000;

/// The instruction appended to the head transcript when asking the model
/// for a summary.
pub const SUMMARIZE_PROMPT: &'static str = "In order to keep the conversational history from becoming too long, you must generate a summary of the current chat history.\nInstructions:\n- The summary must compress the information, try to be as succinct as possible. The final summary should not be more than 1000 words in length.\n- Preserve key information from the conversational history. Remember that information stored using the memory tool can still be retrieved later.\n- Remember that you are a researcher, make sure to preserve any key findings or information that you will need to complete the task.";

/// The sum of the per-message word counts of a whole transcript.
pub open spec fn spec_total_tokens(t: Seq<Message>) -> nat
    decreases t.len(),
{
    if t.len() == 0 {
        0
    } else {
        t[0]@.spec_ntokens() + spec_total_tokens(t.drop_first())
    }
}

/// `n`, unless it does not fit a `usize`.
pub open spec fn cap_usize(n: nat) -> nat {
    if n <= usize::MAX as nat {
        n
    } else {
        usize::MAX as nat
    }
}

/// Sums the word counts of every message, saturating at `usize::MAX`.
pub fn total_tokens(messages: &Vec<Message>) -> (r: usize)
    ensures
        r as nat == cap_usize(spec_total_tokens(messages@)),
{
    let n = messages.len();
    let mut i: usize = 0;
    let mut acc: usize = 0;
    proof {
        assert(messages@.skip(0) =~= messages@);
    }
    while i < n
        invariant
            i <= n,
            n == messages@.len(),
            cap_usize(acc as nat + spec_total_tokens(messages@.skip(i as int))) == cap_usize(
                spec_total_tokens(messages@),
            ),
        decreases n - i,
    {
        proof {
            assert(messages@.skip(i as int).drop_first() =~= messages@.skip(i + 1));
            assert(messages@.skip(i as int)[0] == messages@[i as int]);
        }
        let k = messages[i].ntokens();
        if k > usize::MAX - acc {
            acc = usize::MAX;
        } else {
            acc = acc + k;
        }
        i = i + 1;
    }
    acc
}

/// The shape compaction gives a transcript of `keep_last + 2` or more
/// messages: the first two messages verbatim, one summary message from the
/// assistant with no tool calls, then the last `keep_last` input messages
/// verbatim — whatever the input length was.
pub open spec fn compacted_shape(input: Seq<Message>, keep_last: int, output: Seq<Message>) -> bool {
    &&& output.len() == 3 + keep_last
    &&& output[0] == input[0]
    &&& output[1] == input[1]
    &&& (output[2]@ matches MessageView::Assistant(_, calls) && calls.len() == 0)
    &&& output.skip(3) == input.skip(input.len() - keep_last)
}

/// Splits a transcript for compaction: everything before the preserved
/// tail, with the fixed summary instruction appended, and the tail itself.
/// The first part is what the summary request is sent over.
pub fn split_for_summary(messages: Vec<Message>, keep_last: usize) -> (r: (Vec<Message>, Vec<
    Message,
>))
    requires
        messages@.len() >= 2 + keep_last,
    ensures
        ({
            let (head, tail) = r;
            &&& head@.len() == messages@.len() - keep_last + 1
            &&& head@.drop_last() == messages@.take(messages@.len() - keep_last)
            &&& (head@.last()@ matches MessageView::User(t) && t == SUMMARIZE_PROMPT@)
            &&& tail@ == messages@.skip(messages@.len() - keep_last)
        }),
{
    let mut head = messages;
    let split_at = head.len() - keep_last;
    let tail = head.split_off(split_at);
    head.push(Message::User(SUMMARIZE_PROMPT.to_owned()));
    proof {
        assert(head@.drop_last() =~= head@.take(head@.len() - 1));
    }
    (head, tail)
}

/// Rebuilds the transcript around the summary the model answered with: the
/// first two messages of `head`, one assistant message holding exactly
/// `summary` and no tool calls, then `tail` verbatim.
pub fn assemble_compacted(head: Vec<Message>, summary: String, tail: Vec<Message>) -> (r: Vec<
    Message,
>)
    requires
        head@.len() >= 2,
    ensures
        r@.len() == 3 + tail@.len(),
        r@[0] == head@[0],
        r@[1] == head@[1],
        r@[2]@ == MessageView::Assistant(summary@, Seq::<ToolCallView>::empty()),
        r@.skip(3) == tail@,
{
    let ghost tail0 = tail@;
    let mut out = head;
    out.truncate(2);
    out.push(Message::Assistant(summary, Vec::new()));
    let mut tail = tail;
    out.append(&mut tail);
    proof {
        assert(Seq::<ToolCall>::empty().map_values(|c: ToolCall| c@) =~= Seq::<
            ToolCallView,
        >::empty());
        assert(out@.skip(3) =~= tail0);
    }
    out
}

/// Compacts a transcript by asking the model to summarize everything but
/// the first two messages and the last `keep_last`.
pub struct SummarizeHistory<L> {
    pub llm: L,
    /// How many trailing messages are preserved verbatim.
    pub keep_last: usize,
}

impl<L: LLM> SummarizeHistory<L> {
    /// A compactor over `llm` preserving the last `keep_last` messages.
    pub fn new(llm: L, keep_last: usize) -> (r: Box<Self>)
        ensures
            r.llm == llm,
            r.keep_last == keep_last,
    {
        Box::new(SummarizeHistory { llm, keep_last })
    }

    /// The compaction algorithm. The first two messages are assumed to be
    /// the original task framing and are never compacted away: a transcript
    /// of fewer than `2 + keep_last` messages comes back unchanged. On any
    /// longer transcript, success yields exactly `3 + keep_last` messages:
    /// the two framing messages, one summary, and the preserved tail.
    pub fn summarize_history(&self, messages: Vec<Message>) -> (r: Result<Vec<Message>, Error>)
        ensures
            messages@.len() < 2 + self.keep_last ==> r == Ok::<Vec<Message>, Error>(messages),
            messages@.len() >= 2 + self.keep_last ==> (r matches Ok(t) ==> compacted_shape(
                messages@,
                self.keep_last as int,
                t@,
            )),
    {
        if messages.len() < 2 || messages.len() - 2 < self.keep_last {
            return Ok(messages);
        }
        let ghost input = messages@;
        let (head, tail) = split_for_summary(messages, self.keep_last);

        let no_tools: Vec<ToolDefinition> = Vec::new();
        let result = self.llm.completion(
            CompletionRequest { messages: &head, tools: &no_tools, web_search_tool: false },
        )?;

        let out = assemble_compacted(head, result.content, tail);
        proof {
            assert(head@[0] == head@.drop_last()[0]);
            assert(head@[1] == head@.drop_last()[1]);
            assert(out@[0] == input[0]);
            assert(out@[1] == input[1]);
        }
        Ok(out)
    }
}

impl<L: LLM> Tool for SummarizeHistory<L> {
    /// Advertises on-demand compaction under the name `summarize_history`.
    fn definition(&self) -> (r: Result<ToolDefinition, Error>)
        ensures
            r matches Ok(d) ==> d@.name == "summarize_history"@,
            r is Ok,
    {
        let mut desc =
            "This tool will take in the chat history, and generate a concise summary that preserves the key component. This prevents the conversational history from becoming too long, and makes it easier to find the relevant information in the history. Note that the last ".to_owned();
        desc.append(u64_to_string(self.keep_last as u64).as_str());
        desc.append(
            " messages will not be changed, only the preceding messages will be summarized. Remember that you should also use the memory tool to store key information for retrieval later. You must use this tool to prevent the history from becoming too long. It will automatically be invoked if the chat history becomes too long.",
        );
        Ok(ToolDefinition::new("summarize_history", desc.as_str(), "{\"type\":\"object\",\"properties\":{}}"))
    }

    /// Compacts on demand, whatever the transcript's word count.
    fn invoke(&mut self, _call: &ToolCall, messages: Vec<Message>) -> (r: Result<
        Vec<Message>,
        Error,
    >)
        ensures
            messages@.len() < 2 + old(self).keep_last ==> r == Ok::<Vec<Message>, Error>(messages),
            messages@.len() >= 2 + old(self).keep_last ==> (r matches Ok(t) ==> compacted_shape(
                messages@,
                old(self).keep_last as int,
                t@,
            )),
    {
        self.summarize_history(messages)
    }
}

impl<L: LLM> Callback for SummarizeHistory<L> {
    /// Compacts only when the transcript's total word count exceeds the
    /// threshold; otherwise the transcript passes through unchanged.
    fn call(&mut self, messages: Vec<Message>) -> (r: Result<Vec<Message>, Error>)
        ensures
            spec_total_tokens(messages@) <= SUMMARIZE_THRESHOLD ==> r == Ok::<Vec<Message>, Error>(messages),
            spec_total_tokens(messages@) > SUMMARIZE_THRESHOLD && messages@.len() < 2
                + old(self).keep_last ==> r == Ok::<Vec<Message>, Error>(messages),
            spec_total_tokens(messages@) > SUMMARIZE_THRESHOLD && messages@.len() >= 2
                + old(self).keep_last ==> (r matches Ok(t) ==> compacted_shape(
                messages@,
                old(self).keep_last as int,
                t@,
            )),
    {
        let total = total_tokens(&messages);
        if total > SUMMARIZE_THRESHOLD {
            self.summarize_history(messages)
        } else {
            Ok(messages)
        }
    }
}

} // verus!
