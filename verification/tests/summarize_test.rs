use agent::callbacks::Callback;
use agent::error::Error;
use agent::llm::{CompletionRequest, CompletionResponse, Message, LLM};
use agent::tools::summarize_history::SummarizeHistory;
use agent::tools::{Tool, ToolCall};

struct SummaryLLM;

impl LLM for SummaryLLM {
    fn completion(&self, request: CompletionRequest<'_>) -> Result<CompletionResponse, Error> {
        // Compaction advertises no tools on its summary request.
        assert!(request.tools.is_empty());
        assert!(!request.web_search_tool);
        Ok(CompletionResponse {
            content: "the summary".to_string(),
            tool_calls: vec![],
        })
    }
}

fn user(text: &str) -> Message {
    Message::User(text.to_string())
}

fn transcript(n: usize) -> Vec<Message> {
    let mut t = Vec::new();
    if n > 0 {
        t.push(Message::System("framing".to_string()));
    }
    if n > 1 {
        t.push(user("the task"));
    }
    for i in 2..n {
        t.push(Message::Assistant(format!("turn {}", i), vec![]));
    }
    t
}

#[test]
fn compaction_is_a_noop_on_short_transcripts() {
    let tool = SummarizeHistory::new(SummaryLLM, 2);

    for n in 0..4 {
        let out = tool.summarize_history(transcript(n)).unwrap();
        assert_eq!(out.len(), n);
    }
}

#[test]
fn compaction_yields_three_plus_keep_last_messages() {
    let tool = SummarizeHistory::new(SummaryLLM, 2);

    for n in [4, 5, 9, 40] {
        let out = tool.summarize_history(transcript(n)).unwrap();
        assert_eq!(out.len(), 5);
        assert!(matches!(&out[0], Message::System(content) if content == "framing"));
        assert!(matches!(&out[1], Message::User(content) if content == "the task"));
        assert!(
            matches!(&out[2], Message::Assistant(content, calls) if content == "the summary" && calls.is_empty())
        );
        assert!(
            matches!(&out[3], Message::Assistant(content, _) if *content == format!("turn {}", n - 2))
        );
        assert!(
            matches!(&out[4], Message::Assistant(content, _) if *content == format!("turn {}", n - 1))
        );
    }
}

#[test]
fn compaction_tool_compacts_regardless_of_word_count() {
    let mut tool = SummarizeHistory::new(SummaryLLM, 1);
    let call = ToolCall {
        id: "c".to_string(),
        name: "summarize_history".to_string(),
        args: "".to_string(),
    };
    let out = Tool::invoke(&mut *tool, &call, transcript(7)).unwrap();
    assert_eq!(out.len(), 4);
}

#[test]
fn summarize_callback_passes_short_transcripts_through() {
    let mut cb = SummarizeHistory::new(SummaryLLM, 2);
    let input = transcript(8);
    let out = cb.call(input.clone()).unwrap();
    // Far below the word-count threshold: unchanged.
    assert_eq!(out.len(), input.len());
    assert!(matches!(&out[7], Message::Assistant(content, _) if content == "turn 7"));
}

#[test]
fn summarize_callback_compacts_past_the_threshold() {
    let mut cb = SummarizeHistory::new(SummaryLLM, 2);
    let mut input = transcript(4);
    let long_text = "word ".repeat(5001);
    input.push(Message::Assistant(long_text, vec![]));
    let out = cb.call(input).unwrap();
    assert_eq!(out.len(), 5);
    assert!(matches!(&out[2], Message::Assistant(content, _) if content == "the summary"));
}

#[test]
fn compaction_definition_names_the_preserved_tail() {
    let tool = SummarizeHistory::new(SummaryLLM, 2);
    let def = Tool::definition(&*tool).unwrap();
    assert_eq!(def.name, "summarize_history");
    assert!(def.desc.contains("Note that the last 2 messages"));
}

#[test]
fn compaction_with_no_preserved_tail() {
    let tool = SummarizeHistory::new(SummaryLLM, 0);

    // Exactly the two framing messages: the boundary case compacts too.
    let out = tool.summarize_history(transcript(2)).unwrap();
    assert_eq!(out.len(), 3);
    assert!(matches!(&out[0], Message::System(content) if content == "framing"));
    assert!(matches!(&out[1], Message::User(content) if content == "the task"));
    assert!(matches!(&out[2], Message::Assistant(content, _) if content == "the summary"));

    let out = tool.summarize_history(transcript(1)).unwrap();
    assert_eq!(out.len(), 1);
}
