use agent::agent::{Agent, AgentBuilder, AgentStep, StopCondition};
use agent::callbacks::logger::{MessageLogger, StringSink};
use agent::callbacks::Callback;
use agent::error::Error;
use agent::llm::{CompletionRequest, CompletionResponse, Message, LLM};
use agent::tools::{FunctionalTool, Tool, ToolCall, ToolDefinition};

struct MockLLM;

impl LLM for MockLLM {
    fn completion(&self, request: CompletionRequest<'_>) -> Result<CompletionResponse, Error> {
        match request.messages.last() {
            Some(Message::User(_)) => Ok(CompletionResponse {
                content: "tool call".to_string(),
                tool_calls: vec![ToolCall {
                    id: "call1".to_string(),
                    name: "double".to_string(),
                    args: "{\"arg\":123}".to_string(),
                }],
            }),
            Some(Message::Tool { .. }) => Ok(CompletionResponse {
                content: "tool call recieved".to_string(),
                tool_calls: vec![],
            }),
            Some(Message::Assistant(_, _)) => Ok(CompletionResponse {
                content: "completed".to_string(),
                tool_calls: vec![],
            }),
            _ => panic!("unexpected message sequence"),
        }
    }
}

struct DoubleTool;

impl FunctionalTool for DoubleTool {
    fn definition(&self) -> Result<ToolDefinition, Error> {
        Ok(ToolDefinition::new(
            "double",
            "double",
            "{\"type\":\"object\",\"properties\":{\"arg\":{\"type\":\"integer\"}},\"required\":[\"arg\"]}",
        ))
    }

    fn invoke_fn(&mut self, tool_call: &ToolCall) -> Result<Message, Error> {
        let parsed: serde_json::Value = serde_json::from_str(&tool_call.args)
            .map_err(|e| Error::JsonError(e.to_string()))?;
        let arg = parsed
            .get("arg")
            .and_then(|v| v.as_i64())
            .ok_or(Error::JsonError("expected an arg number".to_string()))?;
        Ok(Message::Tool {
            id: tool_call.id.clone(),
            name: "double".to_string(),
            result: format!("2 * {} = {}", arg, 2 * arg),
        })
    }
}

struct SimpleStop;

impl StopCondition for SimpleStop {
    // The ghost half of the trait; it is never run.
    fn spec_done(&self, _transcript: vstd::seq::Seq<Message>) -> bool {
        false
    }

    fn done(&self, history: &Vec<Message>) -> bool {
        if let Some(Message::Assistant(content, _)) = history.last() {
            content == "completed"
        } else {
            false
        }
    }
}

type NoCallback = MessageLogger<StringSink>;

fn run_agent<L: LLM, T: Tool, C: Callback, S: StopCondition>(
    agent: &mut Agent<L, T, C, S>,
    messages: Vec<Message>,
) -> Result<Vec<Message>, Error> {
    match agent.run(messages, 32)? {
        AgentStep::Finished(t) => Ok(t),
        AgentStep::Continue(_) => panic!("agent did not stop within the turn budget"),
    }
}

#[test]
fn test_agent() {
    let mut agent = AgentBuilder::<MockLLM, DoubleTool, NoCallback, SimpleStop>::new()
        .llm(MockLLM)
        .tool(DoubleTool)
        .stop_condition(SimpleStop)
        .build()
        .unwrap();

    let history = run_agent(&mut agent, vec![Message::User("do stuff".to_string())]).unwrap();

    assert_eq!(history.len(), 5);

    assert!(matches!(&history[0], Message::User(content) if content == "do stuff"));
    assert!(matches!(&history[1], Message::Assistant(_, tool_calls) if tool_calls.len() == 1));
    assert!(matches!(&history[2], Message::Tool { result, .. } if result == "2 * 123 = 246"));
    assert!(
        matches!(&history[3], Message::Assistant(content, _) if content == "tool call recieved")
    );
    assert!(matches!(&history[4], Message::Assistant(content, _) if content == "completed"));
}

struct AlwaysStop;

impl StopCondition for AlwaysStop {
    // The ghost half of the trait; it is never run.
    fn spec_done(&self, _transcript: vstd::seq::Seq<Message>) -> bool {
        false
    }

    fn done(&self, _history: &Vec<Message>) -> bool {
        true
    }
}

#[test]
fn step_finishes_immediately_when_stop_holds() {
    let mut agent = AgentBuilder::<MockLLM, DoubleTool, NoCallback, AlwaysStop>::new()
        .llm(MockLLM)
        .tool(DoubleTool)
        .stop_condition(AlwaysStop)
        .build()
        .unwrap();

    let input = vec![Message::User("anything".to_string())];
    match agent.step(input).unwrap() {
        AgentStep::Finished(t) => {
            assert_eq!(t.len(), 1);
            assert!(matches!(&t[0], Message::User(content) if content == "anything"));
        }
        AgentStep::Continue(_) => panic!("expected the run to be finished"),
    }
}

struct TwoCallsLLM;

impl LLM for TwoCallsLLM {
    fn completion(&self, _request: CompletionRequest<'_>) -> Result<CompletionResponse, Error> {
        Ok(CompletionResponse {
            content: "two calls".to_string(),
            tool_calls: vec![
                ToolCall {
                    id: "first".to_string(),
                    name: "double".to_string(),
                    args: "{\"arg\":1}".to_string(),
                },
                ToolCall {
                    id: "second".to_string(),
                    name: "double".to_string(),
                    args: "{\"arg\":2}".to_string(),
                },
            ],
        })
    }
}

struct NeverStop;

impl StopCondition for NeverStop {
    // The ghost half of the trait; it is never run.
    fn spec_done(&self, _transcript: vstd::seq::Seq<Message>) -> bool {
        false
    }

    fn done(&self, _history: &Vec<Message>) -> bool {
        false
    }
}

#[test]
fn tool_calls_are_dispatched_in_message_order() {
    let mut agent = AgentBuilder::<TwoCallsLLM, DoubleTool, NoCallback, NeverStop>::new()
        .llm(TwoCallsLLM)
        .tool(DoubleTool)
        .stop_condition(NeverStop)
        .build()
        .unwrap();

    let out = match agent.step(vec![Message::User("go".to_string())]).unwrap() {
        AgentStep::Continue(t) => t,
        AgentStep::Finished(_) => panic!("the stop predicate never holds"),
    };

    assert_eq!(out.len(), 4);
    assert!(matches!(&out[1], Message::Assistant(_, calls) if calls.len() == 2));
    assert!(matches!(&out[2], Message::Tool { id, result, .. } if id == "first" && result == "2 * 1 = 2"));
    assert!(matches!(&out[3], Message::Tool { id, result, .. } if id == "second" && result == "2 * 2 = 4"));
}

#[test]
fn unknown_tool_aborts_the_run() {
    struct WrongNameLLM;

    impl LLM for WrongNameLLM {
        fn completion(&self, _request: CompletionRequest<'_>) -> Result<CompletionResponse, Error> {
            Ok(CompletionResponse {
                content: "call".to_string(),
                tool_calls: vec![ToolCall {
                    id: "c".to_string(),
                    name: "nosuch".to_string(),
                    args: "{}".to_string(),
                }],
            })
        }
    }

    let mut agent = AgentBuilder::<WrongNameLLM, DoubleTool, NoCallback, NeverStop>::new()
        .llm(WrongNameLLM)
        .tool(DoubleTool)
        .stop_condition(NeverStop)
        .build()
        .unwrap();

    match agent.step(vec![Message::User("go".to_string())]) {
        Err(Error::ToolDoesNotExist(name)) => assert_eq!(name, "nosuch"),
        other => panic!("expected ToolDoesNotExist, got {:?}", other.map(|_| ())),
    }
}

#[test]
fn builder_requires_llm_and_stop_condition() {
    let no_llm = AgentBuilder::<MockLLM, DoubleTool, NoCallback, SimpleStop>::new()
        .tool(DoubleTool)
        .stop_condition(SimpleStop)
        .build();
    assert!(matches!(no_llm, Err(Error::MissingArg(m)) if m == "llm is required for agent"));

    let no_stop = AgentBuilder::<MockLLM, DoubleTool, NoCallback, SimpleStop>::new()
        .llm(MockLLM)
        .tool(DoubleTool)
        .build();
    assert!(
        matches!(no_stop, Err(Error::MissingArg(m)) if m == "stop_condition is required for agent")
    );
}

#[test]
fn builder_rejects_duplicate_tool_names() {
    let built = AgentBuilder::<MockLLM, DoubleTool, NoCallback, SimpleStop>::new()
        .llm(MockLLM)
        .tool(DoubleTool)
        .tool(DoubleTool)
        .stop_condition(SimpleStop)
        .build();
    assert!(matches!(built, Err(Error::MissingArg(m)) if m == "duplicate tool name: double"));
}

#[test]
fn functional_tool_adapter_appends_exactly_one_message() {
    let mut tool = DoubleTool;
    let input = vec![
        Message::System("sys".to_string()),
        Message::User("usr".to_string()),
    ];
    let call = ToolCall {
        id: "c9".to_string(),
        name: "double".to_string(),
        args: "{\"arg\":21}".to_string(),
    };
    let out = Tool::invoke(&mut tool, &call, input.clone()).unwrap();
    assert_eq!(out.len(), 3);
    assert!(matches!(&out[0], Message::System(content) if content == "sys"));
    assert!(matches!(&out[1], Message::User(content) if content == "usr"));
    assert!(matches!(&out[2], Message::Tool { id, name, result } if id == "c9" && name == "double" && result == "2 * 21 = 42"));
}

#[test]
fn builder_with_no_tools_builds() {
    let built = AgentBuilder::<MockLLM, DoubleTool, NoCallback, SimpleStop>::new()
        .llm(MockLLM)
        .stop_condition(SimpleStop)
        .build();
    assert!(built.is_ok());
}

#[test]
fn run_with_no_turn_budget_returns_the_input() {
    let mut agent = AgentBuilder::<MockLLM, DoubleTool, NoCallback, SimpleStop>::new()
        .llm(MockLLM)
        .tool(DoubleTool)
        .stop_condition(SimpleStop)
        .build()
        .unwrap();

    match agent.run(vec![Message::User("pending".to_string())], 0).unwrap() {
        AgentStep::Continue(t) => {
            assert_eq!(t.len(), 1);
            assert!(matches!(&t[0], Message::User(content) if content == "pending"));
        }
        AgentStep::Finished(_) => panic!("no turn was granted"),
    }
}
