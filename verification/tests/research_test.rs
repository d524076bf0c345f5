use agent::error::Error;
use agent::llm::{response_from_parts, Message};
use agent::research::{
    finish_run, start_subagent_step, wait_for_subagent_step, CompleteTask, TaskCompleted,
};
use agent::agent::StopCondition;
use agent::tools::{FunctionalTool, ToolCall};

fn call(id: &str, name: &str, args: &str) -> ToolCall {
    ToolCall {
        id: id.to_string(),
        name: name.to_string(),
        args: args.to_string(),
    }
}

fn tool_msg(id: &str, name: &str, result: &str) -> Message {
    Message::Tool {
        id: id.to_string(),
        name: name.to_string(),
        result: result.to_string(),
    }
}

#[test]
fn start_subagent_acknowledges_immediately() {
    let c = call("c1", "start_subagent", "{\"task_desc\":\"find facts\"}");
    let plan = start_subagent_step(&c, 0).unwrap();
    assert_eq!(plan.name, "subagent_0");
    assert_eq!(plan.task_desc, "find facts");
    assert_eq!(plan.next_id, 1);
    assert!(matches!(
        &plan.ack,
        Message::Tool { id, name, result }
            if id == "c1" && name == "start_subagent"
                && result == "Research sub-agent started for task: find facts"
    ));

    let again = start_subagent_step(&c, 1).unwrap();
    assert_eq!(again.name, "subagent_1");
    assert_eq!(again.next_id, 2);
}

#[test]
fn start_subagent_rejects_malformed_arguments() {
    let c = call("c1", "start_subagent", "{\"task\":\"wrong field\"}");
    assert!(matches!(start_subagent_step(&c, 0), Err(Error::JsonError(_))));
}

#[test]
fn wait_with_no_outstanding_subagents_is_informational() {
    let c = call("w1", "wait_for_subagent", "");
    let m = wait_for_subagent_step(&c, None).unwrap();
    assert!(matches!(
        &m,
        Message::Tool { id, name, result }
            if id == "w1" && name == "wait_for_subagent"
                && result == "no sub-agents are currently active, create a new sub-agent to wait for a task"
    ));
}

#[test]
fn wait_passes_on_a_terminal_result() {
    let c = call("w1", "wait_for_subagent", "");
    let child = vec![
        Message::User("task".to_string()),
        tool_msg("t1", "complete_task", "the findings"),
    ];
    let m = wait_for_subagent_step(&c, Some(Ok(child))).unwrap();
    assert!(matches!(
        &m,
        Message::Tool { id, name, result }
            if id == "w1" && name == "wait_for_subagent" && result == "the findings"
    ));
}

#[test]
fn wait_rejects_a_child_that_skipped_its_completion_tool() {
    let c = call("w1", "wait_for_subagent", "");
    let child = vec![
        Message::User("task".to_string()),
        tool_msg("t1", "memory_set_key", "key k inserted into memory"),
    ];
    assert!(matches!(
        wait_for_subagent_step(&c, Some(Ok(child))),
        Err(Error::AgentWorkflowError(_))
    ));

    let ended_with_text = vec![Message::Assistant("done, I think".to_string(), vec![])];
    assert!(matches!(
        wait_for_subagent_step(&c, Some(Ok(ended_with_text))),
        Err(Error::AgentWorkflowError(_))
    ));
}

#[test]
fn wait_passes_a_join_failure_through() {
    let c = call("w1", "wait_for_subagent", "");
    let failed = Some(Err(Error::TaskJoinError("cancelled".to_string())));
    assert!(matches!(
        wait_for_subagent_step(&c, failed),
        Err(Error::TaskJoinError(m)) if m == "cancelled"
    ));
}

#[test]
fn task_completed_stops_only_on_the_terminal_tool() {
    let stop = TaskCompleted;
    assert!(!stop.done(&vec![]));
    assert!(!stop.done(&vec![Message::User("hi".to_string())]));
    assert!(!stop.done(&vec![tool_msg("t", "memory_get_key", "x")]));
    assert!(stop.done(&vec![tool_msg("t", "complete_task", "x")]));
    assert!(!stop.done(&vec![
        tool_msg("t", "complete_task", "x"),
        Message::Assistant("later".to_string(), vec![]),
    ]));
}

#[test]
fn complete_task_echoes_its_string_argument() {
    let mut tool = CompleteTask;
    let m = tool
        .invoke_fn(&call("c3", "complete_task", "\"result text\""))
        .unwrap();
    assert!(matches!(
        &m,
        Message::Tool { id, name, result }
            if id == "c3" && name == "complete_task" && result == "result text"
    ));

    assert!(matches!(
        tool.invoke_fn(&call("c3", "complete_task", "{\"not\":\"a string\"}")),
        Err(Error::JsonError(_))
    ));
}

#[test]
fn finish_run_reads_the_final_transcript() {
    assert!(matches!(
        finish_run(vec![]),
        Err(Error::AgentWorkflowError(m)) if m == "message history empty"
    ));

    let good = vec![
        Message::User("task".to_string()),
        tool_msg("t", "complete_task", "all done"),
    ];
    assert_eq!(finish_run(good).unwrap(), "all done");

    let wrong_tool = vec![tool_msg("t", "memory_list_keys", "Keys in memory:\n")];
    assert!(matches!(
        finish_run(wrong_tool),
        Err(Error::AgentWorkflowError(m))
            if m == "expected final message to be complete_task tool call not memory_list_keys tool call"
    ));

    let no_tool = vec![Message::Assistant("bye".to_string(), vec![])];
    assert!(matches!(
        finish_run(no_tool),
        Err(Error::AgentWorkflowError(m))
            if m == "expected final message to be complete_task tool call"
    ));
}

#[test]
fn backend_contract_violations_are_distinguishable() {
    assert!(matches!(
        response_from_parts(false, true, Some("x".to_string()), vec![]),
        Err(Error::LLMResponseError(m)) if m == "choices is empty"
    ));
    assert!(matches!(
        response_from_parts(true, false, Some("x".to_string()), vec![]),
        Err(Error::LLMResponseError(m)) if m == "expected role to be assistant"
    ));
    assert!(matches!(
        response_from_parts(true, true, None, vec![]),
        Err(Error::LLMResponseError(m)) if m == "content is empty"
    ));

    let calls = vec![call("c", "double", "{}")];
    let resp = response_from_parts(true, true, Some("text".to_string()), calls).unwrap();
    assert_eq!(resp.content, "text");
    assert_eq!(resp.tool_calls.len(), 1);
    assert_eq!(resp.tool_calls[0].id, "c");
}

#[test]
fn errors_describe_themselves() {
    assert_eq!(
        Error::ToolDoesNotExist("double".to_string()).describe(),
        "Tool double does not exist"
    );
    assert_eq!(
        Error::MissingArg("llm is required for agent".to_string()).describe(),
        "Missing arg: llm is required for agent"
    );
    assert_eq!(
        Error::LLMResponseError("choices is empty".to_string()).describe(),
        "No response from llm: choices is empty"
    );
    assert_eq!(
        Error::AgentWorkflowError("x".to_string()).describe(),
        "Agent workflow error: x"
    );
    assert_eq!(Error::JsonError("j".to_string()).describe(), "Json error: j");
    assert_eq!(
        Error::TaskJoinError("t".to_string()).describe(),
        "Task join error: t"
    );
    assert_eq!(Error::IOError("io".to_string()).describe(), "IO Error: io");
}
