use cascade_agent::agent::{
    ask_user_outcome, ask_user_question, ask_user_result, cancellation_output,
    default_system_prompt, inbound_action, interrupt_action, is_search_tool, max_rounds_warning,
    raw_arguments, response_actions, round_ends, search_entries, stores_results,
    tool_call_status, tool_executed, tool_failure_payload, AskOutcome, BlockAction,
    ContentBlock, InboundAction, InterruptAction, UserInterrupt,
};
use cascade_agent::agent::control::{loop_step, LoopAction, LoopEvent, LoopState, ToolPayload};
use cascade_agent::error::AgentError;
use cascade_agent::json::JsonValue;
use cascade_agent::orchestrator::types::OrchestratorMessage;
use cascade_agent::time::Timestamp;
use cascade_agent::tools::ToolResult;

fn obj(entries: Vec<(&str, JsonValue)>) -> JsonValue {
    JsonValue::Object(entries.into_iter().map(|(k, v)| (k.to_string(), v)).collect())
}

fn at() -> Timestamp {
    Timestamp::from_unix(1_700_000_000, 0).unwrap()
}

fn s(v: &str) -> JsonValue {
    JsonValue::String(v.to_string())
}

#[test]
fn interrupts() {
    match interrupt_action(UserInterrupt::NewMessage("hi".into())) {
        InterruptAction::AddUserMessage(m) => assert_eq!(m, "hi"),
        _ => panic!("expected a message"),
    }
    match interrupt_action(UserInterrupt::EditPlan("step 2 first".into())) {
        InterruptAction::AddUserMessage(m) => assert_eq!(m, "[Plan Edit]: step 2 first"),
        _ => panic!("expected a message"),
    }
    assert!(matches!(interrupt_action(UserInterrupt::Cancel), InterruptAction::Cancel));
    assert_eq!(cancellation_output(), "Task cancelled by user.");
    assert_eq!(default_system_prompt(), "You are Cascade Agent, an autonomous AI assistant.");
}

#[test]
fn inbound_messages() {
    match inbound_action(OrchestratorMessage::PlanApproval { approved: true, feedback: Some("go".into()) }) {
        InboundAction::AddUserMessage(m) => assert_eq!(m, "[Plan Approved] go"),
        _ => panic!("expected a message"),
    }
    match inbound_action(OrchestratorMessage::PlanApproval { approved: false, feedback: None }) {
        InboundAction::AddUserMessage(m) => assert_eq!(m, "[Plan Rejected] "),
        _ => panic!("expected a message"),
    }
    match inbound_action(OrchestratorMessage::UserReply { content: "yes".into() }) {
        InboundAction::AddUserMessage(m) => assert_eq!(m, "yes"),
        _ => panic!("expected a message"),
    }
    assert!(matches!(inbound_action(OrchestratorMessage::CancelTask), InboundAction::ReportCancelled));
    assert!(matches!(inbound_action(OrchestratorMessage::TaskCancelled), InboundAction::Ignore));
}

#[test]
fn ask_user_flow() {
    assert_eq!(ask_user_question(&obj(vec![("question", s("Which?"))])), "Which?");
    assert_eq!(ask_user_question(&obj(vec![])), "(no question provided)");
    assert!(matches!(ask_user_outcome(None), AskOutcome::TimedOut));
    assert!(matches!(ask_user_outcome(Some(None)), AskOutcome::Disconnected));
    let replied = ask_user_outcome(Some(Some(OrchestratorMessage::UserReply { content: "A".into() })));
    let r = ask_user_result("Which?", &replied);
    assert_eq!(r.data.get("status").unwrap().as_str(), Some("replied"));
    assert_eq!(r.data.get("answer").unwrap().as_str(), Some("A"));
    assert_eq!(r.data.get("question").unwrap().as_str(), Some("Which?"));
    let other = ask_user_outcome(Some(Some(OrchestratorMessage::CancelTask)));
    assert!(matches!(other, AskOutcome::Interrupted(_)));
    let r = ask_user_result("q", &AskOutcome::TimedOut);
    assert_eq!(r.data.get("answer").unwrap().as_str(), Some("Timed out waiting for user reply (5 minutes)."));
    let r = ask_user_result("q", &AskOutcome::NotConnected);
    assert_eq!(r.data.get("status").unwrap().as_str(), Some("no_orchestrator"));
}

#[test]
fn tool_call_reporting() {
    let ok: Result<ToolResult, AgentError> = Ok(ToolResult::err("x".into()));
    assert_eq!(tool_call_status(&ok), "error");
    let ok: Result<ToolResult, AgentError> = Ok(ToolResult::ok_string("y".into()));
    assert_eq!(tool_call_status(&ok), "success");
    let failed: Result<ToolResult, AgentError> = Err(AgentError::ToolFailed {
        tool: "zap".into(),
        reason: "Tool 'zap' is not registered".into(),
    });
    assert_eq!(tool_call_status(&failed), "error");
    let payload = tool_failure_payload(failed.as_ref().unwrap_err());
    assert_eq!(
        payload.get("error").unwrap().as_str(),
        Some("Tool execution failed for 'zap': Tool 'zap' is not registered")
    );
    assert_eq!(raw_arguments("{oops").get("raw").unwrap().as_str(), Some("{oops"));
    assert!(is_search_tool("tavily_search"));
    assert!(is_search_tool("brave_search"));
    assert!(!is_search_tool("echo"));
}

#[test]
fn round_limits() {
    assert!(round_ends(false, 0, 10));
    assert!(!round_ends(true, 3, 10));
    assert!(round_ends(true, 10, 10));
    assert_eq!(max_rounds_warning(25), "Max tool rounds (25) reached");
}

#[test]
fn search_results_become_entries() {
    let args = obj(vec![("query", s("rust"))]);
    let data = obj(vec![(
        "results",
        JsonValue::Array(vec![
            obj(vec![("title", s("Rust")), ("snippet", s("A language")), ("url", s("https://r"))]),
            obj(vec![("title", s("  ")), ("snippet", s("\t"))]),
            obj(vec![("snippet", s("only snippet"))]),
        ]),
    )]);
    let entries = search_entries("tavily_search", &args, &data, at());
    assert_eq!(entries.len(), 2);
    assert_eq!(entries[0].text, "Rust\nA language");
    assert_eq!(entries[0].source, "tavily_search");
    assert_eq!(entries[0].metadata.get("url").unwrap().as_str(), Some("https://r"));
    assert_eq!(entries[0].metadata.get("query").unwrap().as_str(), Some("rust"));
    assert_eq!(entries[1].text, "\nonly snippet");
    assert!(entries.iter().all(|e| e.timestamp == 1_700_000_000));
    assert_eq!(entries[1].metadata.get("url").unwrap().as_str(), Some(""));
    assert!(search_entries("tavily_search", &obj(vec![]), &data, at()).is_empty());
    assert!(search_entries("tavily_search", &args, &obj(vec![]), at()).is_empty());
}

#[test]
fn response_blocks_become_actions() {
    let blocks = vec![
        ContentBlock::Text { text: "".into() },
        ContentBlock::Text { text: "thinking".into() },
        ContentBlock::ToolCall { id: "c1".into(), name: "echo".into(), arguments: "{}".into() },
        ContentBlock::Text { text: "done".into() },
    ];
    let (actions, calls) = response_actions(blocks);
    assert!(calls);
    assert_eq!(actions.len(), 3);
    assert!(matches!(&actions[0], BlockAction::AssistantText(t) if t == "thinking"));
    assert!(matches!(
        &actions[1],
        BlockAction::RunTool { id, name, arguments } if id == "c1" && name == "echo" && arguments == "{}"
    ));
    assert!(matches!(&actions[2], BlockAction::AssistantText(t) if t == "done"));

    let (actions, calls) = response_actions(vec![ContentBlock::Text { text: "bye".into() }]);
    assert!(!calls);
    assert_eq!(actions.len(), 1);
    let (actions, calls) = response_actions(Vec::new());
    assert!(!calls);
    assert!(actions.is_empty());
}

#[test]
fn executed_tools_are_reported_and_searches_stored() {
    let ok: Result<ToolResult, AgentError> = Ok(ToolResult::ok_string("r".into()));
    match tool_executed("tavily_search", &ok, 42) {
        OrchestratorMessage::ToolExecuted { tool, status, duration_ms } => {
            assert_eq!(tool, "tavily_search");
            assert_eq!(status, "success");
            assert_eq!(duration_ms, 42);
        }
        other => panic!("unexpected message: {:?}", other),
    }
    assert!(stores_results("tavily_search", &ok));
    assert!(!stores_results("echo", &ok));
    let failed: Result<ToolResult, AgentError> = Err(AgentError::ToolFailed {
        tool: "brave_search".into(),
        reason: "down".into(),
    });
    assert!(!stores_results("brave_search", &failed));
    match tool_executed("brave_search", &failed, 7) {
        OrchestratorMessage::ToolExecuted { status, .. } => assert_eq!(status, "error"),
        other => panic!("unexpected message: {:?}", other),
    }
}

fn finished_with(actions: &[LoopAction]) -> Option<String> {
    match actions.last() {
        Some(LoopAction::Finish(Ok(out))) => Some(out.clone()),
        _ => None,
    }
}

#[test]
fn loop_runs_rounds_until_a_reply_without_tools() {
    let mut state = LoopState::new("task-1".into(), 5);
    let a = loop_step(&mut state, LoopEvent::Start("hi".into()));
    assert_eq!(a.len(), 3);
    assert!(matches!(&a[0], LoopAction::AddUserMessage(m) if m == "hi"));
    assert!(matches!(
        &a[1],
        LoopAction::Push(OrchestratorMessage::TaskStarted { task_id, description })
            if task_id == "task-1" && description == "hi"
    ));
    assert!(matches!(a[2], LoopAction::CallModel));

    let a = loop_step(
        &mut state,
        LoopEvent::Reply(vec![
            ContentBlock::Text { text: "looking".into() },
            ContentBlock::ToolCall { id: "c1".into(), name: "echo".into(), arguments: "{}".into() },
        ]),
    );
    assert_eq!(a.len(), 2);
    assert!(matches!(&a[0], LoopAction::Respond(v) if v.len() == 2));
    assert!(matches!(a[1], LoopAction::CloseReply));
    assert_eq!(state.rounds(), 1);

    let a = loop_step(
        &mut state,
        LoopEvent::ToolDone {
            id: "c1".into(),
            name: "echo".into(),
            args: obj(vec![]),
            result: Ok(ToolResult::ok_string("pong".into())),
            duration_ms: 3,
            at: at(),
        },
    );
    assert_eq!(a.len(), 2);
    assert!(matches!(
        &a[0],
        LoopAction::AddToolResult { id, payload: ToolPayload::Result(_) } if id == "c1"
    ));
    assert!(matches!(
        &a[1],
        LoopAction::Push(OrchestratorMessage::ToolExecuted { status, duration_ms: 3, .. }) if status == "success"
    ));
    let a = loop_step(&mut state, LoopEvent::ReplyDone);
    assert!(matches!(&a[..], [LoopAction::CallModel]));
    assert!(loop_step(&mut state, LoopEvent::ReplyDone).is_empty());

    let a = loop_step(&mut state, LoopEvent::Reply(vec![ContentBlock::Text { text: "".into() }]));
    assert_eq!(a.len(), 3);
    assert!(matches!(
        &a[1],
        LoopAction::Push(OrchestratorMessage::TaskCompleted { task_id, output_path: None }) if task_id == "task-1"
    ));
    assert_eq!(finished_with(&a), Some("looking".to_string()));
    assert!(state.is_finished());
    assert!(loop_step(&mut state, LoopEvent::Start("again".into())).is_empty());
}

#[test]
fn loop_cancel_failure_and_round_limit() {
    let mut state = LoopState::new("t".into(), 1);
    let a = loop_step(&mut state, LoopEvent::Interrupt(UserInterrupt::EditPlan("x".into())));
    assert!(matches!(&a[0], LoopAction::AddUserMessage(m) if m == "[Plan Edit]: x"));
    let a = loop_step(&mut state, LoopEvent::Interrupt(UserInterrupt::Cancel));
    assert_eq!(a.len(), 3);
    assert!(matches!(a[0], LoopAction::Push(OrchestratorMessage::TaskCancelled)));
    assert_eq!(finished_with(&a), Some("Task cancelled by user.".to_string()));

    let mut state = LoopState::new("t".into(), 1);
    let a = loop_step(&mut state, LoopEvent::InferenceFailed("all down".into()));
    assert_eq!(a.len(), 3);
    assert!(matches!(a[0], LoopAction::SaveState));
    assert!(matches!(&a[1], LoopAction::Push(OrchestratorMessage::Error(m)) if m == "Cascade inference failed: all down"));
    assert!(matches!(&a[2], LoopAction::Finish(Err(AgentError::InferenceFailed(m))) if m == "all down"));

    let mut state = LoopState::new("t".into(), 1);
    let a = loop_step(
        &mut state,
        LoopEvent::Reply(vec![ContentBlock::ToolCall {
            id: "q".into(),
            name: "ask_user".into(),
            arguments: "{}".into(),
        }]),
    );
    assert_eq!(a.len(), 2);
    assert!(matches!(&a[0], LoopAction::Respond(v) if matches!(&v[0], BlockAction::AskUser { id, .. } if id == "q")));
    assert!(matches!(a[1], LoopAction::CloseReply));
    assert!(!state.is_finished());
    // The last round's tool call is still recorded and reported.
    let a = loop_step(
        &mut state,
        LoopEvent::ToolDone {
            id: "q".into(),
            name: "ask_user".into(),
            args: obj(vec![]),
            result: Ok(ToolResult::ok_string("yes".into())),
            duration_ms: 9,
            at: at(),
        },
    );
    assert_eq!(a.len(), 2);
    assert!(matches!(&a[0], LoopAction::AddToolResult { id, .. } if id == "q"));
    assert!(matches!(&a[1], LoopAction::Push(OrchestratorMessage::ToolExecuted { tool, .. }) if tool == "ask_user"));
    let a = loop_step(&mut state, LoopEvent::ReplyDone);
    assert_eq!(a.len(), 3);
    assert!(matches!(&a[0], LoopAction::Push(OrchestratorMessage::Warning(w)) if w == "Max tool rounds (1) reached"));
    assert_eq!(finished_with(&a), Some(String::new()));
    assert!(state.is_finished());

    let mut state = LoopState::new("t".into(), 3);
    let a = loop_step(&mut state, LoopEvent::Inbound(OrchestratorMessage::CancelTask));
    assert_eq!(a.len(), 2);
    assert!(matches!(a[0], LoopAction::Push(OrchestratorMessage::TaskCancelled)));
    assert!(matches!(a[1], LoopAction::CallModel));
    let a = loop_step(
        &mut state,
        LoopEvent::AskInterrupted(OrchestratorMessage::UserReply { content: "later".into() }),
    );
    assert!(matches!(&a[..], [LoopAction::AddUserMessage(m)] if m == "later"));
}

#[test]
fn loop_stores_search_results_and_reports_failures() {
    let mut state = LoopState::new("t".into(), 3);
    let data = obj(vec![(
        "results",
        JsonValue::Array(vec![obj(vec![("title", s("A")), ("snippet", s("b"))])]),
    )]);
    let a = loop_step(
        &mut state,
        LoopEvent::ToolDone {
            id: "s".into(),
            name: "brave_search".into(),
            args: obj(vec![("query", s("q"))]),
            result: Ok(ToolResult::ok(data)),
            duration_ms: 1,
            at: at(),
        },
    );
    assert_eq!(a.len(), 3);
    assert!(matches!(&a[2], LoopAction::StoreResults(es) if es.len() == 1 && es[0].text == "A\nb"));
    let a = loop_step(
        &mut state,
        LoopEvent::ToolDone {
            id: "z".into(),
            name: "zap".into(),
            args: obj(vec![]),
            result: Err(AgentError::ToolFailed { tool: "zap".into(), reason: "no".into() }),
            duration_ms: 1,
            at: at(),
        },
    );
    assert_eq!(a.len(), 2);
    match &a[0] {
        LoopAction::AddToolResult { payload: ToolPayload::Failure(v), .. } => {
            assert_eq!(v.get("status").unwrap().as_str(), Some("error"));
            assert_eq!(v.get("error").unwrap().as_str(), Some("Tool execution failed for 'zap': no"));
        }
        other => panic!("unexpected action: {:?}", other),
    }
}
