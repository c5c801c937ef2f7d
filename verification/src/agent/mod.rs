//! The decisions of the agent loop. The loop itself (model calls, tool
//! execution, waiting on the orchestrator) is asynchronous and is the
//! caller's part: it performs what these functions decide.
pub mod control;

use vstd::prelude::*;
use crate::error::{AgentError, error_text};
use crate::json::{
    Json, JsonValue, entries_view, items_view, jstr, json_get, json_get_str, lemma_items_view,
    push_entry,
};
use crate::knowledge::vectordb::KnowledgeEntry;
use crate::orchestrator::types::OrchestratorMessage;
use crate::text::{decimal, decimal_text};
use crate::time::Timestamp;
use crate::tools::{ToolResult, ToolStatus, is_ok_result};

verus! {

/// User interrupt injected mid-loop.
#[derive(Debug)]
pub enum UserInterrupt {
    /// A new user message to inject into the conversation.
    NewMessage(String),
    /// Cancel the current task.
    Cancel,
    /// Edit the current plan.
    EditPlan(String),
}

/// What the loop does with an interrupt.
#[derive(Debug)]
pub enum InterruptAction {
    /// Add this user message to the conversation.
    AddUserMessage(String),
    /// Report the cancellation and end the task.
    Cancel,
}

/// What the loop does with a message from the orchestrator.
#[derive(Debug)]
pub enum InboundAction {
    /// Add this user message to the conversation.
    AddUserMessage(String),
    /// Tell the orchestrator that the task is cancelled.
    ReportCancelled,
    /// Nothing.
    Ignore,
}

/// How waiting for the user's answer to a question ended.
#[derive(Debug)]
pub enum AskOutcome {
    /// No orchestrator is connected, so the question was not asked.
    NotConnected,
    /// The user replied.
    Replied(String),
    /// Another message came first; the loop handles it.
    Interrupted(OrchestratorMessage),
    /// The orchestrator went away.
    Disconnected,
    /// No answer within the time limit.
    TimedOut,
}

/// The default system prompt, used when no prompt file exists.
pub fn default_system_prompt() -> (s: String)
    ensures
        s@ == "You are Cascade Agent, an autonomous AI assistant."@,
{
    String::from_str("You are Cascade Agent, an autonomous AI assistant.")
}

/// The final output of a task that the user cancelled.
pub fn cancellation_output() -> (s: String)
    ensures
        s@ == "Task cancelled by user."@,
{
    String::from_str("Task cancelled by user.")
}

/// The action for an interrupt: new messages are added as they are, plan
/// edits are added behind a `[Plan Edit]: ` marker, and a cancellation ends
/// the task.
pub fn interrupt_action(interrupt: UserInterrupt) -> (a: InterruptAction)
    ensures
        match interrupt {
            UserInterrupt::NewMessage(m) => a matches InterruptAction::AddUserMessage(t) && t@ == m@,
            UserInterrupt::Cancel => a matches InterruptAction::Cancel,
            UserInterrupt::EditPlan(c) => a matches InterruptAction::AddUserMessage(t) && t@
                == "[Plan Edit]: "@ + c@,
        },
{
    match interrupt {
        UserInterrupt::NewMessage(m) => InterruptAction::AddUserMessage(m),
        UserInterrupt::Cancel => InterruptAction::Cancel,
        UserInterrupt::EditPlan(c) => {
            let mut t = String::from_str("[Plan Edit]: ");
            t.append(c.as_str());
            InterruptAction::AddUserMessage(t)
        },
    }
}

/// The text of optional feedback, empty when there is none.
pub open spec fn feedback_text(f: Option<String>) -> Seq<char> {
    match f {
        Some(s) => s@,
        None => Seq::empty(),
    }
}

/// The action for a message from the orchestrator: a reply is added as a
/// user message, a plan decision is added behind `[Plan Approved] ` or
/// `[Plan Rejected] `, a cancellation request is acknowledged, and anything
/// else is ignored.
pub fn inbound_action(msg: OrchestratorMessage) -> (a: InboundAction)
    ensures
        match msg {
            OrchestratorMessage::UserReply { content } => a matches InboundAction::AddUserMessage(t)
                && t@ == content@,
            OrchestratorMessage::PlanApproval { approved, feedback } => a matches InboundAction::AddUserMessage(t)
                && t@ == (if approved {
                "[Plan Approved] "@
            } else {
                "[Plan Rejected] "@
            }) + feedback_text(feedback),
            OrchestratorMessage::CancelTask => a matches InboundAction::ReportCancelled,
            _ => a matches InboundAction::Ignore,
        },
{
    match msg {
        OrchestratorMessage::UserReply { content } => InboundAction::AddUserMessage(content),
        OrchestratorMessage::PlanApproval { approved, feedback } => {
            let mut t = if approved {
                String::from_str("[Plan Approved] ")
            } else {
                String::from_str("[Plan Rejected] ")
            };
            match &feedback {
                Some(f) => t.append(f.as_str()),
                None => {},
            }
            InboundAction::AddUserMessage(t)
        },
        OrchestratorMessage::CancelTask => InboundAction::ReportCancelled,
        _ => InboundAction::Ignore,
    }
}

/// The question of an ask_user call.
pub open spec fn question_of(args: Json) -> Seq<char> {
    match json_get_str(args, "question"@) {
        Some(q) => q,
        None => "(no question provided)"@,
    }
}

/// The question that an ask_user call asks.
pub fn ask_user_question(args: &JsonValue) -> (q: String)
    ensures
        q@ == question_of(args@),
{
    match args.get("question") {
        Some(v) => match v.as_str() {
            Some(s) => String::from_str(s),
            None => String::from_str("(no question provided)"),
        },
        None => String::from_str("(no question provided)"),
    }
}

/// How waiting ended, given what was received: nothing within the time
/// limit, the end of the orchestrator's messages, or a message.
pub fn ask_user_outcome(received: Option<Option<OrchestratorMessage>>) -> (o: AskOutcome)
    ensures
        match received {
            None => o matches AskOutcome::TimedOut,
            Some(None) => o matches AskOutcome::Disconnected,
            Some(Some(OrchestratorMessage::UserReply { content })) => o matches AskOutcome::Replied(
                c,
            ) && c@ == content@,
            Some(Some(_)) => o is Interrupted,
        },
{
    match received {
        None => AskOutcome::TimedOut,
        Some(None) => AskOutcome::Disconnected,
        Some(Some(OrchestratorMessage::UserReply { content })) => AskOutcome::Replied(content),
        Some(Some(other)) => AskOutcome::Interrupted(other),
    }
}

/// The status and answer that an ask_user call reports for an outcome.
pub open spec fn ask_user_report(outcome: AskOutcome) -> (Seq<char>, Seq<char>) {
    match outcome {
        AskOutcome::NotConnected => (
            "no_orchestrator"@,
            "No orchestrator connected. Use the interrupt channel to reply."@,
        ),
        AskOutcome::Replied(a) => ("replied"@, a@),
        AskOutcome::Interrupted(_) => (
            "interrupted"@,
            "User sent a different message instead of replying."@,
        ),
        AskOutcome::Disconnected => (
            "timeout"@,
            "Orchestrator disconnected before user replied."@,
        ),
        AskOutcome::TimedOut => ("timeout"@, "Timed out waiting for user reply (5 minutes)."@),
    }
}

/// The result of an ask_user call: its status, the question and the answer.
pub fn ask_user_result(question: &str, outcome: &AskOutcome) -> (r: ToolResult)
    ensures
        is_ok_result(
            r,
            Json::Obj(
                seq![
                    ("status"@, jstr(ask_user_report(*outcome).0)),
                    ("question"@, jstr(question@)),
                    ("answer"@, jstr(ask_user_report(*outcome).1)),
                ],
            ),
        ),
{
    let (status, answer) = match outcome {
        AskOutcome::NotConnected => (
            "no_orchestrator",
            String::from_str("No orchestrator connected. Use the interrupt channel to reply."),
        ),
        AskOutcome::Replied(a) => ("replied", a.clone()),
        AskOutcome::Interrupted(_) => (
            "interrupted",
            String::from_str("User sent a different message instead of replying."),
        ),
        AskOutcome::Disconnected => (
            "timeout",
            String::from_str("Orchestrator disconnected before user replied."),
        ),
        AskOutcome::TimedOut => (
            "timeout",
            String::from_str("Timed out waiting for user reply (5 minutes)."),
        ),
    };
    let mut o: Vec<(String, JsonValue)> = Vec::new();
    push_entry(&mut o, "status", JsonValue::text(status));
    push_entry(&mut o, "question", JsonValue::text(question));
    push_entry(&mut o, "answer", JsonValue::String(answer));
    assert(entries_view(o@) =~= seq![
        ("status"@, jstr(ask_user_report(*outcome).0)),
        ("question"@, jstr(question@)),
        ("answer"@, jstr(ask_user_report(*outcome).1)),
    ]);
    ToolResult::ok(JsonValue::Object(o))
}

/// The status reported for a tool call: the result's status, or "error" when
/// the call failed.
pub fn tool_call_status(r: &Result<ToolResult, AgentError>) -> (s: &'static str)
    ensures
        s@ == match r {
            Ok(t) => match t.status {
                ToolStatus::Success => "success"@,
                ToolStatus::Error => "error"@,
            },
            Err(_) => "error"@,
        },
{
    match r {
        Ok(t) => t.status_str(),
        Err(_) => "error",
    }
}

/// The payload fed back to the model for a tool call that failed.
pub fn tool_failure_payload(e: &AgentError) -> (v: JsonValue)
    ensures
        v@ == Json::Obj(seq![("status"@, jstr("error"@)), ("error"@, jstr(error_text(*e)))]),
{
    let mut o: Vec<(String, JsonValue)> = Vec::new();
    push_entry(&mut o, "status", JsonValue::text("error"));
    push_entry(&mut o, "error", JsonValue::String(e.message()));
    assert(entries_view(o@) =~= seq![("status"@, jstr("error"@)), ("error"@, jstr(error_text(*e)))]);
    JsonValue::Object(o)
}

/// The arguments of a tool call whose text is not JSON: the text under `raw`.
pub fn raw_arguments(arguments: &str) -> (v: JsonValue)
    ensures
        v@ == Json::Obj(seq![("raw"@, jstr(arguments@))]),
{
    let mut o: Vec<(String, JsonValue)> = Vec::new();
    push_entry(&mut o, "raw", JsonValue::text(arguments));
    assert(entries_view(o@) =~= seq![("raw"@, jstr(arguments@))]);
    JsonValue::Object(o)
}

/// Whether a tool is a web search whose results are kept in the knowledge base.
pub fn is_search_tool(name: &str) -> (b: bool)
    ensures
        b == (name@ == "tavily_search"@ || name@ == "brave_search"@),
{
    crate::text::same_text(name, "tavily_search") || crate::text::same_text(name, "brave_search")
}

/// Whether the loop ends after a round: when the model called no tool, or
/// the rounds have reached the limit.
pub fn round_ends(has_tool_calls: bool, turn_count: usize, max_tool_rounds: usize) -> (b: bool)
    ensures
        b == (!has_tool_calls || turn_count >= max_tool_rounds),
{
    !has_tool_calls || turn_count >= max_tool_rounds
}

/// The warning sent when the rounds reach their limit.
pub fn max_rounds_warning(max_tool_rounds: usize) -> (s: String)
    ensures
        s@ == "Max tool rounds ("@ + decimal_text(max_tool_rounds as nat) + ") reached"@,
{
    let mut s = String::from_str("Max tool rounds (");
    s.append(decimal(max_tool_rounds).as_str());
    s.append(") reached");
    s
}

} // verus!

verus! {

/// A text, or the empty text.
pub open spec fn or_empty(s: Option<Seq<char>>) -> Seq<char> {
    match s {
        Some(t) => t,
        None => Seq::empty(),
    }
}

/// The text stored for a search result: its title and snippet on two lines.
pub open spec fn search_result_text(item: Json) -> Seq<char> {
    or_empty(json_get_str(item, "title"@)) + "\n"@ + or_empty(json_get_str(item, "snippet"@))
}

/// The search results worth storing: those whose text is not blank.
pub open spec fn storable_results(items: Seq<Json>) -> Seq<Json> {
    items.filter(|item: Json| !crate::text::is_blank(search_result_text(item)))
}

/// The search results that a search call's arguments and data offer: the
/// `results` array when the arguments hold a `query` text.
pub open spec fn offered_results(args: Json, data: Json) -> Seq<Json> {
    match json_get_str(args, "query"@) {
        None => Seq::empty(),
        Some(_) => match json_get(data, "results"@) {
            Some(Json::Arr(items)) => items,
            _ => Seq::empty(),
        },
    }
}

/// `e` is the stored entry of the search result `item` from the search tool
/// `source` for `query`.
pub open spec fn search_entry(e: KnowledgeEntry, item: Json, source: Seq<char>, query: Seq<char>) -> bool {
    &&& e.text@ == search_result_text(item)
    &&& e.source@ == source
    &&& e.metadata@ == Json::Obj(
        seq![("url"@, jstr(or_empty(json_get_str(item, "url"@)))), ("query"@, jstr(query))],
    )
}

fn member_text(v: &JsonValue, key: &str) -> (s: String)
    ensures
        s@ == or_empty(json_get_str(v@, key@)),
{
    match v.get(key) {
        Some(m) => match m.as_str() {
            Some(t) => String::from_str(t),
            None => String::new(),
        },
        None => String::new(),
    }
}

/// The knowledge entries to store for a search tool's results: one for each
/// result whose title and snippet are not blank, in order, stamped with the
/// instant `at`. Nothing when the arguments hold no query or the data no
/// results.
pub fn search_entries(tool_name: &str, args: &JsonValue, data: &JsonValue, at: Timestamp) -> (entries: Vec<
    KnowledgeEntry,
>)
    ensures
        forall|i: int| 0 <= i < entries@.len() ==> #[trigger] entries@[i].timestamp == at.seconds(),
        entries@.len() == storable_results(offered_results(args@, data@)).len(),
        forall|i: int|
            0 <= i < entries@.len() ==> search_entry(
                #[trigger] entries@[i],
                storable_results(offered_results(args@, data@))[i],
                tool_name@,
                json_get_str(args@, "query"@)->0,
            ),
{
    let mut entries: Vec<KnowledgeEntry> = Vec::new();
    let query = match args.get("query") {
        Some(v) => match v.as_str() {
            Some(q) => q,
            None => {
                proof {
                    reveal_with_fuel(Seq::filter, 1);
                }
                return entries;
            },
        },
        None => {
            proof {
                reveal_with_fuel(Seq::filter, 1);
            }
            return entries;
        },
    };
    let items = match data.get("results") {
        Some(v) => match v.as_array() {
            Some(a) => a,
            None => {
                proof {
                    reveal_with_fuel(Seq::filter, 1);
                }
                return entries;
            },
        },
        None => {
            proof {
                reveal_with_fuel(Seq::filter, 1);
            }
            return entries;
        },
    };
    let ghost all = items_view(items@);
    let ghost pred = |item: Json| !crate::text::is_blank(search_result_text(item));
    proof {
        lemma_items_view(items@);
        assert(all == offered_results(args@, data@));
        reveal_with_fuel(Seq::filter, 1);
        assert(all.take(0).filter(pred) =~= Seq::<Json>::empty());
    }
    let mut i: usize = 0;
    while i < items.len()
        invariant
            i <= items.len(),
            all == items_view(items@),
            all.len() == items@.len(),
            forall|j: int| 0 <= j < items@.len() ==> #[trigger] all[j] == items@[j]@,
            pred == (|item: Json| !crate::text::is_blank(search_result_text(item))),
            entries@.len() == all.take(i as int).filter(pred).len(),
            forall|k: int| 0 <= k < entries@.len() ==> #[trigger] entries@[k].timestamp == at.seconds(),
            forall|k: int|
                0 <= k < entries@.len() ==> search_entry(
                    #[trigger] entries@[k],
                    all.take(i as int).filter(pred)[k],
                    tool_name@,
                    query@,
                ),
        decreases items.len() - i,
    {
        let item = &items[i];
        proof {
            assert(all.take(i + 1) =~= all.take(i as int).push(all[i as int]));
            all.take(i as int).lemma_filter_push(all[i as int], pred);
        }
        let mut text = member_text(item, "title");
        text.append("\n");
        text.append(member_text(item, "snippet").as_str());
        if !crate::text::blank(text.as_str()) {
            let mut o: Vec<(String, JsonValue)> = Vec::new();
            push_entry(&mut o, "url", JsonValue::String(member_text(item, "url")));
            push_entry(&mut o, "query", JsonValue::text(query));
            assert(entries_view(o@) =~= seq![
                ("url"@, jstr(or_empty(json_get_str(item@, "url"@)))),
                ("query"@, jstr(query@)),
            ]);
            let timestamp = at.unix_seconds();
            entries.push(
                KnowledgeEntry {
                    text,
                    source: String::from_str(tool_name),
                    metadata: JsonValue::Object(o),
                    timestamp,
                },
            );
        }
        i = i + 1;
    }
    proof {
        assert(all.take(items.len() as int) =~= all);
    }
    entries
}

} // verus!

verus! {

/// A block of a model response: text, or a call of a tool with its
/// arguments as JSON text.
#[derive(Debug)]
pub enum ContentBlock {
    Text { text: String },
    ToolCall { id: String, name: String, arguments: String },
}

/// What the loop does for a block of the model's response.
#[derive(Debug)]
pub enum BlockAction {
    /// Add this text to the conversation and send it to the orchestrator.
    AssistantText(String),
    /// Run the tool `name` with these arguments and feed its result back
    /// under the call's `id`.
    RunTool { id: String, name: String, arguments: String },
    /// Ask the user the question in these ask_user arguments through the
    /// orchestrator and feed the answer back under the call's `id`.
    AskUser { id: String, arguments: String },
}

/// The actions for the blocks of a response, in order: empty texts are
/// skipped, other texts are reported, ask_user calls ask the user, and every
/// other tool call is run.
pub open spec fn block_actions(blocks: Seq<ContentBlock>) -> Seq<BlockAction>
    decreases blocks.len(),
{
    if blocks.len() == 0 {
        Seq::empty()
    } else {
        let before = block_actions(blocks.drop_last());
        match blocks.last() {
            ContentBlock::Text { text } => if text@.len() == 0 {
                before
            } else {
                before.push(BlockAction::AssistantText(text))
            },
            ContentBlock::ToolCall { id, name, arguments } => if name@ == "ask_user"@ {
                before.push(BlockAction::AskUser { id, arguments })
            } else {
                before.push(BlockAction::RunTool { id, name, arguments })
            },
        }
    }
}

/// Some block of the response calls a tool.
pub open spec fn calls_tool(blocks: Seq<ContentBlock>) -> bool {
    exists|i: int| 0 <= i < blocks.len() && #[trigger] blocks[i] is ToolCall
}

/// The actions for a model response, and whether it called any tool (the
/// loop ends after a response that calls none).
pub fn response_actions(blocks: Vec<ContentBlock>) -> (r: (Vec<BlockAction>, bool))
    ensures
        r.0@ == block_actions(blocks@),
        r.1 == calls_tool(blocks@),
{
    let ghost all = blocks@;
    let mut actions: Vec<BlockAction> = Vec::new();
    let mut has_tool_calls = false;
    let mut blocks = blocks;
    let mut rest: Vec<ContentBlock> = Vec::new();
    while blocks.len() > 0
        invariant
            blocks@ == all.take(all.len() - rest@.len()),
            rest@.len() <= all.len(),
            forall|k: int| 0 <= k < rest@.len() ==> #[trigger] rest@[k] == all[all.len() - 1 - k],
        decreases blocks@.len(),
    {
        let block = blocks.pop().unwrap();
        proof {
            assert(block == all[all.len() - 1 - rest@.len()]);
        }
        rest.push(block);
        proof {
            assert(blocks@ =~= all.take(all.len() - rest@.len()));
        }
    }
    let ghost mut done: int = 0;
    proof {
        assert(all.take(0) =~= Seq::<ContentBlock>::empty());
    }
    while rest.len() > 0
        invariant
            0 <= done <= all.len(),
            rest@.len() == all.len() - done,
            forall|k: int| 0 <= k < rest@.len() ==> #[trigger] rest@[k] == all[all.len() - 1 - k],
            actions@ == block_actions(all.take(done)),
            has_tool_calls == calls_tool(all.take(done)),
        decreases rest@.len(),
    {
        let block = rest.pop().unwrap();
        proof {
            assert(block == all[done]);
            assert(all.take(done + 1).drop_last() =~= all.take(done));
            assert(all.take(done + 1).last() == all[done]);
            if calls_tool(all.take(done + 1)) && !(block is ToolCall) {
                let i = choose|i: int| 0 <= i < done + 1 && #[trigger] all.take(done + 1)[i] is ToolCall;
                assert(all.take(done)[i] is ToolCall);
            }
            if calls_tool(all.take(done)) {
                let i = choose|i: int| 0 <= i < done && #[trigger] all.take(done)[i] is ToolCall;
                assert(all.take(done + 1)[i] is ToolCall);
            }
            if block is ToolCall {
                assert(all.take(done + 1)[done] is ToolCall);
            }
            done = done + 1;
        }
        match block {
            ContentBlock::Text { text } => {
                if !text.as_str().is_empty() {
                    actions.push(BlockAction::AssistantText(text));
                }
            },
            ContentBlock::ToolCall { id, name, arguments } => {
                has_tool_calls = true;
                if crate::text::same_text(name.as_str(), "ask_user") {
                    actions.push(BlockAction::AskUser { id, arguments });
                } else {
                    actions.push(BlockAction::RunTool { id, name, arguments });
                }
            },
        }
    }
    proof {
        assert(all.take(all.len() as int) =~= all);
    }
    (actions, has_tool_calls)
}

/// The message that reports an executed tool: its name, the status of its
/// result and how long it ran.
pub fn tool_executed(name: &str, r: &Result<ToolResult, AgentError>, duration_ms: u64) -> (m:
    OrchestratorMessage)
    ensures
        m matches OrchestratorMessage::ToolExecuted { tool, status, duration_ms: d } && tool@
            == name@ && d == duration_ms && status@ == match r {
            Ok(t) => match t.status {
                ToolStatus::Success => "success"@,
                ToolStatus::Error => "error"@,
            },
            Err(_) => "error"@,
        },
{
    OrchestratorMessage::ToolExecuted {
        tool: String::from_str(name),
        status: String::from_str(tool_call_status(r)),
        duration_ms,
    }
}

/// Whether the results of a tool call go to the knowledge base: those of a
/// web search that did not fail to run.
pub fn stores_results(name: &str, r: &Result<ToolResult, AgentError>) -> (b: bool)
    ensures
        b == ((name@ == "tavily_search"@ || name@ == "brave_search"@) && r is Ok),
{
    is_search_tool(name) && r.is_ok()
}

} // verus!
