//! The agent loop as a state machine: each event that the caller reports
//! (the prompt, an interrupt, a model reply, a finished tool, ...) gives the
//! next state and the actions the caller performs, in order.
use vstd::prelude::*;
use crate::agent::{
    BlockAction, ContentBlock, UserInterrupt, block_actions, calls_tool, cancellation_output,
    feedback_text, max_rounds_warning, offered_results, response_actions, search_entries,
    search_entry, storable_results, stores_results, tool_executed, tool_failure_payload,
};
use crate::error::{AgentError, error_text};
use crate::json::{Json, JsonValue, json_get_str, jstr};
use crate::knowledge::vectordb::KnowledgeEntry;
use crate::orchestrator::types::OrchestratorMessage;
use crate::text::decimal_text;
use crate::time::Timestamp;
use crate::tools::{ToolResult, ToolStatus};

verus! {

/// Something that happened, reported to the loop.
#[derive(Debug)]
pub enum LoopEvent {
    /// The task starts with the user's prompt.
    Start(String),
    /// An interrupt the user injected; pending interrupts are reported before
    /// each model call.
    Interrupt(UserInterrupt),
    /// The context was compacted from `before` to `after` tokens.
    Compacted { before: usize, after: usize },
    /// A message from the orchestrator arrived while the model was working;
    /// that model call is abandoned.
    Inbound(OrchestratorMessage),
    /// Every model provider failed, with this message.
    InferenceFailed(String),
    /// The model replied with these blocks.
    Reply(Vec<ContentBlock>),
    /// Every action of the last reply, with its tool calls, has been
    /// performed.
    ReplyDone,
    /// A tool call finished after `duration_ms` milliseconds at instant `at`;
    /// `result` is the tool's result, or the error of running it.
    ToolDone {
        id: String,
        name: String,
        args: JsonValue,
        result: Result<ToolResult, AgentError>,
        duration_ms: u64,
        at: Timestamp,
    },
    /// A message from the orchestrator arrived in place of the user's answer
    /// to a question.
    AskInterrupted(OrchestratorMessage),
}

/// What is fed back to the model for a tool call.
#[derive(Debug)]
pub enum ToolPayload {
    /// The tool's result.
    Result(ToolResult),
    /// The error object of a call that could not run.
    Failure(JsonValue),
}

/// Something the caller does.
#[derive(Debug)]
pub enum LoopAction {
    /// Add a user message to the conversation.
    AddUserMessage(String),
    /// Send a message to the orchestrator.
    Push(OrchestratorMessage),
    /// Perform the actions of a model reply in order; each tool call or
    /// question is reported back as an event before the next one.
    Respond(Vec<BlockAction>),
    /// Add a tool's output to the conversation under the call's id.
    AddToolResult { id: String, payload: ToolPayload },
    /// Store these entries in the knowledge base.
    StoreResults(Vec<KnowledgeEntry>),
    /// Once the reply's actions and the tool calls in them are done, report
    /// `ReplyDone`.
    CloseReply,
    /// Start the next round: report pending interrupts, compact the context
    /// when it is over budget, then call the model.
    CallModel,
    /// Save the conversation state to the outputs directory; when saving
    /// fails, the task ends with that error instead.
    SaveState,
    /// The task is over with this output or error.
    Finish(Result<String, AgentError>),
}

/// The state of the agent loop for one task.
#[derive(Debug)]
pub struct LoopState {
    task_id: String,
    max_tool_rounds: usize,
    rounds: usize,
    last_text: String,
    reply_open: bool,
    finished: bool,
}

impl LoopState {
    /// The task's identifier.
    pub closed spec fn task(self) -> Seq<char> {
        self.task_id@
    }

    /// The number of rounds after which the loop stops.
    pub closed spec fn max_rounds(self) -> usize {
        self.max_tool_rounds
    }

    /// The number of model replies so far.
    pub closed spec fn round_count(self) -> usize {
        self.rounds
    }

    /// The last non-empty text the model wrote, or the empty text.
    pub closed spec fn last_said(self) -> Seq<char> {
        self.last_text@
    }

    /// Whether the task is over.
    pub closed spec fn done(self) -> bool {
        self.finished
    }

    /// Whether a reply that called tools is still being carried out.
    pub closed spec fn open_reply(self) -> bool {
        self.reply_open
    }

    /// The state at the start of a task.
    pub fn new(task_id: String, max_tool_rounds: usize) -> (s: LoopState)
        ensures
            s.task() == task_id@,
            s.max_rounds() == max_tool_rounds,
            s.round_count() == 0,
            s.last_said() == Seq::<char>::empty(),
            !s.done(),
            !s.open_reply(),
    {
        LoopState {
            task_id,
            max_tool_rounds,
            rounds: 0,
            last_text: String::new(),
            reply_open: false,
            finished: false,
        }
    }

    /// The number of model replies so far.
    pub fn rounds(&self) -> (n: usize)
        ensures
            n == self.round_count(),
    {
        self.rounds
    }

    /// Whether the task is over.
    pub fn is_finished(&self) -> (b: bool)
        ensures
            b == self.done(),
    {
        self.finished
    }

    /// The text the task outputs when it ends now.
    pub fn last_text(&self) -> (s: &str)
        ensures
            s@ == self.last_said(),
    {
        self.last_text.as_str()
    }
}

/// `a` adds the user message `text`.
pub open spec fn adds_user(a: LoopAction, text: Seq<char>) -> bool {
    a matches LoopAction::AddUserMessage(m) && m@ == text
}

/// `a` reports that the task `task` completed.
pub open spec fn reports_completed(a: LoopAction, task: Seq<char>) -> bool {
    a matches LoopAction::Push(OrchestratorMessage::TaskCompleted { task_id, output_path })
        && task_id@ == task && output_path is None
}

/// `a` ends the task with the output `text`.
pub open spec fn finishes_with(a: LoopAction, text: Seq<char>) -> bool {
    a matches LoopAction::Finish(Ok(out)) && out@ == text
}

/// The actions for an orchestrator message: a reply or a plan decision is
/// added as a user message, a cancellation request is acknowledged, and
/// anything else is ignored.
pub open spec fn handles_inbound(msg: OrchestratorMessage, actions: Seq<LoopAction>) -> bool {
    match msg {
        OrchestratorMessage::UserReply { content } => actions.len() == 1 && adds_user(
            actions[0],
            content@,
        ),
        OrchestratorMessage::PlanApproval { approved, feedback } => actions.len() == 1 && adds_user(
            actions[0],
            (if approved {
                "[Plan Approved] "@
            } else {
                "[Plan Rejected] "@
            }) + feedback_text(feedback),
        ),
        OrchestratorMessage::CancelTask => actions.len() == 1 && actions[0] matches LoopAction::Push(
            OrchestratorMessage::TaskCancelled,
        ),
        _ => actions.len() == 0,
    }
}

/// The last text among reply actions, or `prev` when they hold none.
pub open spec fn last_text_of(prev: Seq<char>, acts: Seq<BlockAction>) -> Seq<char>
    decreases acts.len(),
{
    if acts.len() == 0 {
        prev
    } else {
        match acts.last() {
            BlockAction::AssistantText(t) => t@,
            _ => last_text_of(prev, acts.drop_last()),
        }
    }
}

/// The round count after one more reply (it stops at the largest `usize`).
pub open spec fn next_round(n: usize) -> usize {
    if n < usize::MAX {
        (n + 1) as usize
    } else {
        n
    }
}

/// `after` is `before` with the task over.
pub open spec fn ends(before: LoopState, after: LoopState) -> bool {
    &&& after.done()
    &&& after.task() == before.task()
    &&& after.max_rounds() == before.max_rounds()
    &&& after.round_count() == before.round_count()
    &&& after.last_said() == before.last_said()
    &&& after.open_reply() == before.open_reply()
}

/// The search results a finished tool call stores: those of a search that
/// ran, when it offers any worth storing.
pub open spec fn results_to_store(name: Seq<char>, args: Json, result: Result<ToolResult, AgentError>) -> Seq<Json> {
    match result {
        Ok(r) => if (name == "tavily_search"@ || name == "brave_search"@) {
            storable_results(offered_results(args, r.data@))
        } else {
            Seq::empty()
        },
        Err(_) => Seq::empty(),
    }
}

/// The actions for a finished tool call: its output goes to the
/// conversation under its id (the tool's result, or an error object for a
/// call that could not run), the orchestrator hears its name, status and
/// duration, and the results of a web search are stored.
pub open spec fn handles_tool_done(
    id: String,
    name: String,
    args: JsonValue,
    result: Result<ToolResult, AgentError>,
    duration_ms: u64,
    at: Timestamp,
    actions: Seq<LoopAction>,
) -> bool {
    let stored = results_to_store(name@, args@, result);
    &&& actions.len() == if stored.len() > 0 { 3int } else { 2int }
    &&& actions[0] matches LoopAction::AddToolResult { id: i, payload } && i == id && match result {
        Ok(r) => payload matches ToolPayload::Result(p) && p == r,
        Err(e) => payload matches ToolPayload::Failure(v) && v@ == Json::Obj(
            seq![("status"@, jstr("error"@)), ("error"@, jstr(error_text(e)))],
        ),
    }
    &&& actions[1] matches LoopAction::Push(
        OrchestratorMessage::ToolExecuted { tool, status, duration_ms: d },
    ) && tool@ == name@ && d == duration_ms && status@ == match result {
        Ok(t) => match t.status {
            ToolStatus::Success => "success"@,
            ToolStatus::Error => "error"@,
        },
        Err(_) => "error"@,
    }
    &&& stored.len() > 0 ==> (actions[2] matches LoopAction::StoreResults(es) && es@.len()
        == stored.len() && forall|k: int|
        0 <= k < es@.len() ==> {
            &&& search_entry(#[trigger] es@[k], stored[k], name@, json_get_str(args@, "query"@)->0)
            &&& es@[k].timestamp == at.seconds()
        })
}

/// The actions for a model reply, after which the loop is in `after`:
/// first the reply's block actions; then, when no tool was called, the task
/// completes with the last text; otherwise the reply stays open until its
/// tool calls are done and reported.
pub open spec fn handles_reply(
    before: LoopState,
    after: LoopState,
    blocks: Seq<ContentBlock>,
    actions: Seq<LoopAction>,
) -> bool {
    let acts = block_actions(blocks);
    &&& after.task() == before.task()
    &&& after.max_rounds() == before.max_rounds()
    &&& after.round_count() == next_round(before.round_count())
    &&& after.last_said() == last_text_of(before.last_said(), acts)
    &&& actions.len() >= 2
    &&& actions[0] matches LoopAction::Respond(v) && v@ == acts
    &&& if !calls_tool(blocks) {
        &&& after.done()
        &&& !after.open_reply()
        &&& actions.len() == 3
        &&& reports_completed(actions[1], before.task())
        &&& finishes_with(actions[2], after.last_said())
    } else {
        &&& !after.done()
        &&& after.open_reply()
        &&& actions.len() == 2
        &&& actions[1] is CloseReply
    }
}

/// The actions once a reply that called tools has been carried out: when
/// the rounds have reached the limit, a warning is sent and the task
/// completes with the last text; otherwise the next round starts. Without an
/// open reply nothing happens.
pub open spec fn handles_reply_done(before: LoopState, after: LoopState, actions: Seq<LoopAction>) -> bool {
    if !before.open_reply() {
        after == before && actions.len() == 0
    } else {
        &&& after.task() == before.task()
        &&& after.max_rounds() == before.max_rounds()
        &&& after.round_count() == before.round_count()
        &&& after.last_said() == before.last_said()
        &&& !after.open_reply()
        &&& if before.round_count() >= before.max_rounds() {
            &&& after.done()
            &&& actions.len() == 3
            &&& actions[0] matches LoopAction::Push(OrchestratorMessage::Warning(w)) && w@
                == "Max tool rounds ("@ + decimal_text(before.max_rounds() as nat) + ") reached"@
            &&& reports_completed(actions[1], before.task())
            &&& finishes_with(actions[2], before.last_said())
        } else {
            &&& !after.done()
            &&& actions.len() == 1
            &&& actions[0] is CallModel
        }
    }
}

/// What one step of the loop does with an event in the state `before`.
pub open spec fn loop_step_spec(
    before: LoopState,
    after: LoopState,
    event: LoopEvent,
    actions: Seq<LoopAction>,
) -> bool {
    if before.done() {
        after == before && actions.len() == 0
    } else {
        match event {
            LoopEvent::Start(prompt) => {
                &&& after == before
                &&& actions.len() == 3
                &&& adds_user(actions[0], prompt@)
                &&& actions[1] matches LoopAction::Push(
                    OrchestratorMessage::TaskStarted { task_id, description },
                ) && task_id@ == before.task() && description@ == prompt@
                &&& actions[2] is CallModel
            },
            LoopEvent::Interrupt(UserInterrupt::NewMessage(m)) => {
                &&& after == before
                &&& actions.len() == 1
                &&& adds_user(actions[0], m@)
            },
            LoopEvent::Interrupt(UserInterrupt::EditPlan(c)) => {
                &&& after == before
                &&& actions.len() == 1
                &&& adds_user(actions[0], "[Plan Edit]: "@ + c@)
            },
            LoopEvent::Interrupt(UserInterrupt::Cancel) => {
                &&& ends(before, after)
                &&& actions.len() == 3
                &&& actions[0] matches LoopAction::Push(OrchestratorMessage::TaskCancelled)
                &&& reports_completed(actions[1], before.task())
                &&& finishes_with(actions[2], "Task cancelled by user."@)
            },
            LoopEvent::Compacted { before: b, after: a } => {
                &&& after == before
                &&& actions.len() == 1
                &&& actions[0] matches LoopAction::Push(
                    OrchestratorMessage::ContextCompacted { before: b2, after: a2 },
                ) && b2 == b && a2 == a
            },
            LoopEvent::Inbound(msg) => {
                &&& after == before
                &&& actions.len() >= 1
                &&& actions.last() is CallModel
                &&& handles_inbound(msg, actions.drop_last())
            },
            LoopEvent::AskInterrupted(msg) => {
                &&& after == before
                &&& handles_inbound(msg, actions)
            },
            LoopEvent::InferenceFailed(m) => {
                &&& ends(before, after)
                &&& actions.len() == 3
                &&& actions[0] is SaveState
                &&& actions[1] matches LoopAction::Push(OrchestratorMessage::Error(t)) && t@
                    == error_text(AgentError::InferenceFailed(m))
                &&& actions[2] matches LoopAction::Finish(Err(AgentError::InferenceFailed(e)))
                    && e@ == m@
            },
            LoopEvent::Reply(blocks) => handles_reply(before, after, blocks@, actions),
            LoopEvent::ReplyDone => handles_reply_done(before, after, actions),
            LoopEvent::ToolDone { id, name, args, result, duration_ms, at } => {
                &&& after == before
                &&& handles_tool_done(id, name, args, result, duration_ms, at, actions)
            },
        }
    }
}

fn completion(task_id: &String, output: String) -> (v: Vec<LoopAction>)
    ensures
        v@.len() == 2,
        reports_completed(v@[0], task_id@),
        finishes_with(v@[1], output@),
{
    let mut v: Vec<LoopAction> = Vec::new();
    v.push(
        LoopAction::Push(
            OrchestratorMessage::TaskCompleted { task_id: task_id.clone(), output_path: None },
        ),
    );
    v.push(LoopAction::Finish(Ok(output)));
    v
}

fn inbound_actions(msg: OrchestratorMessage) -> (v: Vec<LoopAction>)
    ensures
        handles_inbound(msg, v@),
{
    let mut v: Vec<LoopAction> = Vec::new();
    match crate::agent::inbound_action(msg) {
        crate::agent::InboundAction::AddUserMessage(t) => v.push(LoopAction::AddUserMessage(t)),
        crate::agent::InboundAction::ReportCancelled => v.push(
            LoopAction::Push(OrchestratorMessage::TaskCancelled),
        ),
        crate::agent::InboundAction::Ignore => {},
    }
    v
}

fn last_text_after(prev: &String, acts: &Vec<BlockAction>) -> (s: String)
    ensures
        s@ == last_text_of(prev@, acts@),
{
    let mut s = prev.clone();
    let mut i: usize = 0;
    while i < acts.len()
        invariant
            i <= acts.len(),
            s@ == last_text_of(prev@, acts@.take(i as int)),
        decreases acts.len() - i,
    {
        proof {
            assert(acts@.take(i + 1).drop_last() =~= acts@.take(i as int));
            assert(acts@.take(i + 1).last() == acts@[i as int]);
        }
        match &acts[i] {
            BlockAction::AssistantText(t) => {
                s = t.clone();
            },
            _ => {},
        }
        i = i + 1;
    }
    assert(acts@.take(acts.len() as int) =~= acts@);
    s
}

fn reply_step(state: &mut LoopState, blocks: Vec<ContentBlock>) -> (actions: Vec<LoopAction>)
    requires
        !old(state).done(),
    ensures
        handles_reply(*old(state), *final(state), blocks@, actions@),
{
    let ghost all = blocks@;
    let (acts, calls) = response_actions(blocks);
    let last = last_text_after(&state.last_text, &acts);
    state.last_text = last;
    if state.rounds < usize::MAX {
        state.rounds = state.rounds + 1;
    }
    let mut actions: Vec<LoopAction> = Vec::new();
    actions.push(LoopAction::Respond(acts));
    if !calls {
        state.finished = true;
        state.reply_open = false;
        let mut tail = completion(&state.task_id, state.last_text.clone());
        actions.append(&mut tail);
    } else {
        state.reply_open = true;
        actions.push(LoopAction::CloseReply);
    }
    proof {
        assert(all == blocks@);
    }
    actions
}

fn reply_done_step(state: &mut LoopState) -> (actions: Vec<LoopAction>)
    requires
        !old(state).done(),
    ensures
        handles_reply_done(*old(state), *final(state), actions@),
{
    let mut actions: Vec<LoopAction> = Vec::new();
    if !state.reply_open {
        return actions;
    }
    state.reply_open = false;
    if state.rounds >= state.max_tool_rounds {
        state.finished = true;
        actions.push(
            LoopAction::Push(OrchestratorMessage::Warning(max_rounds_warning(state.max_tool_rounds))),
        );
        let mut tail = completion(&state.task_id, state.last_text.clone());
        actions.append(&mut tail);
    } else {
        actions.push(LoopAction::CallModel);
    }
    actions
}

fn tool_done_step(
    id: String,
    name: String,
    args: JsonValue,
    result: Result<ToolResult, AgentError>,
    duration_ms: u64,
    at: Timestamp,
) -> (actions: Vec<LoopAction>)
    ensures
        handles_tool_done(id, name, args, result, duration_ms, at, actions@),
{
    let ghost result0 = result;
    let ghost id0 = id;
    let report = tool_executed(name.as_str(), &result, duration_ms);
    let store = stores_results(name.as_str(), &result);
    let entries = match &result {
        Ok(r) => if store {
            search_entries(name.as_str(), &args, &r.data, at)
        } else {
            Vec::new()
        },
        Err(_) => Vec::new(),
    };
    let payload = match result {
        Ok(r) => ToolPayload::Result(r),
        Err(e) => ToolPayload::Failure(tool_failure_payload(&e)),
    };
    let mut actions: Vec<LoopAction> = Vec::new();
    actions.push(LoopAction::AddToolResult { id, payload });
    actions.push(LoopAction::Push(report));
    if entries.len() > 0 {
        actions.push(LoopAction::StoreResults(entries));
    }
    proof {
        assert(result0 == result);
        assert(id0 == id);
    }
    actions
}

/// Perform one step of the loop: the actions for `event`, in the order the
/// caller performs them. Once the task is over, events change nothing.
pub fn loop_step(state: &mut LoopState, event: LoopEvent) -> (actions: Vec<LoopAction>)
    ensures
        loop_step_spec(*old(state), *final(state), event, actions@),
{
    let mut actions: Vec<LoopAction> = Vec::new();
    if state.finished {
        return actions;
    }
    match event {
        LoopEvent::Start(prompt) => {
            let description = prompt.clone();
            actions.push(LoopAction::AddUserMessage(prompt));
            actions.push(
                LoopAction::Push(
                    OrchestratorMessage::TaskStarted { task_id: state.task_id.clone(), description },
                ),
            );
            actions.push(LoopAction::CallModel);
        },
        LoopEvent::Interrupt(UserInterrupt::Cancel) => {
            state.finished = true;
            actions.push(LoopAction::Push(OrchestratorMessage::TaskCancelled));
            let mut tail = completion(&state.task_id, cancellation_output());
            actions.append(&mut tail);
        },
        LoopEvent::Interrupt(interrupt) => {
            match crate::agent::interrupt_action(interrupt) {
                crate::agent::InterruptAction::AddUserMessage(t) => actions.push(
                    LoopAction::AddUserMessage(t),
                ),
                crate::agent::InterruptAction::Cancel => {},
            }
        },
        LoopEvent::Compacted { before, after } => {
            actions.push(
                LoopAction::Push(OrchestratorMessage::ContextCompacted { before, after }),
            );
        },
        LoopEvent::Inbound(msg) => {
            actions = inbound_actions(msg);
            let ghost handled = actions@;
            actions.push(LoopAction::CallModel);
            proof {
                assert(actions@.drop_last() =~= handled);
            }
        },
        LoopEvent::AskInterrupted(msg) => {
            actions = inbound_actions(msg);
        },
        LoopEvent::InferenceFailed(m) => {
            state.finished = true;
            let e = AgentError::InferenceFailed(m);
            actions.push(LoopAction::SaveState);
            actions.push(LoopAction::Push(OrchestratorMessage::Error(e.message())));
            actions.push(LoopAction::Finish(Err(e)));
        },
        LoopEvent::Reply(blocks) => {
            actions = reply_step(state, blocks);
        },
        LoopEvent::ReplyDone => {
            actions = reply_done_step(state);
        },
        LoopEvent::ToolDone { id, name, args, result, duration_ms, at } => {
            actions = tool_done_step(id, name, args, result, duration_ms, at);
        },
    }
    actions
}

/// Once the task is over, no event leads to any action, so no further model
/// call or tool run happens.
pub proof fn law_finished_task_stays_finished(
    before: LoopState,
    after: LoopState,
    event: LoopEvent,
    actions: Seq<LoopAction>,
)
    requires
        before.done(),
        loop_step_spec(before, after, event, actions),
    ensures
        after.done(),
        actions.len() == 0,
{
}

/// A cancel ends the task at once: no model call follows, and the task
/// finishes with the cancellation text.
pub proof fn law_cancel_ends_task(
    before: LoopState,
    after: LoopState,
    actions: Seq<LoopAction>,
)
    requires
        !before.done(),
        loop_step_spec(before, after, LoopEvent::Interrupt(UserInterrupt::Cancel), actions),
    ensures
        after.done(),
        forall|i: int| 0 <= i < actions.len() ==> !(#[trigger] actions[i] is CallModel),
        finishes_with(actions.last(), "Task cancelled by user."@),
{
}

/// A reply that calls tools never ends the task by itself: the task stays
/// open until the reply's tool calls are done and reported.
pub proof fn law_reply_with_tools_stays_open(
    before: LoopState,
    after: LoopState,
    blocks: Seq<ContentBlock>,
    actions: Seq<LoopAction>,
)
    requires
        !before.done(),
        calls_tool(blocks),
        handles_reply(before, after, blocks, actions),
    ensures
        !after.done(),
        after.open_reply(),
        forall|i: int| 0 <= i < actions.len() ==> !(#[trigger] actions[i] is Finish),
{
}

/// Every tool call of an open reply is recorded and reported, in the last
/// round as in any other: its output goes to the conversation and the
/// orchestrator hears of it, and the task stays open.
pub proof fn law_open_reply_records_tool_calls(
    before: LoopState,
    after: LoopState,
    id: String,
    name: String,
    args: JsonValue,
    result: Result<ToolResult, AgentError>,
    duration_ms: u64,
    at: Timestamp,
    actions: Seq<LoopAction>,
)
    requires
        !before.done(),
        loop_step_spec(
            before,
            after,
            LoopEvent::ToolDone { id, name, args, result, duration_ms, at },
            actions,
        ),
    ensures
        after == before,
        actions.len() >= 2,
        actions[0] matches LoopAction::AddToolResult { id: i, .. } && i == id,
        actions[1] matches LoopAction::Push(OrchestratorMessage::ToolExecuted { tool, .. })
            && tool@ == name@,
{
}

/// The text a block adds to the conversation: that of a non-empty text
/// block.
pub open spec fn said_text(b: ContentBlock) -> Option<Seq<char>> {
    match b {
        ContentBlock::Text { text } => if text@.len() > 0 {
            Some(text@)
        } else {
            None
        },
        _ => None,
    }
}

/// Block `i` is the last block of the reply that adds a text.
pub open spec fn is_last_said(blocks: Seq<ContentBlock>, i: int) -> bool {
    &&& 0 <= i < blocks.len()
    &&& said_text(blocks[i]) is Some
    &&& forall|j: int| i < j < blocks.len() ==> #[trigger] said_text(blocks[j]) is None
}

/// The last text among a reply's block actions is that of its last block
/// adding a text, or the earlier text when none does.
pub proof fn lemma_last_text_of_blocks(prev: Seq<char>, blocks: Seq<ContentBlock>)
    ensures
        (forall|j: int| 0 <= j < blocks.len() ==> #[trigger] said_text(blocks[j]) is None)
            ==> last_text_of(prev, block_actions(blocks)) == prev,
        forall|i: int|
            #[trigger] is_last_said(blocks, i) ==> last_text_of(prev, block_actions(blocks))
                == said_text(blocks[i])->0,
    decreases blocks.len(),
{
    if blocks.len() > 0 {
        let init = blocks.drop_last();
        let b = blocks.last();
        lemma_last_text_of_blocks(prev, init);
        let before = block_actions(init);
        assert forall|j: int| 0 <= j < init.len() implies #[trigger] init[j] == blocks[j] by {}
        match b {
            ContentBlock::Text { text } => {
                if text@.len() == 0 {
                    assert forall|i: int| #[trigger] is_last_said(blocks, i) implies is_last_said(
                        init,
                        i,
                    ) by {
                        assert(i != blocks.len() - 1);
                        assert forall|j: int| i < j < init.len() implies #[trigger] said_text(
                            init[j],
                        ) is None by {
                            assert(said_text(blocks[j]) is None);
                        }
                    }
                } else {
                    assert forall|i: int| #[trigger] is_last_said(blocks, i) implies i
                        == blocks.len() - 1 by {
                        if i < blocks.len() - 1 {
                            assert(said_text(blocks[blocks.len() - 1]) is None);
                        }
                    }
                }
            },
            ContentBlock::ToolCall { id, name, arguments } => {
                let acts = block_actions(blocks);
                assert(acts.drop_last() =~= before);
                assert forall|i: int| #[trigger] is_last_said(blocks, i) implies is_last_said(
                    init,
                    i,
                ) by {
                    assert(i != blocks.len() - 1);
                    assert forall|j: int| i < j < init.len() implies #[trigger] said_text(
                        init[j],
                    ) is None by {
                        assert(said_text(blocks[j]) is None);
                    }
                }
                if forall|j: int| 0 <= j < blocks.len() ==> #[trigger] said_text(blocks[j]) is None {
                    assert forall|j: int| 0 <= j < init.len() implies #[trigger] said_text(
                        init[j],
                    ) is None by {
                        assert(said_text(blocks[j]) is None);
                    }
                }
            },
        }
        if forall|j: int| 0 <= j < blocks.len() ==> #[trigger] said_text(blocks[j]) is None {
            assert forall|j: int| 0 <= j < init.len() implies #[trigger] said_text(init[j]) is None by {
                assert(said_text(blocks[j]) is None);
            }
        }
    }
}

/// The task's output is the model's last text: after any reply the
/// remembered text is the last text the reply added, or the earlier one
/// when it added none; and a reply that calls no tool ends the task with
/// that text.
pub proof fn law_output_is_last_reply_text(
    before: LoopState,
    after: LoopState,
    blocks: Vec<ContentBlock>,
    actions: Seq<LoopAction>,
)
    requires
        !before.done(),
        loop_step_spec(before, after, LoopEvent::Reply(blocks), actions),
    ensures
        forall|i: int|
            #[trigger] is_last_said(blocks@, i) ==> after.last_said() == said_text(blocks@[i])->0,
        (forall|j: int| 0 <= j < blocks@.len() ==> #[trigger] said_text(blocks@[j]) is None)
            ==> after.last_said() == before.last_said(),
        !calls_tool(blocks@) ==> finishes_with(actions.last(), after.last_said()),
{
    lemma_last_text_of_blocks(before.last_said(), blocks@);
}

} // verus!

