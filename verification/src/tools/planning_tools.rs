//! Planning tools: create_plan, update_plan_step, list_plans, get_plan.
//!
//! Each tool validates its JSON arguments, works on plans through the plan
//! manager, and builds its JSON result. Reading and writing plan files happen
//! between those steps and are the caller's part.
use vstd::prelude::*;
use crate::error::{AgentError, error_text};
use crate::json::{
    Json, JsonValue, Num, collect_strings, entries_view, items_view, jnat, json_get,
    json_get_str, jstr, push_entry, push_item, string_items,
};
use crate::planning::{
    PlanManager, joined_path, plan_file_name, plan_markdown, plan_status_name, plan_status_text,
    step_status_name, step_status_text, step_update_outcome,
};
use crate::planning::types::{
    Plan, PlanStatus, PlanStep, StepStatus, is_uuid_v4_text, text_opt, uuid_v4_text,
};
use crate::time::Timestamp;
use super::{ToolResult, err_with, is_err_result, is_ok_result};

verus! {

// ---------------------------------------------------------------------------
// Shared pieces
// ---------------------------------------------------------------------------

/// The result of a plan that could not be loaded.
pub fn plan_load_failed(e: &AgentError) -> (r: ToolResult)
    ensures
        is_err_result(r, "Failed to load plan: "@ + error_text(*e)),
{
    err_with("Failed to load plan: ", e.message().as_str())
}

/// `steps` are the steps of a new plan made from these descriptions.
pub open spec fn fresh_steps(steps: Seq<PlanStep>, descriptions: Seq<Seq<char>>) -> bool {
    &&& steps.len() == descriptions.len()
    &&& forall|i: int|
        0 <= i < steps.len() ==> {
            &&& #[trigger] steps[i].number == i + 1
            &&& steps[i].description@ == descriptions[i]
            &&& steps[i].status == StepStatus::Pending
            &&& steps[i].result is None
        }
}

// ---------------------------------------------------------------------------
// CreatePlanTool
// ---------------------------------------------------------------------------

/// Creates plans for one task.
#[derive(Debug)]
pub struct CreatePlanTool {
    plan_manager: PlanManager,
    task_id: String,
}

/// The title and step descriptions that create_plan's arguments ask for, or
/// the message that rejects them.
pub open spec fn create_plan_request(args: Json) -> Result<(Seq<char>, Seq<Seq<char>>), Seq<char>> {
    match json_get_str(args, "title"@) {
        None => Err("Missing required parameter 'title'"@),
        Some(title) => match json_get(args, "steps"@) {
            Some(Json::Arr(items)) => if string_items(items).len() == 0 {
                Err("Plan must have at least one step"@)
            } else {
                Ok((title, string_items(items)))
            },
            _ => Err("Missing required parameter 'steps' (must be an array)"@),
        },
    }
}

/// The data of a successfully created plan.
pub open spec fn created_plan_data(plan: Plan) -> Json {
    Json::Obj(
        seq![
            ("plan_id"@, jstr(plan.id@)),
            ("title"@, jstr(plan.title@)),
            ("step_count"@, jnat(plan.steps@.len() as u64)),
            ("file_path"@, jstr(plan.file_path@)),
            ("rendered"@, jstr(plan_markdown(plan))),
        ],
    )
}

impl CreatePlanTool {
    pub closed spec fn manager(self) -> PlanManager {
        self.plan_manager
    }

    pub closed spec fn task(self) -> Seq<char> {
        self.task_id@
    }

    pub fn new(plan_manager: PlanManager, task_id: String) -> (t: CreatePlanTool)
        ensures
            t.manager() == plan_manager,
            t.task() == task_id@,
    {
        CreatePlanTool { plan_manager, task_id }
    }

    /// The plan that the arguments ask for (not yet stored), or the error
    /// result that rejects them.
    pub fn prepare(&self, args: &JsonValue, random: [u8; 16], now: Timestamp) -> (r: Result<
        Plan,
        ToolResult,
    >)
        ensures
            match create_plan_request(args@) {
                Err(msg) => r matches Err(t) && is_err_result(t, msg),
                Ok((title, steps)) => r matches Ok(p) && {
                    &&& p.id@ == uuid_v4_text(random@)
                    &&& is_uuid_v4_text(p.id@)
                    &&& p.created_at == now
                    &&& p.updated_at == now
                    &&& p.task_id@ == self.task()
                    &&& p.title@ == title
                    &&& fresh_steps(p.steps@, steps)
                    &&& p.status == PlanStatus::Draft
                    &&& p.file_path@ == joined_path(self.manager().dir(), plan_file_name(p))
                },
            },
    {
        let title = match args.get("title") {
            Some(v) => match v.as_str() {
                Some(t) => t,
                None => {
                    return Err(ToolResult::err(String::from_str("Missing required parameter 'title'")));
                },
            },
            None => {
                return Err(ToolResult::err(String::from_str("Missing required parameter 'title'")));
            },
        };
        let steps = match args.get("steps") {
            Some(v) => match v.as_array() {
                Some(items) => collect_strings(items),
                None => {
                    return Err(
                        ToolResult::err(
                            String::from_str(
                                "Missing required parameter 'steps' (must be an array)",
                            ),
                        ),
                    );
                },
            },
            None => {
                return Err(
                    ToolResult::err(
                        String::from_str("Missing required parameter 'steps' (must be an array)"),
                    ),
                );
            },
        };
        if steps.len() == 0 {
            return Err(ToolResult::err(String::from_str("Plan must have at least one step")));
        }
        let ghost descriptions = steps@;
        let plan = self.plan_manager.create_plan(self.task_id.as_str(), title, steps, random, now);
        proof {
            assert forall|i: int| 0 <= i < plan.steps@.len() implies #[trigger] plan.steps@[i].description@
                == descriptions.map_values(|s: String| s@)[i] by {}
        }
        Ok(plan)
    }

    /// The result of creating `plan`, once storing it has given `saved`.
    pub fn finish(&self, plan: &Plan, saved: Result<(), AgentError>) -> (r: ToolResult)
        ensures
            match saved {
                Ok(_) => is_ok_result(r, created_plan_data(*plan)),
                Err(e) => is_err_result(r, "Failed to create plan: "@ + error_text(e)),
            },
    {
        match saved {
            Ok(()) => {
                let rendered = self.plan_manager.render_markdown(plan);
                let mut o: Vec<(String, JsonValue)> = Vec::new();
                push_entry(&mut o, "plan_id", JsonValue::text(plan.id.as_str()));
                push_entry(&mut o, "title", JsonValue::text(plan.title.as_str()));
                push_entry(&mut o, "step_count", JsonValue::count(plan.steps.len()));
                push_entry(&mut o, "file_path", JsonValue::text(plan.file_path.as_str()));
                push_entry(&mut o, "rendered", JsonValue::String(rendered));
                assert(entries_view(o@) =~= seq![
                    ("plan_id"@, jstr(plan.id@)),
                    ("title"@, jstr(plan.title@)),
                    ("step_count"@, jnat(plan.steps@.len() as u64)),
                    ("file_path"@, jstr(plan.file_path@)),
                    ("rendered"@, jstr(plan_markdown(*plan))),
                ]);
                ToolResult::ok(JsonValue::Object(o))
            },
            Err(e) => err_with("Failed to create plan: ", e.message().as_str()),
        }
    }
}

} // verus!

verus! {

// ---------------------------------------------------------------------------
// UpdatePlanStepTool
// ---------------------------------------------------------------------------

/// Updates the status of a step in a stored plan.
#[derive(Debug)]
pub struct UpdatePlanStepTool {
    plan_manager: PlanManager,
}

/// A validated request to update a step.
#[derive(Debug)]
pub struct StepUpdate {
    pub plan_file_path: String,
    pub step_number: usize,
    pub status: StepStatus,
    pub status_text: String,
    pub result: Option<String>,
}

/// The step status that update_plan_step's `status` text names.
pub open spec fn named_step_status(s: Seq<char>) -> Option<StepStatus> {
    if s == "in_progress"@ {
        Some(StepStatus::InProgress)
    } else if s == "completed"@ {
        Some(StepStatus::Completed)
    } else if s == "failed"@ {
        Some(StepStatus::Failed)
    } else if s == "skipped"@ {
        Some(StepStatus::Skipped)
    } else {
        None
    }
}

/// The request that update_plan_step's arguments make (file path, step
/// number, status, status text, result text), or the message that rejects
/// them.
pub open spec fn step_update_request(args: Json) -> Result<
    (Seq<char>, usize, StepStatus, Seq<char>, Option<Seq<char>>),
    Seq<char>,
> {
    match json_get_str(args, "plan_file_path"@) {
        None => Err("Missing required parameter 'plan_file_path'"@),
        Some(path) => match json_get(args, "step_number"@) {
            Some(Json::Num(Num::PosInt(n))) => match json_get_str(args, "status"@) {
                None => Err("Missing required parameter 'status'"@),
                Some(s) => match named_step_status(s) {
                    None => Err(
                        "Unknown status: '"@ + s
                            + "'. Use: in_progress, completed, failed, skipped"@,
                    ),
                    Some(status) => Ok((path, n as usize, status, s, json_get_str(args, "result"@))),
                },
            },
            _ => Err("Missing required parameter 'step_number'"@),
        },
    }
}

/// `req` is the request `(path, number, status, text, result)`.
pub open spec fn is_step_update(
    req: StepUpdate,
    want: (Seq<char>, usize, StepStatus, Seq<char>, Option<Seq<char>>),
) -> bool {
    &&& req.plan_file_path@ == want.0
    &&& req.step_number == want.1
    &&& req.status == want.2
    &&& req.status_text@ == want.3
    &&& text_opt(req.result) == want.4
}

/// The data of a successful step update.
pub open spec fn updated_step_data(req: StepUpdate, plan: Plan) -> Json {
    Json::Obj(
        seq![
            ("plan_id"@, jstr(plan.id@)),
            ("step_number"@, jnat(req.step_number as u64)),
            ("status"@, jstr(req.status_text@)),
            ("plan_status"@, jstr(plan_status_name(plan.status))),
            ("rendered"@, jstr(plan_markdown(plan))),
        ],
    )
}

fn text_member(args: &JsonValue, key: &str) -> (r: Option<String>)
    ensures
        text_opt(r) == json_get_str(args@, key@),
{
    match args.get(key) {
        Some(v) => match v.as_str() {
            Some(s) => Some(String::from_str(s)),
            None => None,
        },
        None => None,
    }
}

impl UpdatePlanStepTool {
    pub closed spec fn manager(self) -> PlanManager {
        self.plan_manager
    }

    pub fn new(plan_manager: PlanManager) -> (t: UpdatePlanStepTool)
        ensures
            t.manager() == plan_manager,
    {
        UpdatePlanStepTool { plan_manager }
    }

    /// The request that the arguments make, or the error result that
    /// rejects them.
    pub fn request(args: &JsonValue) -> (r: Result<StepUpdate, ToolResult>)
        ensures
            match step_update_request(args@) {
                Err(msg) => r matches Err(t) && is_err_result(t, msg),
                Ok(want) => r matches Ok(req) && is_step_update(req, want),
            },
    {
        let plan_file_path = match text_member(args, "plan_file_path") {
            Some(p) => p,
            None => {
                return Err(
                    ToolResult::err(String::from_str("Missing required parameter 'plan_file_path'")),
                );
            },
        };
        let step_number = match args.get("step_number") {
            Some(v) => match v.as_u64() {
                Some(n) => n as usize,
                None => {
                    return Err(
                        ToolResult::err(String::from_str("Missing required parameter 'step_number'")),
                    );
                },
            },
            None => {
                return Err(
                    ToolResult::err(String::from_str("Missing required parameter 'step_number'")),
                );
            },
        };
        let status_text = match text_member(args, "status") {
            Some(s) => s,
            None => {
                return Err(ToolResult::err(String::from_str("Missing required parameter 'status'")));
            },
        };
        let status = if crate::text::same_text(status_text.as_str(), "in_progress") {
            StepStatus::InProgress
        } else if crate::text::same_text(status_text.as_str(), "completed") {
            StepStatus::Completed
        } else if crate::text::same_text(status_text.as_str(), "failed") {
            StepStatus::Failed
        } else if crate::text::same_text(status_text.as_str(), "skipped") {
            StepStatus::Skipped
        } else {
            let mut msg = String::from_str("Unknown status: '");
            msg.append(status_text.as_str());
            msg.append("'. Use: in_progress, completed, failed, skipped");
            return Err(ToolResult::err(msg));
        };
        let result = text_member(args, "result");
        Ok(StepUpdate { plan_file_path, step_number, status, status_text, result })
    }

    /// Apply the request to the loaded plan, as the plan manager's
    /// `update_step` does; the caller stores the plan when this succeeds.
    pub fn apply(&self, req: &StepUpdate, plan: &mut Plan, at: Timestamp) -> (r: Result<
        (),
        AgentError,
    >)
        ensures
            r is Ok ==> final(plan).updated_at == at,
            step_update_outcome(
                *old(plan),
                *final(plan),
                req.step_number,
                req.status,
                text_opt(req.result),
                r,
            ),
    {
        let result = match &req.result {
            Some(s) => Some(s.as_str()),
            None => None,
        };
        self.plan_manager.update_step(plan, req.step_number, req.status, result, at)
    }

    /// The result of the update, given the outcome of applying and storing it.
    pub fn finish(&self, req: &StepUpdate, plan: &Plan, outcome: Result<(), AgentError>) -> (r:
        ToolResult)
        ensures
            match outcome {
                Ok(_) => is_ok_result(r, updated_step_data(*req, *plan)),
                Err(e) => is_err_result(r, "Failed to update step: "@ + error_text(e)),
            },
    {
        match outcome {
            Ok(()) => {
                let rendered = self.plan_manager.render_markdown(plan);
                let mut o: Vec<(String, JsonValue)> = Vec::new();
                push_entry(&mut o, "plan_id", JsonValue::text(plan.id.as_str()));
                push_entry(&mut o, "step_number", JsonValue::count(req.step_number));
                push_entry(&mut o, "status", JsonValue::text(req.status_text.as_str()));
                push_entry(&mut o, "plan_status", JsonValue::text(plan_status_text(plan.status)));
                push_entry(&mut o, "rendered", JsonValue::String(rendered));
                assert(entries_view(o@) =~= seq![
                    ("plan_id"@, jstr(plan.id@)),
                    ("step_number"@, jnat(req.step_number as u64)),
                    ("status"@, jstr(req.status_text@)),
                    ("plan_status"@, jstr(plan_status_name(plan.status))),
                    ("rendered"@, jstr(plan_markdown(*plan))),
                ]);
                ToolResult::ok(JsonValue::Object(o))
            },
            Err(e) => err_with("Failed to update step: ", e.message().as_str()),
        }
    }
}

} // verus!

verus! {

// ---------------------------------------------------------------------------
// ListPlansTool
// ---------------------------------------------------------------------------

/// Lists the stored plans.
#[derive(Debug)]
pub struct ListPlansTool {
    plan_manager: PlanManager,
}

/// The summary of one listed plan.
pub open spec fn plan_summary(path: Seq<char>, plan: Plan) -> Json {
    Json::Obj(
        seq![
            ("plan_id"@, jstr(plan.id@)),
            ("title"@, jstr(plan.title@)),
            ("status"@, jstr(plan_status_name(plan.status))),
            ("steps"@, jnat(plan.steps@.len() as u64)),
            ("file_path"@, jstr(path)),
        ],
    )
}

/// The summaries of the plans that loaded, in listing order; plans that
/// failed to load are left out.
pub open spec fn plan_summaries(listing: Seq<(String, Result<Plan, AgentError>)>) -> Seq<Json>
    decreases listing.len(),
{
    if listing.len() == 0 {
        Seq::empty()
    } else {
        match listing.last().1 {
            Ok(plan) => plan_summaries(listing.drop_last()).push(
                plan_summary(listing.last().0@, plan),
            ),
            Err(_) => plan_summaries(listing.drop_last()),
        }
    }
}

/// The data of a listing: the number of plans and their summaries.
pub open spec fn listing_data(listing: Seq<(String, Result<Plan, AgentError>)>) -> Json {
    Json::Obj(
        seq![
            ("count"@, jnat(plan_summaries(listing).len() as u64)),
            ("plans"@, Json::Arr(plan_summaries(listing))),
        ],
    )
}

fn summarize_plan(path: &String, plan: &Plan) -> (v: JsonValue)
    ensures
        v@ == plan_summary(path@, *plan),
{
    let mut o: Vec<(String, JsonValue)> = Vec::new();
    push_entry(&mut o, "plan_id", JsonValue::text(plan.id.as_str()));
    push_entry(&mut o, "title", JsonValue::text(plan.title.as_str()));
    push_entry(&mut o, "status", JsonValue::text(plan_status_text(plan.status)));
    push_entry(&mut o, "steps", JsonValue::count(plan.steps.len()));
    push_entry(&mut o, "file_path", JsonValue::text(path.as_str()));
    assert(entries_view(o@) =~= seq![
        ("plan_id"@, jstr(plan.id@)),
        ("title"@, jstr(plan.title@)),
        ("status"@, jstr(plan_status_name(plan.status))),
        ("steps"@, jnat(plan.steps@.len() as u64)),
        ("file_path"@, jstr(path@)),
    ]);
    JsonValue::Object(o)
}

impl ListPlansTool {
    pub closed spec fn manager(self) -> PlanManager {
        self.plan_manager
    }

    pub fn new(plan_manager: PlanManager) -> (t: ListPlansTool)
        ensures
            t.manager() == plan_manager,
    {
        ListPlansTool { plan_manager }
    }

    /// The result of listing, given the listed paths each with the outcome
    /// of loading its plan, or the error of listing.
    pub fn summarize(&self, listing: Result<Vec<(String, Result<Plan, AgentError>)>, AgentError>) -> (r:
        ToolResult)
        ensures
            match listing {
                Ok(entries) => is_ok_result(r, listing_data(entries@)),
                Err(e) => is_err_result(r, "Failed to list plans: "@ + error_text(e)),
            },
    {
        match listing {
            Ok(entries) => {
                let mut plans: Vec<JsonValue> = Vec::new();
                let mut i: usize = 0;
                while i < entries.len()
                    invariant
                        i <= entries.len(),
                        items_view(plans@) == plan_summaries(entries@.take(i as int)),
                    decreases entries.len() - i,
                {
                    assert(entries@.take(i + 1).drop_last() =~= entries@.take(i as int));
                    assert(entries@.take(i + 1).last() == entries@[i as int]);
                    match &entries[i].1 {
                        Ok(plan) => {
                            push_item(&mut plans, summarize_plan(&entries[i].0, plan));
                        },
                        Err(_) => {},
                    }
                    i = i + 1;
                }
                assert(entries@.take(entries.len() as int) =~= entries@);
                proof {
                    crate::json::lemma_items_view(plans@);
                }
                let mut o: Vec<(String, JsonValue)> = Vec::new();
                push_entry(&mut o, "count", JsonValue::count(plans.len()));
                push_entry(&mut o, "plans", JsonValue::Array(plans));
                assert(entries_view(o@) =~= seq![
                    ("count"@, jnat(plan_summaries(entries@).len() as u64)),
                    ("plans"@, Json::Arr(plan_summaries(entries@))),
                ]);
                ToolResult::ok(JsonValue::Object(o))
            },
            Err(e) => err_with("Failed to list plans: ", e.message().as_str()),
        }
    }
}

// ---------------------------------------------------------------------------
// GetPlanTool
// ---------------------------------------------------------------------------

/// Loads and renders one stored plan.
#[derive(Debug)]
pub struct GetPlanTool {
    plan_manager: PlanManager,
}

/// The description of one step in get_plan's data.
pub open spec fn step_data(s: PlanStep) -> Json {
    Json::Obj(
        seq![
            ("number"@, jnat(s.number as u64)),
            ("description"@, jstr(s.description@)),
            ("status"@, jstr(step_status_name(s.status))),
            ("result"@, match s.result {
                Some(r) => jstr(r@),
                None => Json::Null,
            }),
        ],
    )
}

/// The descriptions of the steps, in order.
pub open spec fn steps_data(steps: Seq<PlanStep>) -> Seq<Json> {
    steps.map_values(|s: PlanStep| step_data(s))
}

/// The data of a loaded plan.
pub open spec fn plan_data(plan: Plan) -> Json {
    Json::Obj(
        seq![
            ("plan_id"@, jstr(plan.id@)),
            ("title"@, jstr(plan.title@)),
            ("status"@, jstr(plan_status_name(plan.status))),
            ("task_id"@, jstr(plan.task_id@)),
            ("steps"@, Json::Arr(steps_data(plan.steps@))),
            ("rendered"@, jstr(plan_markdown(plan))),
        ],
    )
}

fn describe_step(s: &PlanStep) -> (v: JsonValue)
    ensures
        v@ == step_data(*s),
{
    let result = match &s.result {
        Some(r) => JsonValue::text(r.as_str()),
        None => JsonValue::Null,
    };
    let mut o: Vec<(String, JsonValue)> = Vec::new();
    push_entry(&mut o, "number", JsonValue::count(s.number));
    push_entry(&mut o, "description", JsonValue::text(s.description.as_str()));
    push_entry(&mut o, "status", JsonValue::text(step_status_text(s.status)));
    push_entry(&mut o, "result", result);
    assert(entries_view(o@) =~= seq![
        ("number"@, jnat(s.number as u64)),
        ("description"@, jstr(s.description@)),
        ("status"@, jstr(step_status_name(s.status))),
        ("result"@, match s.result {
            Some(r) => jstr(r@),
            None => Json::Null,
        }),
    ]);
    JsonValue::Object(o)
}

impl GetPlanTool {
    pub closed spec fn manager(self) -> PlanManager {
        self.plan_manager
    }

    pub fn new(plan_manager: PlanManager) -> (t: GetPlanTool)
        ensures
            t.manager() == plan_manager,
    {
        GetPlanTool { plan_manager }
    }

    /// The file path that the arguments name, or the error result.
    pub fn request(args: &JsonValue) -> (r: Result<String, ToolResult>)
        ensures
            match json_get_str(args@, "plan_file_path"@) {
                Some(p) => r matches Ok(path) && path@ == p,
                None => r matches Err(t) && is_err_result(
                    t,
                    "Missing required parameter 'plan_file_path'"@,
                ),
            },
    {
        match text_member(args, "plan_file_path") {
            Some(p) => Ok(p),
            None => Err(
                ToolResult::err(String::from_str("Missing required parameter 'plan_file_path'")),
            ),
        }
    }

    /// The result for the outcome of loading the plan.
    pub fn finish(&self, loaded: Result<Plan, AgentError>) -> (r: ToolResult)
        ensures
            match loaded {
                Ok(plan) => is_ok_result(r, plan_data(plan)),
                Err(e) => is_err_result(r, "Failed to load plan: "@ + error_text(e)),
            },
    {
        match loaded {
            Ok(plan) => {
                let rendered = self.plan_manager.render_markdown(&plan);
                let mut steps: Vec<JsonValue> = Vec::new();
                let mut i: usize = 0;
                while i < plan.steps.len()
                    invariant
                        i <= plan.steps.len(),
                        items_view(steps@) == steps_data(plan.steps@.take(i as int)),
                    decreases plan.steps.len() - i,
                {
                    push_item(&mut steps, describe_step(&plan.steps[i]));
                    i = i + 1;
                    assert(steps_data(plan.steps@.take(i as int)) =~= steps_data(
                        plan.steps@.take(i - 1),
                    ).push(step_data(plan.steps@[i - 1])));
                }
                assert(plan.steps@.take(i as int) =~= plan.steps@);
                let mut o: Vec<(String, JsonValue)> = Vec::new();
                push_entry(&mut o, "plan_id", JsonValue::text(plan.id.as_str()));
                push_entry(&mut o, "title", JsonValue::text(plan.title.as_str()));
                push_entry(&mut o, "status", JsonValue::text(plan_status_text(plan.status)));
                push_entry(&mut o, "task_id", JsonValue::text(plan.task_id.as_str()));
                push_entry(&mut o, "steps", JsonValue::Array(steps));
                push_entry(&mut o, "rendered", JsonValue::String(rendered));
                assert(entries_view(o@) =~= seq![
                    ("plan_id"@, jstr(plan.id@)),
                    ("title"@, jstr(plan.title@)),
                    ("status"@, jstr(plan_status_name(plan.status))),
                    ("task_id"@, jstr(plan.task_id@)),
                    ("steps"@, Json::Arr(steps_data(plan.steps@))),
                    ("rendered"@, jstr(plan_markdown(plan))),
                ]);
                ToolResult::ok(JsonValue::Object(o))
            },
            Err(e) => plan_load_failed(&e),
        }
    }
}

} // verus!

verus! {

/// The parameters that the create_plan tool accepts, as JSON Schema.
pub open spec fn create_plan_tool_schema() -> Json {
    Json::Obj(seq![("type"@, jstr("object"@)), ("properties"@, Json::Obj(seq![("title"@, Json::Obj(seq![("type"@, jstr("string"@)), ("description"@, jstr("The plan title."@))])), ("steps"@, Json::Obj(seq![("type"@, jstr("array"@)), ("items"@, Json::Obj(seq![("type"@, jstr("string"@))])), ("description"@, jstr("Ordered list of step descriptions."@))]))])), ("required"@, Json::Arr(seq![jstr("title"@), jstr("steps"@)]))])
}

impl CreatePlanTool {
    /// The tool's machine-readable name.
    pub fn name(&self) -> (s: &'static str)
        ensures
            s@ == "create_plan"@,
    {
        "create_plan"
    }

    /// The description the model reads to decide when to call the tool.
    pub fn description(&self) -> (s: &'static str)
        ensures
            s@ == "Create a new execution plan with a list of steps. Returns the plan ID and rendered markdown."@,
    {
        "Create a new execution plan with a list of steps. Returns the plan ID and rendered markdown."
    }

    /// The parameters the tool accepts, as JSON Schema.
    pub fn parameters_schema(&self) -> (v: JsonValue)
        ensures
            v@ == create_plan_tool_schema(),
    {
        let mut v1: Vec<(String, JsonValue)> = Vec::new();
        push_entry(&mut v1, "type", JsonValue::text("object"));
        let mut v2: Vec<(String, JsonValue)> = Vec::new();
        let mut v3: Vec<(String, JsonValue)> = Vec::new();
        push_entry(&mut v3, "type", JsonValue::text("string"));
        push_entry(&mut v3, "description", JsonValue::text("The plan title."));
        assert(entries_view(v3@) =~= seq![("type"@, jstr("string"@)), ("description"@, jstr("The plan title."@))]);
        push_entry(&mut v2, "title", JsonValue::Object(v3));
        let mut v4: Vec<(String, JsonValue)> = Vec::new();
        push_entry(&mut v4, "type", JsonValue::text("array"));
        let mut v5: Vec<(String, JsonValue)> = Vec::new();
        push_entry(&mut v5, "type", JsonValue::text("string"));
        assert(entries_view(v5@) =~= seq![("type"@, jstr("string"@))]);
        push_entry(&mut v4, "items", JsonValue::Object(v5));
        push_entry(&mut v4, "description", JsonValue::text("Ordered list of step descriptions."));
        assert(entries_view(v4@) =~= seq![("type"@, jstr("array"@)), ("items"@, Json::Obj(seq![("type"@, jstr("string"@))])), ("description"@, jstr("Ordered list of step descriptions."@))]);
        push_entry(&mut v2, "steps", JsonValue::Object(v4));
        assert(entries_view(v2@) =~= seq![("title"@, Json::Obj(seq![("type"@, jstr("string"@)), ("description"@, jstr("The plan title."@))])), ("steps"@, Json::Obj(seq![("type"@, jstr("array"@)), ("items"@, Json::Obj(seq![("type"@, jstr("string"@))])), ("description"@, jstr("Ordered list of step descriptions."@))]))]);
        push_entry(&mut v1, "properties", JsonValue::Object(v2));
        let mut v6: Vec<JsonValue> = Vec::new();
        push_item(&mut v6, JsonValue::text("title"));
        push_item(&mut v6, JsonValue::text("steps"));
        assert(items_view(v6@) =~= seq![jstr("title"@), jstr("steps"@)]);
        push_entry(&mut v1, "required", JsonValue::Array(v6));
        assert(entries_view(v1@) =~= seq![("type"@, jstr("object"@)), ("properties"@, Json::Obj(seq![("title"@, Json::Obj(seq![("type"@, jstr("string"@)), ("description"@, jstr("The plan title."@))])), ("steps"@, Json::Obj(seq![("type"@, jstr("array"@)), ("items"@, Json::Obj(seq![("type"@, jstr("string"@))])), ("description"@, jstr("Ordered list of step descriptions."@))]))])), ("required"@, Json::Arr(seq![jstr("title"@), jstr("steps"@)]))]);
        JsonValue::Object(v1)
    }
}

/// The parameters that the update_plan_step tool accepts, as JSON Schema.
pub open spec fn update_plan_step_tool_schema() -> Json {
    Json::Obj(seq![("type"@, jstr("object"@)), ("properties"@, Json::Obj(seq![("plan_file_path"@, Json::Obj(seq![("type"@, jstr("string"@)), ("description"@, jstr("The file path of the plan to update."@))])), ("step_number"@, Json::Obj(seq![("type"@, jstr("integer"@)), ("description"@, jstr("The step number (1-indexed)."@))])), ("status"@, Json::Obj(seq![("type"@, jstr("string"@)), ("enum"@, Json::Arr(seq![jstr("in_progress"@), jstr("completed"@), jstr("failed"@), jstr("skipped"@)])), ("description"@, jstr("The new status for the step."@))])), ("result"@, Json::Obj(seq![("type"@, jstr("string"@)), ("description"@, jstr("Optional result description for completed/failed steps."@))]))])), ("required"@, Json::Arr(seq![jstr("plan_file_path"@), jstr("step_number"@), jstr("status"@)]))])
}

impl UpdatePlanStepTool {
    /// The tool's machine-readable name.
    pub fn name(&self) -> (s: &'static str)
        ensures
            s@ == "update_plan_step"@,
    {
        "update_plan_step"
    }

    /// The description the model reads to decide when to call the tool.
    pub fn description(&self) -> (s: &'static str)
        ensures
            s@ == "Update the status of a step in an existing plan. Status can be: in_progress, completed, failed, skipped."@,
    {
        "Update the status of a step in an existing plan. Status can be: in_progress, completed, failed, skipped."
    }

    /// The parameters the tool accepts, as JSON Schema.
    pub fn parameters_schema(&self) -> (v: JsonValue)
        ensures
            v@ == update_plan_step_tool_schema(),
    {
        let mut v1: Vec<(String, JsonValue)> = Vec::new();
        push_entry(&mut v1, "type", JsonValue::text("object"));
        let mut v2: Vec<(String, JsonValue)> = Vec::new();
        let mut v3: Vec<(String, JsonValue)> = Vec::new();
        push_entry(&mut v3, "type", JsonValue::text("string"));
        push_entry(&mut v3, "description", JsonValue::text("The file path of the plan to update."));
        assert(entries_view(v3@) =~= seq![("type"@, jstr("string"@)), ("description"@, jstr("The file path of the plan to update."@))]);
        push_entry(&mut v2, "plan_file_path", JsonValue::Object(v3));
        let mut v4: Vec<(String, JsonValue)> = Vec::new();
        push_entry(&mut v4, "type", JsonValue::text("integer"));
        push_entry(&mut v4, "description", JsonValue::text("The step number (1-indexed)."));
        assert(entries_view(v4@) =~= seq![("type"@, jstr("integer"@)), ("description"@, jstr("The step number (1-indexed)."@))]);
        push_entry(&mut v2, "step_number", JsonValue::Object(v4));
        let mut v5: Vec<(String, JsonValue)> = Vec::new();
        push_entry(&mut v5, "type", JsonValue::text("string"));
        let mut v6: Vec<JsonValue> = Vec::new();
        push_item(&mut v6, JsonValue::text("in_progress"));
        push_item(&mut v6, JsonValue::text("completed"));
        push_item(&mut v6, JsonValue::text("failed"));
        push_item(&mut v6, JsonValue::text("skipped"));
        assert(items_view(v6@) =~= seq![jstr("in_progress"@), jstr("completed"@), jstr("failed"@), jstr("skipped"@)]);
        push_entry(&mut v5, "enum", JsonValue::Array(v6));
        push_entry(&mut v5, "description", JsonValue::text("The new status for the step."));
        assert(entries_view(v5@) =~= seq![("type"@, jstr("string"@)), ("enum"@, Json::Arr(seq![jstr("in_progress"@), jstr("completed"@), jstr("failed"@), jstr("skipped"@)])), ("description"@, jstr("The new status for the step."@))]);
        push_entry(&mut v2, "status", JsonValue::Object(v5));
        let mut v7: Vec<(String, JsonValue)> = Vec::new();
        push_entry(&mut v7, "type", JsonValue::text("string"));
        push_entry(&mut v7, "description", JsonValue::text("Optional result description for completed/failed steps."));
        assert(entries_view(v7@) =~= seq![("type"@, jstr("string"@)), ("description"@, jstr("Optional result description for completed/failed steps."@))]);
        push_entry(&mut v2, "result", JsonValue::Object(v7));
        assert(entries_view(v2@) =~= seq![("plan_file_path"@, Json::Obj(seq![("type"@, jstr("string"@)), ("description"@, jstr("The file path of the plan to update."@))])), ("step_number"@, Json::Obj(seq![("type"@, jstr("integer"@)), ("description"@, jstr("The step number (1-indexed)."@))])), ("status"@, Json::Obj(seq![("type"@, jstr("string"@)), ("enum"@, Json::Arr(seq![jstr("in_progress"@), jstr("completed"@), jstr("failed"@), jstr("skipped"@)])), ("description"@, jstr("The new status for the step."@))])), ("result"@, Json::Obj(seq![("type"@, jstr("string"@)), ("description"@, jstr("Optional result description for completed/failed steps."@))]))]);
        push_entry(&mut v1, "properties", JsonValue::Object(v2));
        let mut v8: Vec<JsonValue> = Vec::new();
        push_item(&mut v8, JsonValue::text("plan_file_path"));
        push_item(&mut v8, JsonValue::text("step_number"));
        push_item(&mut v8, JsonValue::text("status"));
        assert(items_view(v8@) =~= seq![jstr("plan_file_path"@), jstr("step_number"@), jstr("status"@)]);
        push_entry(&mut v1, "required", JsonValue::Array(v8));
        assert(entries_view(v1@) =~= seq![("type"@, jstr("object"@)), ("properties"@, Json::Obj(seq![("plan_file_path"@, Json::Obj(seq![("type"@, jstr("string"@)), ("description"@, jstr("The file path of the plan to update."@))])), ("step_number"@, Json::Obj(seq![("type"@, jstr("integer"@)), ("description"@, jstr("The step number (1-indexed)."@))])), ("status"@, Json::Obj(seq![("type"@, jstr("string"@)), ("enum"@, Json::Arr(seq![jstr("in_progress"@), jstr("completed"@), jstr("failed"@), jstr("skipped"@)])), ("description"@, jstr("The new status for the step."@))])), ("result"@, Json::Obj(seq![("type"@, jstr("string"@)), ("description"@, jstr("Optional result description for completed/failed steps."@))]))])), ("required"@, Json::Arr(seq![jstr("plan_file_path"@), jstr("step_number"@), jstr("status"@)]))]);
        JsonValue::Object(v1)
    }
}

/// The parameters that the list_plans tool accepts, as JSON Schema.
pub open spec fn list_plans_tool_schema() -> Json {
    Json::Obj(seq![("type"@, jstr("object"@)), ("properties"@, Json::Obj(Seq::empty()))])
}

impl ListPlansTool {
    /// The tool's machine-readable name.
    pub fn name(&self) -> (s: &'static str)
        ensures
            s@ == "list_plans"@,
    {
        "list_plans"
    }

    /// The description the model reads to decide when to call the tool.
    pub fn description(&self) -> (s: &'static str)
        ensures
            s@ == "List all existing plans in the plans directory."@,
    {
        "List all existing plans in the plans directory."
    }

    /// The parameters the tool accepts, as JSON Schema.
    pub fn parameters_schema(&self) -> (v: JsonValue)
        ensures
            v@ == list_plans_tool_schema(),
    {
        let mut v1: Vec<(String, JsonValue)> = Vec::new();
        push_entry(&mut v1, "type", JsonValue::text("object"));
        let mut v2: Vec<(String, JsonValue)> = Vec::new();
        assert(entries_view(v2@) =~= Seq::<(Seq<char>, Json)>::empty());
        push_entry(&mut v1, "properties", JsonValue::Object(v2));
        assert(entries_view(v1@) =~= seq![("type"@, jstr("object"@)), ("properties"@, Json::Obj(Seq::empty()))]);
        JsonValue::Object(v1)
    }
}

/// The parameters that the get_plan tool accepts, as JSON Schema.
pub open spec fn get_plan_tool_schema() -> Json {
    Json::Obj(seq![("type"@, jstr("object"@)), ("properties"@, Json::Obj(seq![("plan_file_path"@, Json::Obj(seq![("type"@, jstr("string"@)), ("description"@, jstr("The file path of the plan to load."@))]))])), ("required"@, Json::Arr(seq![jstr("plan_file_path"@)]))])
}

impl GetPlanTool {
    /// The tool's machine-readable name.
    pub fn name(&self) -> (s: &'static str)
        ensures
            s@ == "get_plan"@,
    {
        "get_plan"
    }

    /// The description the model reads to decide when to call the tool.
    pub fn description(&self) -> (s: &'static str)
        ensures
            s@ == "Load and render a specific plan by its file path."@,
    {
        "Load and render a specific plan by its file path."
    }

    /// The parameters the tool accepts, as JSON Schema.
    pub fn parameters_schema(&self) -> (v: JsonValue)
        ensures
            v@ == get_plan_tool_schema(),
    {
        let mut v1: Vec<(String, JsonValue)> = Vec::new();
        push_entry(&mut v1, "type", JsonValue::text("object"));
        let mut v2: Vec<(String, JsonValue)> = Vec::new();
        let mut v3: Vec<(String, JsonValue)> = Vec::new();
        push_entry(&mut v3, "type", JsonValue::text("string"));
        push_entry(&mut v3, "description", JsonValue::text("The file path of the plan to load."));
        assert(entries_view(v3@) =~= seq![("type"@, jstr("string"@)), ("description"@, jstr("The file path of the plan to load."@))]);
        push_entry(&mut v2, "plan_file_path", JsonValue::Object(v3));
        assert(entries_view(v2@) =~= seq![("plan_file_path"@, Json::Obj(seq![("type"@, jstr("string"@)), ("description"@, jstr("The file path of the plan to load."@))]))]);
        push_entry(&mut v1, "properties", JsonValue::Object(v2));
        let mut v4: Vec<JsonValue> = Vec::new();
        push_item(&mut v4, JsonValue::text("plan_file_path"));
        assert(items_view(v4@) =~= seq![jstr("plan_file_path"@)]);
        push_entry(&mut v1, "required", JsonValue::Array(v4));
        assert(entries_view(v1@) =~= seq![("type"@, jstr("object"@)), ("properties"@, Json::Obj(seq![("plan_file_path"@, Json::Obj(seq![("type"@, jstr("string"@)), ("description"@, jstr("The file path of the plan to load."@))]))])), ("required"@, Json::Arr(seq![jstr("plan_file_path"@)]))]);
        JsonValue::Object(v1)
    }
}

} // verus!

verus! {

/// The snake_case form of a name written in CamelCase: each capital letter
/// is lowered, and one after the first character gets an underscore before it.
pub open spec fn snake_case(name: Seq<char>) -> Seq<char>
    decreases name.len(),
{
    if name.len() == 0 {
        Seq::empty()
    } else {
        let c = name.last();
        let rest = snake_case(name.drop_last());
        if 'A' <= c && c <= 'Z' {
            let lower = ((c as u32) + 32) as char;
            if name.len() == 1 {
                seq![lower]
            } else {
                rest + seq!['_', lower]
            }
        } else {
            rest.push(c)
        }
    }
}

/// The status texts that update_plan_step accepts are exactly the
/// snake_case names of the statuses a step can be moved to (every status but
/// pending), and each names that status.
pub proof fn law_status_texts_name_their_status(t: Seq<char>, s: StepStatus)
    ensures
        named_step_status(t) == Some(s) <==> (s != StepStatus::Pending && t == snake_case(
            step_status_name(s),
        )),
{
    reveal_strlit("InProgress");
    reveal_strlit("Completed");
    reveal_strlit("Failed");
    reveal_strlit("Skipped");
    reveal_strlit("Pending");
    reveal_strlit("in_progress");
    reveal_strlit("completed");
    reveal_strlit("failed");
    reveal_strlit("skipped");
    assert(snake_case("InProgress"@) =~= "in_progress"@) by {
        reveal_with_fuel(snake_case, 11);
    }
    assert(snake_case("Completed"@) =~= "completed"@) by {
        reveal_with_fuel(snake_case, 10);
    }
    assert(snake_case("Failed"@) =~= "failed"@) by {
        reveal_with_fuel(snake_case, 7);
    }
    assert(snake_case("Skipped"@) =~= "skipped"@) by {
        reveal_with_fuel(snake_case, 8);
    }
    assert("in_progress"@ != "completed"@);
    assert("in_progress"@ != "failed"@);
    assert("in_progress"@ != "skipped"@);
    assert("completed"@ != "failed"@);
    assert("completed"@ != "skipped"@);
    assert("failed"@ != "skipped"@);
}

} // verus!

verus! {

/// The member `key` of the step entry at position `i` of an array.
pub open spec fn item_member(items: Seq<Json>, i: int, key: Seq<char>) -> Option<Json> {
    json_get(items[i], key)
}

/// get_plan reports every step of the plan, in order, each with its own
/// number, description and status name, and with its own result text (null
/// when it has none).
pub proof fn law_get_plan_reports_each_step(plan: Plan)
    ensures
        json_get(plan_data(plan), "steps"@) matches Some(Json::Arr(items)) && items.len()
            == plan.steps@.len() && forall|i: int|
            0 <= i < items.len() ==> {
                &&& #[trigger] item_member(items, i, "result"@) == Some(
                    match plan.steps@[i].result {
                        Some(r) => jstr(r@),
                        None => Json::Null,
                    },
                )
                &&& item_member(items, i, "number"@) == Some(jnat(plan.steps@[i].number as u64))
                &&& item_member(items, i, "description"@) == Some(
                    jstr(plan.steps@[i].description@),
                )
                &&& item_member(items, i, "status"@) == Some(
                    jstr(step_status_name(plan.steps@[i].status)),
                )
            },
{
    reveal_strlit("plan_id");
    reveal_strlit("title");
    reveal_strlit("status");
    reveal_strlit("task_id");
    reveal_strlit("steps");
    reveal_strlit("rendered");
    reveal_strlit("number");
    reveal_strlit("description");
    reveal_strlit("result");
    reveal_with_fuel(crate::json::entry_lookup, 6);
    let entries = seq![
        ("plan_id"@, jstr(plan.id@)),
        ("title"@, jstr(plan.title@)),
        ("status"@, jstr(plan_status_name(plan.status))),
        ("task_id"@, jstr(plan.task_id@)),
        ("steps"@, Json::Arr(steps_data(plan.steps@))),
        ("rendered"@, jstr(plan_markdown(plan))),
    ];
    assert(entries.drop_first()[0] == entries[1]);
    assert(crate::json::entry_lookup(entries, "steps"@) == Some(Json::Arr(steps_data(plan.steps@))))
        by {
        assert("plan_id"@[0] != "steps"@[0]);
        assert("title"@[0] != "steps"@[0]);
        assert(entries[0].0 != "steps"@);
        assert(entries[1].0 != "steps"@);
        assert("status"@[2] != "steps"@[2]);
        assert(entries[2].0 != "steps"@);
        assert(entries[3].0 != "steps"@);
        let e1 = entries.drop_first();
        let e2 = e1.drop_first();
        let e3 = e2.drop_first();
        let e4 = e3.drop_first();
        assert(e4[0] == entries[4]);
    }
    let items = steps_data(plan.steps@);
    assert forall|i: int| 0 <= i < items.len() implies {
        &&& #[trigger] item_member(items, i, "result"@) == Some(
            match plan.steps@[i].result {
                Some(r) => jstr(r@),
                None => Json::Null,
            },
        )
        &&& item_member(items, i, "number"@) == Some(jnat(plan.steps@[i].number as u64))
        &&& item_member(items, i, "description"@) == Some(jstr(plan.steps@[i].description@))
        &&& item_member(items, i, "status"@) == Some(jstr(step_status_name(plan.steps@[i].status)))
    } by {
        let s = plan.steps@[i];
        let m = seq![
            ("number"@, jnat(s.number as u64)),
            ("description"@, jstr(s.description@)),
            ("status"@, jstr(step_status_name(s.status))),
            ("result"@, match s.result {
                Some(r) => jstr(r@),
                None => Json::Null,
            }),
        ];
        assert(items[i] == Json::Obj(m));
        assert("number"@[0] != "result"@[0]);
        assert("description"@[0] != "result"@[0]);
        assert("status"@[0] != "result"@[0]);
        assert("number"@[0] != "description"@[0]);
        assert("number"@[0] != "status"@[0]);
        assert("description"@[0] != "status"@[0]);
        let m1 = m.drop_first();
        let m2 = m1.drop_first();
        let m3 = m2.drop_first();
        assert(m1[0] == m[1]);
        assert(m2[0] == m[2]);
        assert(m3[0] == m[3]);
    }
}

} // verus!
