use cascade_agent::error::AgentError;
use cascade_agent::json::{JsonNumber, JsonValue};
use cascade_agent::planning::types::{Plan, StepStatus};
use cascade_agent::planning::PlanManager;
use cascade_agent::time::Timestamp;
use cascade_agent::tools::planning_tools::{
    CreatePlanTool, GetPlanTool, ListPlansTool, UpdatePlanStepTool,
};
use cascade_agent::tools::{ToolRegistry, ToolResult, ToolStatus};

fn obj(entries: Vec<(&str, JsonValue)>) -> JsonValue {
    JsonValue::Object(entries.into_iter().map(|(k, v)| (k.to_string(), v)).collect())
}

fn s(v: &str) -> JsonValue {
    JsonValue::String(v.to_string())
}

fn member<'a>(v: &'a JsonValue, key: &str) -> &'a JsonValue {
    v.get(key).expect("member present")
}

fn error_of(r: &ToolResult) -> &str {
    assert_eq!(r.status, ToolStatus::Error);
    assert!(r.data.is_null());
    r.error.as_deref().unwrap()
}

fn now() -> Timestamp {
    Timestamp::from_unix(1_700_000_000, 0).unwrap()
}

fn fixed_plan() -> Plan {
    let t = Timestamp::from_unix(1_700_000_000, 0).unwrap();
    let mut p = Plan::assemble(
        "0123abcd-0000-4000-8000-000000000000".to_string(),
        "task",
        "Title",
        vec!["one".into(), "two".into()],
        t,
        t,
    );
    p.file_path = "plans/p.toml".into();
    p
}

#[test]
fn tool_result_constructors() {
    let ok = ToolResult::ok_string("hi".to_string());
    assert_eq!(ok.status, ToolStatus::Success);
    assert_eq!(ok.status_str(), "success");
    assert_eq!(ok.data.as_str(), Some("hi"));
    assert!(ok.error.is_none());
    let err = ToolResult::err("bad".to_string());
    assert_eq!(err.status_str(), "error");
    assert_eq!(error_of(&err), "bad");
}

#[test]
fn create_plan_rejects_missing_arguments() {
    let tool = CreatePlanTool::new(PlanManager::new("plans".into()), "task".into());
    let r = tool.prepare(&obj(vec![]), [7u8; 16], now()).unwrap_err();
    assert_eq!(error_of(&r), "Missing required parameter 'title'");
    let r = tool.prepare(&obj(vec![("title", s("T")), ("steps", s("x"))]), [7u8; 16], now()).unwrap_err();
    assert_eq!(error_of(&r), "Missing required parameter 'steps' (must be an array)");
    let r = tool
        .prepare(&obj(vec![("title", s("T")), ("steps", JsonValue::Array(vec![JsonValue::Null]))]), [7u8; 16], now())
        .unwrap_err();
    assert_eq!(error_of(&r), "Plan must have at least one step");
}

#[test]
fn create_plan_keeps_string_steps_only() {
    let tool = CreatePlanTool::new(PlanManager::new("plans".into()), "task-9".into());
    let args = obj(vec![
        ("title", s("My plan")),
        ("steps", JsonValue::Array(vec![s("a"), JsonValue::Bool(true), s("b")])),
    ]);
    let plan = tool.prepare(&args, [7u8; 16], now()).unwrap();
    assert_eq!(plan.title, "My plan");
    assert_eq!(plan.task_id, "task-9");
    assert_eq!(plan.steps.len(), 2);
    assert_eq!(plan.steps[1].description, "b");
    assert_eq!(plan.steps[1].number, 2);

    let r = tool.finish(&plan, Ok(()));
    assert_eq!(r.status, ToolStatus::Success);
    assert_eq!(member(&r.data, "plan_id").as_str(), Some(plan.id.as_str()));
    assert_eq!(member(&r.data, "step_count").as_u64(), Some(2));
    assert_eq!(member(&r.data, "file_path").as_str(), Some(plan.file_path.as_str()));
    assert!(member(&r.data, "rendered").as_str().unwrap().starts_with("# My plan\n\n"));

    let r = tool.finish(&plan, Err(AgentError::Io("disk full".into())));
    assert_eq!(error_of(&r), "Failed to create plan: IO error: disk full");
}

#[test]
fn update_step_request_validation() {
    let r = UpdatePlanStepTool::request(&obj(vec![])).unwrap_err();
    assert_eq!(error_of(&r), "Missing required parameter 'plan_file_path'");
    let r = UpdatePlanStepTool::request(&obj(vec![("plan_file_path", s("p"))])).unwrap_err();
    assert_eq!(error_of(&r), "Missing required parameter 'step_number'");
    let r = UpdatePlanStepTool::request(&obj(vec![
        ("plan_file_path", s("p")),
        ("step_number", JsonValue::Number(JsonNumber::NegInt(-1))),
    ]))
    .unwrap_err();
    assert_eq!(error_of(&r), "Missing required parameter 'step_number'");
    let r = UpdatePlanStepTool::request(&obj(vec![
        ("plan_file_path", s("p")),
        ("step_number", JsonValue::Number(JsonNumber::PosInt(1))),
    ]))
    .unwrap_err();
    assert_eq!(error_of(&r), "Missing required parameter 'status'");
    let r = UpdatePlanStepTool::request(&obj(vec![
        ("plan_file_path", s("p")),
        ("step_number", JsonValue::Number(JsonNumber::PosInt(1))),
        ("status", s("done")),
    ]))
    .unwrap_err();
    assert_eq!(
        error_of(&r),
        "Unknown status: 'done'. Use: in_progress, completed, failed, skipped"
    );
}

#[test]
fn update_step_applies_and_reports() {
    let tool = UpdatePlanStepTool::new(PlanManager::new("plans".into()));
    let req = UpdatePlanStepTool::request(&obj(vec![
        ("plan_file_path", s("plans/p.toml")),
        ("step_number", JsonValue::Number(JsonNumber::PosInt(2))),
        ("status", s("completed")),
        ("result", s("fine")),
    ]))
    .unwrap();
    assert_eq!(req.status, StepStatus::Completed);
    assert_eq!(req.step_number, 2);
    let mut plan = fixed_plan();
    tool.apply(&req, &mut plan, now()).unwrap();
    assert_eq!(plan.steps[1].result.as_deref(), Some("fine"));
    let r = tool.finish(&req, &plan, Ok(()));
    assert_eq!(member(&r.data, "status").as_str(), Some("completed"));
    assert_eq!(member(&r.data, "plan_status").as_str(), Some("Draft"));
    assert_eq!(member(&r.data, "step_number").as_u64(), Some(2));

    let missing = UpdatePlanStepTool::request(&obj(vec![
        ("plan_file_path", s("plans/p.toml")),
        ("step_number", JsonValue::Number(JsonNumber::PosInt(9))),
        ("status", s("skipped")),
    ]))
    .unwrap();
    let outcome = tool.apply(&missing, &mut plan, now());
    let r = tool.finish(&missing, &plan, outcome);
    assert_eq!(error_of(&r), "Failed to update step: Config error: Step 9 not found in plan");
}

#[test]
fn list_plans_summaries() {
    let tool = ListPlansTool::new(PlanManager::new("plans".into()));
    let listing = vec![
        ("plans/p.toml".to_string(), Ok(fixed_plan())),
        ("plans/q.toml".to_string(), Err(AgentError::Toml("bad".into()))),
    ];
    let r = tool.summarize(Ok(listing));
    assert_eq!(member(&r.data, "count").as_u64(), Some(1));
    let plans = member(&r.data, "plans").as_array().unwrap();
    assert_eq!(plans.len(), 1);
    assert_eq!(member(&plans[0], "steps").as_u64(), Some(2));
    assert_eq!(member(&plans[0], "status").as_str(), Some("Draft"));
    let r = tool.summarize(Err(AgentError::Io("gone".into())));
    assert_eq!(error_of(&r), "Failed to list plans: IO error: gone");
}

#[test]
fn get_plan_reports_steps() {
    let tool = GetPlanTool::new(PlanManager::new("plans".into()));
    assert_eq!(
        error_of(&GetPlanTool::request(&obj(vec![])).unwrap_err()),
        "Missing required parameter 'plan_file_path'"
    );
    assert_eq!(GetPlanTool::request(&obj(vec![("plan_file_path", s("x"))])).unwrap(), "x");
    let r = tool.finish(Ok(fixed_plan()));
    assert_eq!(member(&r.data, "task_id").as_str(), Some("task"));
    let steps = member(&r.data, "steps").as_array().unwrap();
    assert_eq!(steps.len(), 2);
    assert_eq!(member(&steps[0], "number").as_u64(), Some(1));
    assert!(member(&steps[0], "result").is_null());
    assert_eq!(member(&steps[1], "status").as_str(), Some("Pending"));
    let r = tool.finish(Err(AgentError::ConfigError("x".into())));
    assert_eq!(error_of(&r), "Failed to load plan: Config error: x");
}

#[test]
fn tool_names_and_schemas() {
    let pm = || PlanManager::new("plans".into());
    assert_eq!(CreatePlanTool::new(pm(), "t".into()).name(), "create_plan");
    assert_eq!(UpdatePlanStepTool::new(pm()).name(), "update_plan_step");
    assert_eq!(ListPlansTool::new(pm()).name(), "list_plans");
    assert_eq!(GetPlanTool::new(pm()).name(), "get_plan");
    let schema = UpdatePlanStepTool::new(pm()).parameters_schema();
    assert_eq!(member(&schema, "type").as_str(), Some("object"));
    let status = member(member(&schema, "properties"), "status");
    assert_eq!(member(status, "enum").as_array().unwrap().len(), 4);
    assert_eq!(member(&schema, "required").as_array().unwrap().len(), 3);
    assert!(GetPlanTool::new(pm()).description().starts_with("Load and render"));
}

#[test]
fn registry_overwrites_by_name() {
    let mut reg: ToolRegistry<u32> = ToolRegistry::new();
    reg.register("echo".to_string(), 1);
    reg.register("read".to_string(), 2);
    reg.register("echo".to_string(), 3);
    assert_eq!(reg.get("echo"), Some(&3));
    assert_eq!(reg.get("read"), Some(&2));
    assert_eq!(reg.get("write"), None);
    let mut names = reg.tool_names();
    names.sort();
    assert_eq!(names, vec!["echo", "read"]);
    let mut tools: Vec<u32> = reg.all_tools().into_iter().copied().collect();
    tools.sort();
    assert_eq!(tools, vec![2, 3]);
}

#[test]
fn registry_resolves_or_reports_unregistered() {
    let mut reg: ToolRegistry<u32> = ToolRegistry::new();
    reg.register("echo".to_string(), 7);
    assert_eq!(reg.resolve("echo").ok(), Some(&7));
    match reg.resolve("missing") {
        Err(e) => {
            assert_eq!(
                e.message(),
                "Tool execution failed for 'missing': Tool 'missing' is not registered"
            );
            assert!(matches!(e, AgentError::ToolFailed { .. }));
        }
        Ok(_) => panic!("an unregistered tool resolved"),
    }
}
