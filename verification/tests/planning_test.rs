use cascade_agent::error::AgentError;
use cascade_agent::planning::types::{Plan, PlanData, PlanStatus, StepStatus};
use cascade_agent::planning::{plan_listing_line, PlanManager};
use cascade_agent::time::Timestamp;

fn now() -> Timestamp {
    Timestamp::from_unix(1_700_000_000, 0).unwrap()
}

fn random(seed: u8) -> [u8; 16] {
    let mut bytes = [0u8; 16];
    for (i, b) in bytes.iter_mut().enumerate() {
        *b = seed.wrapping_mul(31).wrapping_add(i as u8 * 17);
    }
    bytes
}

fn manager() -> PlanManager {
    PlanManager::new("plans".to_string())
}

fn reload(plan: &Plan) -> Plan {
    PlanData::from_plan(plan).to_plan(&plan.file_path).unwrap()
}

#[test]
fn plan_create_and_load_roundtrip() {
    let pm = manager();

    let plan = pm.create_plan(
        "task-123",
        "Test Plan",
        vec!["Step one".into(), "Step two".into(), "Step three".into()],
        random(1),
        now(),
    );

    assert_eq!(plan.title, "Test Plan");
    assert_eq!(plan.task_id, "task-123");
    assert_eq!(plan.steps.len(), 3);
    assert_eq!(plan.status, PlanStatus::Draft);
    assert!(plan.file_path.starts_with("plans/"));
    assert!(plan.file_path.ends_with(".toml"));

    let loaded = reload(&plan);
    assert_eq!(loaded.id, plan.id);
    assert_eq!(loaded.task_id, plan.task_id);
    assert_eq!(loaded.title, plan.title);
    assert_eq!(loaded.status, PlanStatus::Draft);
    assert_eq!(loaded.steps.len(), 3);
}

#[test]
fn plan_update_step_preserves_on_reload() {
    let pm = manager();

    let mut plan = pm.create_plan("task-456", "Update Test", vec!["Do thing".into()], random(2), now());

    pm.update_step(&mut plan, 1, StepStatus::Completed, Some("Done!"), now()).unwrap();

    let loaded = reload(&plan);
    assert_eq!(loaded.steps[0].status, StepStatus::Completed);
    assert_eq!(loaded.steps[0].result.as_deref(), Some("Done!"));
    assert_eq!(loaded.status, PlanStatus::Completed);
}

#[test]
fn plan_mark_step_failed_preserves_status() {
    let pm = manager();

    let mut plan = pm.create_plan(
        "task-789",
        "Fail Test",
        vec!["Risky step".into(), "Safe step".into()],
        random(3),
        now(),
    );

    pm.update_step(&mut plan, 1, StepStatus::Failed, Some("Error occurred"), now()).unwrap();

    let loaded = reload(&plan);
    assert_eq!(loaded.steps[0].status, StepStatus::Failed);
    assert_eq!(loaded.steps[0].result.as_deref(), Some("Error occurred"));
    assert_eq!(loaded.status, PlanStatus::Draft);
}

#[test]
fn plan_list_plans() {
    let pm = manager();

    let a = pm.create_plan("t1", "Plan A", vec!["Step".into()], random(4), now());
    let b = pm.create_plan("t2", "Plan B", vec!["Step".into()], random(5), now());

    // The directory holds both plan files and one unrelated file.
    let names: Vec<String> = vec![
        a.file_path.trim_start_matches("plans/").to_string(),
        "notes.txt".to_string(),
        b.file_path.trim_start_matches("plans/").to_string(),
    ];
    let plans = pm.list_plans(names);
    assert_eq!(plans.len(), 2);
}

#[test]
fn plan_render_markdown_contains_metadata() {
    let pm = manager();

    let plan = pm.create_plan("task-meta", "Meta Test", vec!["Step".into()], random(6), now());

    let rendered = pm.render_markdown(&plan);
    assert!(rendered.contains(&format!("<!-- plan_id: {} -->", plan.id)));
    assert!(rendered.contains("<!-- task_id: task-meta -->"));
    assert!(rendered.contains("<!-- plan_status: Draft -->"));
    // step_status comment now appears before the step line
    let lines: Vec<&str> = rendered.lines().collect();
    let mut found_step_line = false;
    let mut found_status_before = false;
    for i in 0..lines.len() {
        if lines[i].contains("<!-- step_status_1:") {
            // Check that the step line comes after this comment
            for j in (i + 1)..lines.len() {
                if lines[j].contains("**Step 1:**") {
                    found_status_before = true;
                    break;
                }
            }
        }
        if lines[i].contains("**Step 1:**") {
            found_step_line = true;
        }
    }
    assert!(found_step_line, "Step line not found in rendered markdown");
    assert!(
        found_status_before,
        "step_status comment should appear before the step line"
    );
}

fn fixed_plan(steps: Vec<String>) -> Plan {
    let t = Timestamp::from_unix(1_700_000_000, 0).unwrap();
    Plan::assemble("0123abcd-0000-4000-8000-000000000000".to_string(), "T", "Title", steps, t, t)
}

#[test]
fn render_markdown_exact_text() {
    let pm = manager();
    let mut plan = fixed_plan(vec!["A".into(), "B".into()]);
    let at = Timestamp::from_unix(1_700_000_000, 0).unwrap();
    assert!(plan.mark_step_completed(2, Some("ok".into()), at));
    let expected = "# Title\n\n\
<!-- plan_id: 0123abcd-0000-4000-8000-000000000000 -->\n\
<!-- task_id: T -->\n\
<!-- plan_status: Draft -->\n\
<!-- created_at: 2023-11-14T22:13:20+00:00 -->\n\
<!-- updated_at: 2023-11-14T22:13:20+00:00 -->\n\
**Status:** 📝 Draft\n\
**Task ID:** T\n\
**Plan ID:** 0123abcd-0000-4000-8000-000000000000\n\
**Created:** 2023-11-14 22:13:20 UTC\n\n\
---\n\n## Steps\n\n\
<!-- step_status_1: Pending -->\n\
⬜ **Step 1:** A\n\n\
<!-- step_status_2: Completed -->\n\
✅ **Step 2:** B\n   - Result: ok\n\n";
    assert_eq!(pm.render_markdown(&plan), expected);
}

#[test]
fn new_plan_numbers_steps_from_one() {
    let plan = Plan::new("task", "title", vec!["a".into(), "b".into(), "c".into()], random(7), now());
    assert_eq!(plan.steps.len(), 3);
    for (i, s) in plan.steps.iter().enumerate() {
        assert_eq!(s.number, i + 1);
        assert_eq!(s.status, StepStatus::Pending);
        assert!(s.result.is_none());
    }
    assert_eq!(plan.id.len(), 36);
    assert_eq!(plan.status, PlanStatus::Draft);
    assert_eq!(plan.file_path, "");
}

#[test]
fn completing_every_step_completes_plan() {
    let mut plan = fixed_plan(vec!["a".into(), "b".into()]);
    assert!(plan.mark_step_completed(1, None, now()));
    assert_eq!(plan.status, PlanStatus::Draft);
    assert!(plan.mark_step_completed(2, Some("done".into()), now()));
    assert_eq!(plan.status, PlanStatus::Completed);
}

#[test]
fn skipped_steps_count_as_finished() {
    let pm = manager();
    let mut plan = fixed_plan(vec!["a".into(), "b".into()]);
    pm.update_step(&mut plan, 1, StepStatus::Skipped, None, now()).unwrap();
    assert_eq!(plan.status, PlanStatus::Draft);
    pm.update_step(&mut plan, 2, StepStatus::Completed, None, now()).unwrap();
    assert_eq!(plan.status, PlanStatus::Completed);
}

#[test]
fn missing_step_is_an_error_and_changes_nothing() {
    let pm = manager();
    let mut plan = fixed_plan(vec!["a".into()]);
    let before = pm.render_markdown(&plan);
    match pm.update_step(&mut plan, 7, StepStatus::Completed, Some("x"), now()) {
        Err(AgentError::ConfigError(m)) => assert_eq!(m, "Step 7 not found in plan"),
        other => panic!("unexpected outcome: {:?}", other),
    }
    assert_eq!(pm.render_markdown(&plan), before);
    assert!(!plan.mark_step_in_progress(0, now()));
    assert!(!plan.mark_step_failed(2, "e".into(), now()));
}

#[test]
fn in_progress_keeps_result_and_failed_defaults_to_empty() {
    let pm = manager();
    let mut plan = fixed_plan(vec!["a".into(), "b".into()]);
    pm.update_step(&mut plan, 1, StepStatus::Completed, Some("r"), now()).unwrap();
    pm.update_step(&mut plan, 1, StepStatus::InProgress, Some("ignored"), now()).unwrap();
    assert_eq!(plan.steps[0].status, StepStatus::InProgress);
    assert_eq!(plan.steps[0].result.as_deref(), Some("r"));
    pm.update_step(&mut plan, 2, StepStatus::Failed, None, now()).unwrap();
    assert_eq!(plan.steps[1].result.as_deref(), Some(""));
    pm.update_step(&mut plan, 2, StepStatus::Pending, None, now()).unwrap();
    assert_eq!(plan.steps[1].status, StepStatus::Pending);
    assert!(plan.steps[1].result.is_none());
}

#[test]
fn stored_form_reads_back_exactly() {
    let mut plan = fixed_plan(vec!["a".into()]);
    plan.status = PlanStatus::Approved;
    plan.file_path = "plans/x.toml".into();
    let data = PlanData::from_plan(&plan);
    assert_eq!(data.created_at, "2023-11-14T22:13:20+00:00");
    let back = data.to_plan("plans/x.toml").unwrap();
    assert_eq!(back.id, plan.id);
    assert_eq!(back.status, PlanStatus::Approved);
    assert_eq!(back.created_at, plan.created_at);
    assert_eq!(back.updated_at, plan.updated_at);
    assert_eq!(back.file_path, "plans/x.toml");
    assert_eq!(back.steps[0].description, "a");
}

#[test]
fn stored_form_with_bad_instant_is_config_error() {
    let plan = fixed_plan(vec![]);
    let mut data = PlanData::from_plan(&plan);
    data.updated_at = "yesterday".into();
    match data.to_plan("p.toml") {
        Err(AgentError::ConfigError(m)) => assert!(m.starts_with("Invalid updated_at: ")),
        other => panic!("unexpected outcome: {:?}", other),
    }
    data.created_at = "".into();
    match data.to_plan("p.toml") {
        Err(AgentError::ConfigError(m)) => assert!(m.starts_with("Invalid created_at: ")),
        other => panic!("unexpected outcome: {:?}", other),
    }
}

#[test]
fn plan_file_name_uses_creation_time_and_id_prefix() {
    let pm = manager();
    let plan = pm.create_plan("t", "T", vec![], [0xabu8; 16], now());
    assert_eq!(plan.id, "abababab-abab-4bab-abab-abababababab");
    assert_eq!(plan.file_path, "plans/20231114_221320_abababab.toml");
}

#[test]
fn list_plans_filters_and_sorts() {
    let pm = manager();
    let names: Vec<String> = vec![
        "b.toml".into(),
        ".toml".into(),
        "a.toml".into(),
        "x.toml.bak".into(),
        "c.TOML".into(),
        "a.b.toml".into(),
    ];
    let plans = pm.list_plans(names);
    assert_eq!(plans, vec!["plans/a.b.toml", "plans/a.toml", "plans/b.toml"]);
    assert!(cascade_agent::planning::has_plan_extension("x.toml"));
    assert!(!cascade_agent::planning::has_plan_extension(".toml"));
}

#[test]
fn status_names() {
    assert_eq!(cascade_agent::planning::plan_status_text(PlanStatus::PendingApproval), "PendingApproval");
    assert_eq!(cascade_agent::planning::step_status_text(StepStatus::Skipped), "Skipped");
}

#[test]
fn listing_line_counts_completed_steps() {
    let pm = manager();
    let mut plan = fixed_plan(vec!["a".into(), "b".into(), "c".into()]);
    assert_eq!(
        plan_listing_line(&plan, "plans/x.toml"),
        "  [D] Title (0/3 steps) — plans/x.toml"
    );
    pm.update_step(&mut plan, 2, StepStatus::Completed, None, now()).unwrap();
    pm.update_step(&mut plan, 3, StepStatus::Skipped, None, now()).unwrap();
    assert_eq!(
        plan_listing_line(&plan, "p.toml"),
        "  [D] Title (1/3 steps) — p.toml"
    );
    pm.update_step(&mut plan, 1, StepStatus::Completed, None, now()).unwrap();
    assert_eq!(
        plan_listing_line(&plan, "p.toml"),
        "  [C] Title (2/3 steps) — p.toml"
    );
}

#[test]
fn plan_ids_are_version_4_uuids_of_the_random_bytes() {
    let zero = Plan::new("t", "z", vec![], [0u8; 16], now());
    assert_eq!(zero.id, "00000000-0000-4000-8000-000000000000");
    let ones = Plan::new("t", "o", vec![], [0xffu8; 16], now());
    assert_eq!(ones.id, "ffffffff-ffff-4fff-bfff-ffffffffffff");
    let bytes: [u8; 16] = [
        0x12, 0x34, 0x56, 0x78, 0x9a, 0xbc, 0xde, 0xf0, 0x12, 0x34, 0x56, 0x78, 0x9a, 0xbc, 0xde,
        0xf0,
    ];
    let p = Plan::new("t", "b", vec![], bytes, now());
    assert_eq!(p.id, "12345678-9abc-4ef0-9234-56789abcdef0");
    assert_eq!(p.created_at, now());
    assert_eq!(p.updated_at, now());
}

#[test]
fn plan_files_join_the_directory() {
    let slash = PlanManager::new("plans/".to_string());
    let p = slash.create_plan("t", "T", vec!["a".into()], [0u8; 16], now());
    assert_eq!(p.file_path, "plans/20231114_221320_00000000.toml");
    let empty = PlanManager::new(String::new());
    let q = empty.create_plan("t", "T", vec!["a".into()], [0u8; 16], now());
    assert_eq!(q.file_path, "20231114_221320_00000000.toml");
}

#[test]
fn leap_second_instants_read_back() {
    let leap = Timestamp::from_unix(1_483_228_799, 1_250_000_000).unwrap();
    let mut plan = fixed_plan(vec!["a".into()]);
    plan.created_at = leap;
    plan.updated_at = leap;
    let data = PlanData::from_plan(&plan);
    assert_eq!(data.created_at, "2016-12-31T23:59:60.250+00:00");
    let back = data.to_plan(&plan.file_path).unwrap();
    assert_eq!(back.created_at, leap);
    assert_eq!(back.updated_at, leap);
}
