use chatty_factory::profiles::{ProofPanelSettings, ProofRunProfile};
use chatty_factory::record_order::{latest_constraint_approvals, newest_first_order, ApprovalKey, RecordKey};
use chatty_factory::records::{
    approved_constraint_match_breakdowns, approved_constraint_match_counts,
    latest_project_starter_override_receipt, project_starter_override_counts,
    summarize_constraint_shelf_mutation_actions, BuildReceiptView, BuildVerificationReceiptView,
    ConstraintShelfMutationReceiptView,
};
use chatty_factory::tally::tally_texts;
use chatty_factory::tasks::{
    action_summary_text, patch_receipt_paths, planner_options, start_task, task_status_line,
    TaskStart, UiTask,
};
use chatty_factory::text_sort::{sort_distinct_texts, sort_texts};

fn s(x: &str) -> String {
    x.to_string()
}

fn strings(items: &[&str]) -> Vec<String> {
    items.iter().map(|x| s(x)).collect()
}

fn pairs(items: &[(&str, usize)]) -> Vec<(String, usize)> {
    items.iter().map(|(k, n)| (s(k), *n)).collect()
}

#[test]
fn sorting_texts() {
    assert_eq!(sort_texts(strings(&["b", "a", "b", "Z", ""])), strings(&["", "Z", "a", "b", "b"]));
    assert_eq!(sort_distinct_texts(strings(&["b", "a", "b", "ab"])), strings(&["a", "ab", "b"]));
    assert_eq!(sort_texts(strings(&["é", "z"])), strings(&["z", "é"]));
}

#[test]
fn tallies_count_each_text_in_order() {
    assert_eq!(tally_texts(&strings(&["x", "y", "x", "a"])), pairs(&[("a", 1), ("x", 2), ("y", 1)]));
    assert_eq!(tally_texts(&Vec::new()), Vec::new());
}

fn mutation(action: &str) -> ConstraintShelfMutationReceiptView {
    ConstraintShelfMutationReceiptView {
        mutation_id: s("m"),
        constraint_id: s("c"),
        action: s(action),
        proposal_origin: None,
        proposal_source_id: None,
        status: s("applied"),
        created_at: None,
    }
}

#[test]
fn shelf_actions_of_the_twenty_newest() {
    let mut receipts: Vec<_> = (0..20).map(|_| mutation("activate")).collect();
    receipts.push(mutation("archive"));
    receipts.insert(0, mutation("restore"));
    assert_eq!(
        summarize_constraint_shelf_mutation_actions(&receipts),
        pairs(&[("activate", 19), ("restore", 1)])
    );
}

fn verification(ids: &[&str], mode: &str, family: Option<&str>) -> (String, BuildVerificationReceiptView) {
    (
        s("runtime/bv.json"),
        BuildVerificationReceiptView {
            failure_mode: s(mode),
            suggested_family_id: family.map(s),
            suggested_tool_kind: None,
            matched_approved_constraint_ids: strings(ids),
        },
    )
}

#[test]
fn approved_constraint_matches_and_breakdowns() {
    let matches = vec![
        verification(&["c2", "c1"], "timeout", Some("rust_cli_tool")),
        verification(&["c1"], "panic", None),
    ];
    assert_eq!(approved_constraint_match_counts(&matches), pairs(&[("c1", 2), ("c2", 1)]));
    let b = approved_constraint_match_breakdowns(&matches);
    assert_eq!(b.len(), 2);
    assert_eq!(b[0].0, "c1");
    assert_eq!(b[0].1.total_matches, 2);
    assert_eq!(b[0].1.by_failure_mode, pairs(&[("panic", 1), ("timeout", 1)]));
    assert_eq!(b[0].1.by_family_id, pairs(&[("rust_cli_tool", 1), ("unknown_family", 1)]));
    assert_eq!(b[0].1.by_tool_kind, pairs(&[("unknown_tool", 2)]));
    assert_eq!(b[1].0, "c2");
    assert_eq!(b[1].1.total_matches, 1);
}

fn build(project: &str, comparison: Option<&str>) -> BuildReceiptView {
    BuildReceiptView {
        starter_override_id: None,
        starter_override_summary: None,
        recommended_starter_id: None,
        recommended_starter_summary: None,
        starter_recommendation_comparison: comparison.map(s),
        project_name: s(project),
    }
}

#[test]
fn starter_overrides() {
    let receipts = vec![
        build("a", Some("followed_normal_routing")),
        build("b", Some("overrode_normal_routing")),
        build("a", Some("overrode_normal_routing")),
        build("b", Some("overrode_normal_routing")),
    ];
    assert_eq!(project_starter_override_counts(&receipts), pairs(&[("a", 1), ("b", 2)]));
    assert_eq!(latest_project_starter_override_receipt(&receipts, "a"), Some(2));
    assert_eq!(latest_project_starter_override_receipt(&receipts, "c"), None);
}

fn key(created: Option<&str>, id: &str) -> RecordKey {
    RecordKey { created_at: created.map(s), id: s(id) }
}

#[test]
fn newest_first_by_stamp_then_identity() {
    let keys = vec![
        key(Some("2024-01-01T00:00:00Z"), "b"),
        key(None, "z"),
        key(Some("2024-03-01T00:00:00Z"), "c"),
        key(Some("2024-01-01T00:00:00Z"), "a"),
        key(Some("2024-01-01T00:00:00Z"), "a"),
    ];
    assert_eq!(newest_first_order(&keys), vec![2, 3, 4, 0, 1]);
}

fn approval(id: &str, created: Option<&str>) -> ApprovalKey {
    ApprovalKey { constraint_id: s(id), created_at: created.map(s) }
}

#[test]
fn latest_approval_per_constraint() {
    let recs = vec![
        approval("c2", Some("2024-02-01")),
        approval("c1", Some("2024-01-01")),
        approval("c2", Some("2024-02-01")),
        approval("c1", Some("2024-05-01")),
        approval("c1", None),
    ];
    assert_eq!(latest_constraint_approvals(&recs), vec![(s("c1"), 3), (s("c2"), 0)]);
}

fn settings() -> ProofPanelSettings {
    ProofPanelSettings {
        selected_proof_template_id: s("proof_helper_monitoring"),
        proof_history_template_filter: s("all"),
        pin_history_filter_to_selected_template: true,
        auto_planner: false,
        planner_port: s("9000"),
        planner_model: s("deep"),
        selected_proof_profile_name: s("custom"),
        proof_profile_name_input: String::new(),
        proof_run_profiles: Vec::new(),
    }
}

fn names(p: &ProofPanelSettings) -> Vec<String> {
    p.proof_run_profiles.iter().map(|x| x.profile_name.clone()).collect()
}

#[test]
fn proof_profiles_save_duplicate_delete_reset() {
    let mut p = settings();
    assert_eq!(p.save_current_proof_run_profile("  "), Err("Proof profile name is required"));
    assert_eq!(p.save_current_proof_run_profile(" zeta "), Ok("Saved proof profile"));
    assert_eq!(p.selected_proof_profile_name, "zeta");
    assert_eq!(p.save_current_proof_run_profile("alpha"), Ok("Saved proof profile"));
    assert_eq!(names(&p), strings(&["alpha", "zeta"]));
    p.planner_port = s("9100");
    assert_eq!(p.save_current_proof_run_profile("zeta"), Ok("Saved proof profile"));
    assert_eq!(names(&p), strings(&["alpha", "zeta"]));
    assert_eq!(p.proof_run_profiles[1].planner_port, "9100");
    assert_eq!(p.duplicate_selected_proof_run_profile("alpha"), Err("Proof profile name already exists"));
    assert_eq!(p.duplicate_selected_proof_run_profile("mid"), Ok("Duplicated proof profile"));
    assert_eq!(names(&p), strings(&["alpha", "mid", "zeta"]));
    assert_eq!(p.active_profile_name(), Some(s("mid")));
    assert_eq!(p.delete_selected_proof_run_profile(), Ok("Deleted proof profile"));
    assert_eq!(names(&p), strings(&["alpha", "zeta"]));
    assert_eq!(p.selected_proof_profile_name, "custom");
    assert_eq!(p.active_profile_name(), None);
    assert_eq!(p.delete_selected_proof_run_profile(), Err("No saved proof profile selected"));
    let saved: ProofRunProfile = p.current_proof_run_profile(s("copy"));
    assert_eq!(saved.planner_model, "deep");
    assert_eq!(p.reset_proof_run_defaults(), "Reset proof panel defaults");
    assert_eq!(p.planner_port, "8104");
    assert!(p.auto_planner);
    p.apply_proof_run_profile(&saved);
    assert_eq!(p.planner_port, "9100");
    assert_eq!(p.selected_proof_profile_name, "copy");
}

#[test]
fn tasks_status_and_planner_options() {
    let t = UiTask::ArchiveExtension { entry_id: s("lane_x"), reason: s("old") };
    assert_eq!(task_status_line(&t), "Archiving extension lane_x");
    assert!(matches!(start_task(true, &t), TaskStart::Busy { status_line } if status_line == "A task is already running"));
    match start_task(false, &t) {
        TaskStart::Started { status_line, recent_lane } => {
            assert_eq!(status_line, "Archiving extension lane_x");
            assert_eq!(recent_lane, Some(s("lane_x")));
        }
        TaskStart::Busy { .. } => panic!("a free panel starts the task"),
    }
    assert_eq!(
        task_status_line(&UiTask::SetApprovedConstraintActive { constraint_id: s("c"), active: false }),
        "Deactivating approved constraint"
    );
    assert!(matches!(start_task(false, &UiTask::RefreshRuntime), TaskStart::Started { recent_lane: None, .. }));
    let o = planner_options(true, " 8104 ", "  fast ");
    assert!(o.auto_planner);
    assert_eq!(o.requested_model, Some(s("fast")));
    assert_eq!(o.requested_port, Some(8104));
    let o = planner_options(false, "70000", "  ");
    assert_eq!(o.requested_model, None);
    assert_eq!(o.requested_port, None);
    assert_eq!(planner_options(false, "x1", "m").requested_port, None);
}

#[test]
fn host_action_results() {
    let files = strings(&[
        "runtime/patch_intent_freezes/r-freeze.json",
        "runtime/patch_diagnoses/r-diagnosis.json",
        "runtime/patch_constraint_reviews/r-constraint-review.json",
    ]);
    let p = patch_receipt_paths(&files);
    assert_eq!(p.diagnosis, Some(s("runtime/patch_diagnoses/r-diagnosis.json")));
    assert_eq!(p.intent_freeze, Some(s("runtime/patch_intent_freezes/r-freeze.json")));
    assert_eq!(p.plan_review, None);
    assert_eq!(p.constraint_review, Some(s("runtime/patch_constraint_reviews/r-constraint-review.json")));
    assert_eq!(p.postcheck, None);
    let a = action_summary_text(&strings(&["line one", "line two\nline three"]));
    assert_eq!(a.stdout, "line one\nline two\nline three");
    assert_eq!(a.lines, strings(&["line one", "line two", "line three"]));
    let empty = action_summary_text(&Vec::new());
    assert_eq!(empty.stdout, "");
    assert!(empty.lines.is_empty());
}
