use chatty_factory::extensions::PendingExtensionEntry;
use chatty_factory::lane_report::{
    build_export_diff, build_extension_summary_markdown, export_file_names, export_history_names,
    is_catalog_check_name, note_for_export, split_lines, text_preview,
};
use chatty_factory::proofs::ExtensionActivityItem;
use chatty_factory::workbench::{
    clear_activity_about, compare_mismatch_hints, extension_task_activity, first_line_of,
    first_patch_receipt_path, format_log, keep_newest, mark_extension_recent,
    proposal_origin_label, push_extension_activity, toggle_favorite,
};

fn s(x: &str) -> String {
    x.to_string()
}

fn strings(items: &[&str]) -> Vec<String> {
    items.iter().map(|x| s(x)).collect()
}

#[test]
fn mismatch_hints_list_placeholders_then_tokens() {
    assert_eq!(compare_mismatch_hints("same", "same"), vec![s("The previewed content matches exactly.")]);
    assert_eq!(
        compare_mismatch_hints("todo_feature recipe_id handler:", "recipe_id"),
        vec![
            s("Left side still contains placeholder marker `todo_feature`."),
            s("Right side does not visibly include expected token `handler:` from the left side."),
        ]
    );
    assert!(compare_mismatch_hints("a", "b").is_empty());
}

#[test]
fn command_log_keeps_non_blank_streams() {
    assert_eq!(format_log("Built", "  ok\n", " \n"), "Summary: Built\n\nstdout:\nok");
    assert_eq!(format_log("Failed", "", " boom "), "Summary: Failed\n\nstderr:\nboom");
    assert_eq!(format_log("X", "", ""), "Summary: X");
}

fn item(id: Option<&str>, title: &str) -> ExtensionActivityItem {
    ExtensionActivityItem {
        entry_id: id.map(s),
        title: s(title),
        detail: s("d"),
        success: true,
        timestamp_label: s("t"),
    }
}

#[test]
fn activity_keeps_the_eight_newest_items() {
    let mut log = Vec::new();
    for k in 0..10 {
        push_extension_activity(&mut log, Some(format!("lane{k}")), format!("step {k}"), s("d"), true, s("t"));
    }
    assert_eq!(log.len(), 8);
    assert_eq!(log[0].title, "step 2");
    assert_eq!(log[7].title, "step 9");
    let mut v = vec![1, 2, 3];
    keep_newest(&mut v, 5);
    assert_eq!(v, vec![1, 2, 3]);
    keep_newest(&mut v, 1);
    assert_eq!(v, vec![3]);
}

#[test]
fn clearing_activity_keeps_other_items_in_order() {
    let mut log = vec![item(Some("a"), "1"), item(None, "2"), item(Some("b"), "3"), item(Some("a"), "4")];
    clear_activity_about(&mut log, "a");
    assert_eq!(log.iter().map(|i| i.title.as_str()).collect::<Vec<_>>(), vec!["2", "3"]);
}

#[test]
fn recent_lanes_move_to_front_and_stay_within_ten() {
    let mut recent = strings(&["a", "b", "c"]);
    mark_extension_recent(&mut recent, "b");
    assert_eq!(recent, strings(&["b", "a", "c"]));
    let mut many: Vec<String> = (0..10).map(|k| format!("l{k}")).collect();
    mark_extension_recent(&mut many, "new");
    assert_eq!(many.len(), 10);
    assert_eq!(many[0], "new");
    assert_eq!(many[9], "l8");
}

#[test]
fn finished_tasks_feed_the_timeline() {
    assert_eq!(extension_task_activity("Refreshed browser", ""), None);
    assert_eq!(extension_task_activity("Validated Lane alpha", ""), Some((s("Completed"), true)));
    assert_eq!(
        extension_task_activity("Host Wire extension", "error: x\nmore"),
        Some((s("error: x"), false))
    );
    assert_eq!(first_line_of("one\r\ntwo"), "one");
    assert_eq!(first_line_of("\nerr"), "");
}

#[test]
fn favorites_toggle_and_toggle_back() {
    let mut fav = strings(&["a", "c"]);
    assert!(!toggle_favorite(&mut fav, "b"));
    assert_eq!(fav, strings(&["a", "b", "c"]));
    assert!(toggle_favorite(&mut fav, "b"));
    assert_eq!(fav, strings(&["a", "c"]));
}

#[test]
fn receipts_and_origins() {
    let paths = strings(&[
        "runtime/patch_diagnoses/r-postcheck.json",
        "runtime/patch_diagnoses/r-diagnosis.json",
        "src/main.rs",
    ]);
    assert_eq!(
        first_patch_receipt_path(&paths, "runtime/patch_diagnoses/", "-diagnosis.json"),
        Some(s("runtime/patch_diagnoses/r-diagnosis.json"))
    );
    assert_eq!(first_patch_receipt_path(&paths, "runtime/x/", ".json"), None);
    assert_eq!(proposal_origin_label(&Some(s("triangulation-7"))), "triangulated");
    assert_eq!(proposal_origin_label(&Some(s("bv-7"))), "build-verification");
    assert_eq!(proposal_origin_label(&None), "unknown-origin");
}

fn lane() -> PendingExtensionEntry {
    PendingExtensionEntry {
        entry_id: s("lane_x"),
        status: s("implemented"),
        extension_kind: s("helper_lane"),
        family_id: None,
        tool_kind: Some(s("watcher")),
        patch_kind: None,
        archived_reason: Some(s("superseded")),
        scaffold_root: s("ops/lane_x"),
        source_stub_path: s("ops/lane_x/stub.json"),
        unresolved_layers: strings(&["ui", "host"]),
        missing_family_build_primitive_classes: Vec::new(),
        missing_patch_primitive_classes: strings(&["anchor"]),
        missing_helper_primitive_kinds: Vec::new(),
        integrated_paths: strings(&["a.rs"]),
        promotion_artifacts: Vec::new(),
        apply_patch_artifacts: Vec::new(),
        proof_quality_status: None,
        proof_seed_template_id: None,
        proof_seed_bundle_id: None,
        proof_drift_status: None,
        proof_change_since_last_pass_status: None,
        composition_drift_status: None,
        composition_change_since_last_live_status: None,
        patch_drift_status: None,
        patch_change_since_last_live_status: None,
        helper_drift_status: None,
        helper_change_since_last_live_status: None,
        bridge_drift_status: None,
        bridge_change_since_last_live_status: None,
    }
}

#[test]
fn lane_summary_markdown() {
    let md = build_extension_summary_markdown(&lane(), &strings(&["Next step: validate."]), 2, Some(s("watch it")));
    assert_eq!(
        md,
        "# Lane Summary: lane_x\n\n- Status: implemented\n- Extension kind: helper_lane\n- Unresolved layers: ui, host\n- Family: unknown_family\n- Tool: watcher\n- Patch: none\n- Compare hints: 2\n- Scaffold root: ops/lane_x\n- Source spec: ops/lane_x/stub.json\n- Archive reason: superseded\n- Missing patch classes: anchor\n\n## Blockers\n- Next step: validate.\n\n## Note\nwatch it\n\n## Integrated Files\n- a.rs"
    );
    let md = build_extension_summary_markdown(&lane(), &Vec::new(), 0, None);
    assert!(md.contains("## Blockers\n- None\n\n## Note\n(no note)"));
}

#[test]
fn lines_split_like_str_lines() {
    for text in ["", "a", "a\n", "a\r\nb", "a\n\nb\n", "\n", "x\ry", "last\r"] {
        let expected: Vec<String> = text.lines().map(|l| l.to_string()).collect();
        assert_eq!(split_lines(text), expected);
    }
}

#[test]
fn export_diff_lists_added_and_removed_lines() {
    assert_eq!(
        build_export_diff("new.md", "old.md", "a\nb\nc", "a\nc\nd"),
        "latest: new.md\nprevious: old.md\n\n+ b\n- d"
    );
    assert_eq!(
        build_export_diff("new.md", "old.md", "same\n", "same"),
        "latest: new.md\nprevious: old.md\n\n(no line-level differences detected)"
    );
}

#[test]
fn export_names_history_and_previews() {
    assert_eq!(export_file_names("lane_x", "20240501-100000"), (s("lane_x.md"), s("lane_x-20240501-100000.md")));
    assert_eq!(
        export_history_names(&strings(&["lane_x-1.md", "lane_x.md", "lane_y-3.md", "lane_x-3.md", "lane_x-2.txt"]), "lane_x"),
        strings(&["lane_x-3.md", "lane_x-1.md"])
    );
    assert!(is_catalog_check_name("runtime_catalog_check.json"));
    assert!(!is_catalog_check_name("health.json"));
    assert_eq!(note_for_export(Some("  keep  ")), Some(s("keep")));
    assert_eq!(note_for_export(Some("   ")), None);
    assert_eq!(note_for_export(None), None);
    assert_eq!(text_preview("  \n ", 10), "(empty file)");
    assert_eq!(text_preview(" hello ", 10), "hello");
    assert_eq!(text_preview("abcdef", 3), "abc\n\n...truncated...");
}
