use chatty_factory::families::{
    family_display_name, family_ecosystem_badge, family_governance_picker_label,
    family_governed_artifact_set_summary, family_summary_label,
    family_summary_label_from_patchability_receipt, family_summary_label_from_receipt,
    is_canonical_ecosystem_shell_family, template_governed_artifact_set_summary,
    FamilyGovernanceReceiptView, TemplateGovernanceReceiptView,
};
use chatty_factory::patchability::ProjectPatchReadinessReceiptView;
use chatty_factory::proofs::{
    build_paired_proof_diff_summary, build_paired_proof_summary_markdown,
    compact_required_bundle_summary, comparison_bundle_for_template, latest_proof_last_touched,
    latest_proof_receipt_for_template, paired_proof_artifact_count,
    paired_proof_required_bundle_summary, proof_history_filter_label, proof_profile_label,
    proof_receipt_comparison_bundle, proof_receipt_matches_filter, proof_receipt_template_label,
    proof_template_description, proof_template_label, required_bundle_status_lines,
    CapabilityComparisonBundle, CapabilityComparisonReceiptSummary,
    CrossFamilyPairedProofReceiptSummary, ExtensionActivityItem, PrimitiveProofTemplate,
};

fn s(x: &str) -> String {
    x.to_string()
}

fn family(id: &str, name: Option<&str>, eco: Option<&str>) -> FamilyGovernanceReceiptView {
    FamilyGovernanceReceiptView {
        family_id: s(id),
        family_display_name: name.map(s),
        family_ecosystem: eco.map(s),
        manifest_path: s("families/x.json"),
        primary_substrate: s("rust"),
        lifecycle_status: s("live"),
        lifecycle_notes: Vec::new(),
        supported_tool_kinds: Vec::new(),
        provided_build_primitive_classes: Vec::new(),
        primitive_adapter_ids: Vec::new(),
        drift_status: s("aligned"),
        drift_notes: Vec::new(),
        change_since_last_live_status: s("stable"),
        change_since_last_live_notes: Vec::new(),
    }
}

#[test]
fn family_labels() {
    assert_eq!(family_display_name("rust_cli_tool"), "Rust CLI Tool");
    assert_eq!(family_display_name("nope"), "Unknown Family");
    assert_eq!(family_ecosystem_badge("chattycog_webview_module"), Some("[ecosystem: Chatty-Cog]"));
    assert_eq!(family_ecosystem_badge("rust_cli_tool"), None);
    assert_eq!(
        family_summary_label("chattyedu_native_window_module"),
        "Chatty-EDU Rust Native Dashboard [ecosystem: Chatty-EDU]"
    );
    assert_eq!(family_summary_label("python_cli_tool"), "Python CLI Tool");
    assert_eq!(
        family_summary_label_from_receipt(&family("f", Some("Fancy"), Some("Cog"))),
        "Fancy [ecosystem: Cog]"
    );
    assert_eq!(family_summary_label_from_receipt(&family("f", Some("Fancy"), None)), "Fancy");
    assert_eq!(
        family_summary_label_from_receipt(&family("rust_cli_tool", Some("  "), Some("Cog"))),
        "Rust CLI Tool"
    );
    assert_eq!(
        family_governance_picker_label(&family("rust_cli_tool", None, None)),
        "Rust CLI Tool [live]"
    );
    let receipt = ProjectPatchReadinessReceiptView {
        family_display_name: Some(s("Named")),
        family_ecosystem: None,
        superseded_blocked_lane_replacements: Vec::new(),
        risky_blocked_lane_count: 0,
        historical_blocked_lane_count: 0,
        decomposable_historical_blocker_count: 0,
        change_since_patchability_baseline_status: s("x"),
        change_since_patchability_baseline_notes: Vec::new(),
    };
    assert_eq!(family_summary_label_from_patchability_receipt("rust_cli_tool", Some(&receipt)), "Named");
    assert_eq!(family_summary_label_from_patchability_receipt("rust_cli_tool", None), "Rust CLI Tool");
    assert!(is_canonical_ecosystem_shell_family("chattycog_chattyedu_native_window_module"));
    assert!(!is_canonical_ecosystem_shell_family("chattycog_webview_module"));
    let mut f = family("f", None, None);
    assert_eq!(
        family_governed_artifact_set_summary(&f),
        "Governed artifact set: 1 family manifest plus declared primitive adapter surface"
    );
    f.manifest_path = s(" ");
    assert_eq!(
        family_governed_artifact_set_summary(&f),
        "Governed artifact set: 0 family manifest plus declared primitive adapter surface"
    );
    let t = TemplateGovernanceReceiptView {
        template_bundle_id: s("t"),
        template_category: s("c"),
        template_root: s("r"),
        artifact_paths: vec![s("a"), s("b"), s("c")],
        drift_status: s("d"),
        drift_notes: Vec::new(),
        change_since_last_live_status: s("x"),
        change_since_last_live_notes: Vec::new(),
    };
    assert_eq!(
        template_governed_artifact_set_summary(&t),
        "Governed artifact set: 3 template artifact(s) under the selected bundle root"
    );
}

fn template(id: &str, label: &str, bundle: &str) -> PrimitiveProofTemplate {
    PrimitiveProofTemplate {
        template_id: s(id),
        template_kind: s("monitoring"),
        display_label: s(label),
        description: s(""),
        comparison_bundle_id: s(bundle),
    }
}

fn receipt(id: &str, template: Option<&str>) -> CrossFamilyPairedProofReceiptSummary {
    CrossFamilyPairedProofReceiptSummary {
        receipt_id: s(id),
        proof_template_id: template.map(s),
        proof_template_kind: None,
        proof_template_display_label: None,
        capability_comparison_bundle_id: None,
        shared_request: s("monitor a folder"),
        left_request: s("left"),
        right_request: s("right"),
        left_project_name: s("lp"),
        left_composable_route_plan_path: None,
        left_primitive_execution_plan_path: Some(s("lp/plan.json")),
        right_project_name: s("rp"),
        right_composable_route_plan_path: None,
        right_primitive_execution_plan_path: None,
        comparison_receipt_path: s("cmp.json"),
        equivalent_capability_fulfillment: true,
        notes: vec![s("n1")],
        created_at: None,
    }
}

#[test]
fn proof_labels_and_filters() {
    let templates = vec![template("proof_helper_monitoring", "Helper Monitoring", "b1"), template("t2", " ", "b2")];
    assert_eq!(proof_template_label(&templates[0]), "Helper Monitoring");
    assert_eq!(proof_template_label(&templates[1]), "t2 (monitoring)");
    assert_eq!(proof_history_filter_label("all", &templates), "All Templates");
    assert_eq!(proof_history_filter_label("t2", &templates), "t2 (monitoring)");
    assert_eq!(proof_history_filter_label("zzz", &templates), "zzz");
    assert_eq!(proof_profile_label("custom"), "Custom");
    assert_eq!(proof_profile_label("fast"), "fast");
    assert_eq!(
        proof_template_description(&templates[0]),
        "Runs a generalized primitive proof across the template's declared family pair."
    );
    let r = receipt("r1", Some("t2"));
    assert!(proof_receipt_matches_filter(&r, "all"));
    assert!(proof_receipt_matches_filter(&r, "t2"));
    assert!(!proof_receipt_matches_filter(&r, "t3"));
    assert_eq!(proof_receipt_template_label(&r, &templates), Some(s("t2 (monitoring)")));
    let mut unknown = receipt("r2", Some("t9"));
    unknown.proof_template_kind = Some(s("kind"));
    assert_eq!(proof_receipt_template_label(&unknown, &templates), Some(s("t9 (kind)")));
    unknown.proof_template_id = None;
    assert_eq!(proof_receipt_template_label(&unknown, &templates), Some(s("kind")));
    unknown.proof_template_display_label = Some(s("Shown"));
    assert_eq!(proof_receipt_template_label(&unknown, &templates), Some(s("Shown")));
    assert_eq!(proof_receipt_template_label(&receipt("r3", None), &templates), None);
}

#[test]
fn comparison_bundles() {
    let templates = vec![template("t1", "T1", "b1")];
    let bundles = vec![
        CapabilityComparisonBundle { bundle_id: s("b0"), required_shared_capability_classes: vec![s("x")] },
        CapabilityComparisonBundle {
            bundle_id: s("b1"),
            required_shared_capability_classes: vec![s("watch"), s("notify"), s("log")],
        },
    ];
    assert_eq!(comparison_bundle_for_template(&templates[0], &bundles).map(|b| b.bundle_id.clone()), Some(s("b1")));
    let mut r = receipt("r", Some("t1"));
    assert_eq!(proof_receipt_comparison_bundle(&r, &bundles, &templates).map(|b| b.bundle_id.clone()), Some(s("b1")));
    r.capability_comparison_bundle_id = Some(s("b0"));
    assert_eq!(proof_receipt_comparison_bundle(&r, &bundles, &templates).map(|b| b.bundle_id.clone()), Some(s("b0")));
    let shared = CapabilityComparisonReceiptSummary { shared_capability_classes: vec![s("log"), s("watch")] };
    assert_eq!(
        required_bundle_status_lines(&bundles[1], &shared),
        vec![(s("watch"), true), (s("notify"), false), (s("log"), true)]
    );
    assert_eq!(compact_required_bundle_summary(&bundles[1], &shared), "2/3 satisfied, missing: notify");
    let all = CapabilityComparisonReceiptSummary { shared_capability_classes: vec![s("notify"), s("log"), s("watch")] };
    assert_eq!(compact_required_bundle_summary(&bundles[1], &all), "3/3 satisfied");
    let plain = receipt("r", Some("t1"));
    assert_eq!(paired_proof_required_bundle_summary(&plain, &bundles, &templates, Some(&all)), "3/3 satisfied");
    assert_eq!(
        paired_proof_required_bundle_summary(&plain, &bundles, &templates, None),
        "Comparison receipt unavailable"
    );
    assert_eq!(
        paired_proof_required_bundle_summary(&receipt("r", None), &bundles, &templates, Some(&all)),
        "No comparison bundle"
    );
}

#[test]
fn receipt_history_lookups() {
    let receipts = vec![
        (receipt("new", Some("t1")), s("a.json")),
        (receipt("old", Some("t1")), s("b.json")),
    ];
    assert_eq!(latest_proof_receipt_for_template(&receipts, "t1").map(|r| r.0.receipt_id.clone()), Some(s("new")));
    assert!(latest_proof_receipt_for_template(&receipts, "t2").is_none());
    let item = |id: Option<&str>, stamp: &str| ExtensionActivityItem {
        entry_id: id.map(s),
        title: s("t"),
        detail: s("d"),
        success: true,
        timestamp_label: s(stamp),
    };
    let activity = vec![item(Some("r1"), "10:00"), item(None, "10:05"), item(Some("r1"), "10:10"), item(Some("r2"), "10:20")];
    assert_eq!(latest_proof_last_touched(&activity, "r1"), Some(s("10:10")));
    assert_eq!(latest_proof_last_touched(&activity, "r3"), None);
}

#[test]
fn paired_proof_diff_and_markdown() {
    let a = receipt("r1", Some("t1"));
    assert_eq!(paired_proof_artifact_count(&a, "x.json"), 3);
    assert_eq!(
        build_paired_proof_diff_summary(&a, "x.json", &receipt("r1", Some("t1")), "y.json"),
        vec![s("No high-signal proof summary changes detected.")]
    );
    let mut b = receipt("r0", Some("t1"));
    b.equivalent_capability_fulfillment = false;
    b.left_project_name = s("old_left");
    b.right_primitive_execution_plan_path = Some(s("rp/plan.json"));
    b.notes = Vec::new();
    assert_eq!(
        build_paired_proof_diff_summary(&a, "x.json", &b, "y.json"),
        vec![
            s("Outcome changed: false -> true"),
            s("Project pair changed: old_left -> lp / rp -> rp"),
            s("Linked artifact count changed: 4 -> 3"),
            s("Proof notes changed."),
        ]
    );
    let md = build_paired_proof_summary_markdown(&a, "runtime/r1.json", None);
    assert_eq!(
        md,
        "# Paired Proof Summary: r1\n\n- Shared request: monitor a folder\n- Equivalent capability fulfillment: true\n- Left project: lp\n- Right project: rp\n- Paired receipt: runtime/r1.json\n- Comparison receipt: cmp.json\n- Left primitive execution plan: lp/plan.json\n\n## Requests\n- Left request: left\n- Right request: right\n\n## Notes\n- n1\n\n## Proof Note\n(no note)"
    );
}
