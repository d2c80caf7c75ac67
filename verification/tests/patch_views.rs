use chatty_factory::patchability::{
    current_patch_lane_maturity_for_execution, current_patch_lane_maturity_for_project,
    current_patch_lane_superseded_for_project, lane_readiness_tone, patch_lane_maturity_badge,
    patch_lane_maturity_explanation, patch_lane_superseded_summary, project_has_decomposable_historical_blockers,
    project_has_historical_blockers, project_patchability_badge, project_patchability_risk_rank,
    summarize_project_patch_readiness, PatchLaneStatus, ProjectPatchReadinessReceiptView,
    ProjectSpec, Tone,
};
use chatty_factory::xray::{
    project_patch_xray_outcome, project_patch_xray_outcome_badge, project_patch_xray_outcome_reason,
    xray_companion_file_names, AnchorFreeze, PatchDiagnosisFacts, ProjectPatchXrayView,
};

fn lane(kind: &str, readiness: &str, reason: &str) -> PatchLaneStatus {
    PatchLaneStatus {
        patch_kind: kind.to_string(),
        effective_preflight_readiness: readiness.to_string(),
        preflight_readiness_reason: reason.to_string(),
        surgical_maturity: "narrow_surface_contract".to_string(),
        superseded_by_patch_kinds: Vec::new(),
    }
}

fn spec(lanes: Vec<PatchLaneStatus>) -> ProjectSpec {
    ProjectSpec { project_name: "demo".to_string(), family_id: "cli".to_string(), patch_lanes: lanes }
}

fn receipt(status: &str) -> ProjectPatchReadinessReceiptView {
    ProjectPatchReadinessReceiptView {
        family_display_name: None,
        family_ecosystem: None,
        superseded_blocked_lane_replacements: Vec::new(),
        risky_blocked_lane_count: 0,
        historical_blocked_lane_count: 0,
        decomposable_historical_blocker_count: 0,
        change_since_patchability_baseline_status: status.to_string(),
        change_since_patchability_baseline_notes: Vec::new(),
    }
}

#[test]
fn readiness_counts_and_first_blocked_reason() {
    let s = summarize_project_patch_readiness(&spec(vec![
        lane("a", "ready", ""),
        lane("b", "dependency_blocked", "   "),
        lane("c", "surface_mismatch", "  anchor moved  "),
        lane("d", "structurally_blocked", "later reason"),
        lane("e", "odd", ""),
        lane("f", "already_present", ""),
    ]));
    assert_eq!(s.ready_count, 1);
    assert_eq!(s.already_present_count, 1);
    assert_eq!(s.dependency_blocked_count, 1);
    assert_eq!(s.surface_mismatch_count, 1);
    assert_eq!(s.structurally_blocked_count, 1);
    assert_eq!(s.unknown_count, 1);
    assert_eq!(s.first_blocked_reason, Some("anchor moved".to_string()));
}

#[test]
fn patchability_badges_and_ranks() {
    let clean = summarize_project_patch_readiness(&spec(vec![lane("a", "ready", "")]));
    let risky = summarize_project_patch_readiness(&spec(vec![lane("a", "surface_mismatch", "x")]));
    let waiting = summarize_project_patch_readiness(&spec(vec![lane("a", "dependency_blocked", "x")]));
    assert_eq!(project_patchability_badge(None, &clean), ("patch-ready", Tone { r: 84, g: 168, b: 108 }));
    assert_eq!(project_patchability_badge(None, &risky), ("patch-risk", Tone { r: 196, g: 102, b: 72 }));
    assert_eq!(project_patchability_badge(None, &waiting), ("patch-waiting", Tone { r: 214, g: 170, b: 72 }));
    let regressed = receipt("regressed_since_patchability_baseline");
    assert_eq!(project_patchability_badge(Some(&regressed), &clean).0, "patch-regressed");
    assert_eq!(project_patchability_risk_rank(Some(&regressed), &clean), 5);
    let mut baseline = receipt("baseline_recorded");
    assert_eq!(project_patchability_badge(Some(&baseline), &risky).0, "patch-baselined");
    assert_eq!(project_patchability_risk_rank(Some(&baseline), &risky), 0);
    baseline.decomposable_historical_blocker_count = 2;
    assert_eq!(project_patchability_badge(Some(&baseline), &risky).0, "patch-decomposable");
    assert_eq!(project_patchability_risk_rank(Some(&baseline), &risky), 2);
    let mut other = receipt("unknown_status");
    other.historical_blocked_lane_count = 1;
    assert_eq!(project_patchability_badge(Some(&other), &risky).0, "patch-historical");
    assert_eq!(project_patchability_risk_rank(Some(&other), &risky), 1);
    assert_eq!(project_patchability_risk_rank(None, &risky), 4);
    assert_eq!(project_patchability_risk_rank(None, &waiting), 2);
    assert_eq!(project_patchability_risk_rank(None, &clean), 1);
    assert_eq!(project_patchability_risk_rank(Some(&receipt("improved_since_patchability_baseline")), &risky), 0);
}

#[test]
fn historical_markers() {
    let mut r = receipt("baseline_recorded");
    assert!(!project_has_historical_blockers(Some(&r)));
    assert!(!project_has_historical_blockers(None));
    r.superseded_blocked_lane_replacements = vec![("old".to_string(), vec!["new".to_string()])];
    assert!(project_has_historical_blockers(Some(&r)));
    assert!(!project_has_decomposable_historical_blockers(Some(&r)));
    r.decomposable_historical_blocker_count = 1;
    assert!(project_has_decomposable_historical_blockers(Some(&r)));
}

#[test]
fn lane_lookups() {
    let mut l1 = lane("add_route", "ready", "");
    l1.superseded_by_patch_kinds = vec!["add_route_v2".to_string(), "add_route_v3".to_string()];
    let mut l2 = lane("blank", "ready", "");
    l2.surgical_maturity = "  ".to_string();
    let s = spec(vec![l1, l2]);
    assert_eq!(
        current_patch_lane_maturity_for_project(Some(&s), "add_route"),
        Some("narrow_surface_contract".to_string())
    );
    assert_eq!(current_patch_lane_maturity_for_project(Some(&s), "blank"), None);
    assert_eq!(current_patch_lane_maturity_for_project(None, "add_route"), None);
    assert_eq!(
        current_patch_lane_superseded_for_project(Some(&s), "add_route"),
        Some("add_route_v2, add_route_v3".to_string())
    );
    assert_eq!(current_patch_lane_superseded_for_project(Some(&s), "blank"), None);
    assert_eq!(current_patch_lane_maturity_for_execution(&s.patch_lanes, "missing"), None);
    assert_eq!(
        patch_lane_superseded_summary(&s.patch_lanes[0]),
        Some("add_route_v2, add_route_v3".to_string())
    );
}

#[test]
fn maturity_words_and_tones() {
    assert_eq!(
        patch_lane_maturity_badge("anchor_only_contract"),
        ("anchor-only".to_string(), Tone { r: 140, g: 120, b: 70 })
    );
    assert_eq!(
        patch_lane_maturity_badge("bespoke"),
        ("bespoke".to_string(), Tone { r: 160, g: 160, b: 160 })
    );
    assert_eq!(
        patch_lane_maturity_explanation("whatever"),
        "the lane has a custom maturity classification"
    );
    assert_eq!(lane_readiness_tone("fully_live", 0, 0).0, "Ready");
    assert_eq!(lane_readiness_tone("fully_live", 1, 0).0, "In progress");
    assert_eq!(lane_readiness_tone("archived", 3, 3).0, "Archived");
    assert_eq!(lane_readiness_tone("implemented", 0, 2).0, "Needs review");
    assert_eq!(lane_readiness_tone("host_wired", 0, 0), ("Needs review", Tone { r: 214, g: 170, b: 72 }));
}

fn xray(conflicts: &[&str], freeze: Option<(&[&str], &[&str])>, postcheck: bool) -> ProjectPatchXrayView {
    ProjectPatchXrayView {
        diagnosis_path: "runtime/patch_diagnoses/r1-diagnosis.json".to_string(),
        diagnosis: PatchDiagnosisFacts {
            project_name: "demo".to_string(),
            request_id: "r1".to_string(),
            present_conflicting_anchor_markers: conflicts.iter().map(|s| s.to_string()).collect(),
        },
        freeze_path: None,
        freeze: freeze.map(|(req, conf)| AnchorFreeze {
            required_anchor_markers: req.iter().map(|s| s.to_string()).collect(),
            confirmed_anchor_markers: conf.iter().map(|s| s.to_string()).collect(),
        }),
        postcheck_path: if postcheck { Some("p".to_string()) } else { None },
    }
}

#[test]
fn xray_outcomes_and_reasons() {
    let applied = xray(&["a"], None, true);
    assert_eq!(project_patch_xray_outcome(&applied), "applied");
    assert_eq!(project_patch_xray_outcome_reason(&applied), "postcheck passed and invariants held");
    let conflicted = xray(&["a", "b", "c"], None, false);
    assert_eq!(project_patch_xray_outcome(&conflicted), "anchor-blocked");
    assert_eq!(
        project_patch_xray_outcome_reason(&conflicted),
        "conflicting evolved anchors already present: a, b"
    );
    let frozen = xray(&[], Some((&["x", "y", "z"], &["y"])), false);
    assert_eq!(project_patch_xray_outcome(&frozen), "anchor-blocked");
    assert_eq!(project_patch_xray_outcome_reason(&frozen), "required anchors missing: x, z");
    let renamed = xray(&[], Some((&["x", "y"], &["q"])), false);
    assert_eq!(project_patch_xray_outcome_reason(&renamed), "required anchors missing: x, y");
    let confirmed_other = xray(&[], Some((&["x", "x"], &["x"])), false);
    assert_eq!(
        project_patch_xray_outcome_reason(&confirmed_other),
        "required insertion anchors were not confirmed"
    );
    let skipped = xray(&[], Some((&["x"], &["x"])), false);
    assert_eq!(project_patch_xray_outcome(&skipped), "duplicate-skip");
    assert_eq!(
        project_patch_xray_outcome_reason(&skipped),
        "surface already present, so duplicate insertion was skipped"
    );
    assert_eq!(
        project_patch_xray_outcome_badge("applied"),
        ("applied".to_string(), Tone { r: 70, g: 140, b: 90 })
    );
    assert_eq!(
        project_patch_xray_outcome_badge("other"),
        ("other".to_string(), Tone { r: 160, g: 160, b: 160 })
    );
    assert_eq!(
        xray_companion_file_names("r1"),
        ("r1-freeze.json".to_string(), "r1-postcheck.json".to_string())
    );
}
