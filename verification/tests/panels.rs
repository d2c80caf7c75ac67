use chatty_factory::proof_history::proof_history_view;
use chatty_factory::proofs::{CrossFamilyPairedProofReceiptSummary, PrimitiveProofTemplate};
use chatty_factory::acceptance::verify_exists_check;
use chatty_factory::failure::{classify_failure, FailureClass};
use chatty_factory::dashboard::{dashboard_lists, dashboard_shortcuts, lane_timeline, LaneFilters, RegistryScope};
use chatty_factory::proofs::ExtensionActivityItem;
use chatty_factory::extension_sort::ExtensionRegistrySort;
use chatty_factory::extensions::{BaselineFilter, PendingExtensionEntry, ProofQualityFilter};
use chatty_factory::families::FamilyGovernanceReceiptView;
use chatty_factory::governance_panel::{
    family_governance_metrics, family_governance_refresh_warning, governance_refresh_warning,
    keep_family_selection, selected_family_receipt,
};
use chatty_factory::patchability::{ProjectPatchReadinessReceiptView, ProjectPatchReadinessSummary, Tone};
use chatty_factory::profiles::{ProofPanelSettings, ProofRunProfile};
use chatty_factory::project_browser::{
    project_browser_metrics, project_browser_rows, ProjectBrowserFilters, ProjectBrowserRow,
};
use chatty_factory::refresh::GovernanceRefreshStatusView;
use chatty_factory::registry::registry_from_entries;
use chatty_factory::toasts::ToastKind;
use chatty_factory::workbench::{toggle_extension_favorite, toggle_paired_proof_favorite};

fn readiness(structural: usize, surface: usize, dependency: usize) -> ProjectPatchReadinessSummary {
    ProjectPatchReadinessSummary {
        ready_count: 1,
        already_present_count: 0,
        dependency_blocked_count: dependency,
        structurally_blocked_count: structural,
        surface_mismatch_count: surface,
        unknown_count: 0,
        first_blocked_reason: None,
    }
}

fn receipt(status: &str, risky: usize, historical: bool, decomposable: usize) -> ProjectPatchReadinessReceiptView {
    ProjectPatchReadinessReceiptView {
        family_display_name: None,
        family_ecosystem: None,
        superseded_blocked_lane_replacements: if historical {
            vec![("old_lane".to_string(), vec!["new_lane".to_string()])]
        } else {
            Vec::new()
        },
        risky_blocked_lane_count: risky,
        historical_blocked_lane_count: if historical { 1 } else { 0 },
        decomposable_historical_blocker_count: decomposable,
        change_since_patchability_baseline_status: status.to_string(),
        change_since_patchability_baseline_notes: Vec::new(),
    }
}

fn row(
    name: &str,
    r: ProjectPatchReadinessSummary,
    rec: Option<ProjectPatchReadinessReceiptView>,
    overrides: usize,
) -> ProjectBrowserRow {
    ProjectBrowserRow { project_name: name.to_string(), readiness: r, receipt: rec, recent_override_count: overrides }
}

fn no_filters() -> ProjectBrowserFilters {
    ProjectBrowserFilters {
        blocked_lanes_only: false,
        regressed_only: false,
        improved_only: false,
        historical_blockers_only: false,
        decomposable_historical_only: false,
    }
}

fn sample_rows() -> Vec<ProjectBrowserRow> {
    vec![
        // risk 1 (no receipt, nothing blocked)
        row("calm", readiness(0, 0, 0), None, 0),
        // risk 5 (regressed)
        row("regress", readiness(0, 0, 1), Some(receipt("regressed_since_patchability_baseline", 0, false, 0)), 0),
        // risk 0 (improved)
        row("better", readiness(0, 0, 0), Some(receipt("improved_since_patchability_baseline", 0, false, 0)), 2),
        // risk 4 (structural blocker, no receipt)
        row("blocked_b", readiness(2, 0, 0), None, 1),
        // risk 4, more overrides
        row("blocked_a", readiness(1, 0, 0), None, 3),
        // risk 1, same keys as "calm" but a later name
        row("calm2", readiness(0, 0, 0), None, 0),
        // baseline recorded with historical blocker: risk 1
        row("hist", readiness(0, 0, 0), Some(receipt("baseline_recorded", 0, true, 1)), 0),
    ]
}

fn names(rows: &[ProjectBrowserRow], idx: &[usize]) -> Vec<String> {
    idx.iter().map(|&i| rows[i].project_name.clone()).collect()
}

#[test]
fn project_browser_lists_in_order_or_by_patch_risk() {
    let rows = sample_rows();
    let plain = project_browser_rows(&rows, &no_filters(), false);
    assert_eq!(plain, vec![0, 1, 2, 3, 4, 5, 6]);
    let by_risk = project_browser_rows(&rows, &no_filters(), true);
    assert_eq!(
        names(&rows, &by_risk),
        vec!["regress", "blocked_a", "blocked_b", "hist", "calm", "calm2", "better"]
    );
}

#[test]
fn project_browser_filters() {
    let rows = sample_rows();
    let mut f = no_filters();
    f.blocked_lanes_only = true;
    assert_eq!(names(&rows, &project_browser_rows(&rows, &f, false)), vec!["regress", "blocked_b", "blocked_a"]);
    let mut f = no_filters();
    f.regressed_only = true;
    assert_eq!(names(&rows, &project_browser_rows(&rows, &f, true)), vec!["regress"]);
    let mut f = no_filters();
    f.improved_only = true;
    assert_eq!(names(&rows, &project_browser_rows(&rows, &f, false)), vec!["better"]);
    let mut f = no_filters();
    f.historical_blockers_only = true;
    f.decomposable_historical_only = true;
    assert_eq!(names(&rows, &project_browser_rows(&rows, &f, false)), vec!["hist"]);
    f.improved_only = true;
    assert!(project_browser_rows(&rows, &f, true).is_empty());
}

#[test]
fn project_browser_counts() {
    let rows = sample_rows();
    let m = project_browser_metrics(&rows);
    assert_eq!(m.regressed, 1);
    assert_eq!(m.improved, 1);
    assert_eq!(m.blocked, 3);
    assert_eq!(m.risky_blockers, 0);
    assert_eq!(m.historical_blockers, 1);
    assert_eq!(m.decomposable_historical, 1);
    assert_eq!(m.override_heavy, 3);
}

fn entry(id: &str, status: &str) -> PendingExtensionEntry {
    PendingExtensionEntry {
        entry_id: id.to_string(),
        status: status.to_string(),
        extension_kind: "helper_lane".to_string(),
        family_id: None,
        tool_kind: None,
        patch_kind: None,
        archived_reason: None,
        scaffold_root: format!("operator_registry/{id}"),
        source_stub_path: format!("operator_registry/{id}/stub.json"),
        unresolved_layers: Vec::new(),
        missing_family_build_primitive_classes: Vec::new(),
        missing_patch_primitive_classes: Vec::new(),
        missing_helper_primitive_kinds: Vec::new(),
        integrated_paths: Vec::new(),
        promotion_artifacts: Vec::new(),
        apply_patch_artifacts: Vec::new(),
        proof_quality_status: None,
        proof_seed_template_id: None,
        proof_seed_bundle_id: None,
        proof_drift_status: None,
        proof_change_since_last_pass_status: None,
        composition_drift_status: None,
        composition_change_since_last_live_status: None,
        patch_drift_status: None,
        patch_change_since_last_live_status: None,
        helper_drift_status: None,
        helper_change_since_last_live_status: None,
        bridge_drift_status: None,
        bridge_change_since_last_live_status: None,
    }
}

fn all_filters() -> LaneFilters {
    LaneFilters {
        proof_quality: ProofQualityFilter::All,
        proof_baseline: BaselineFilter::All,
        composition_baseline: BaselineFilter::All,
        patch_baseline: BaselineFilter::All,
        helper_baseline: BaselineFilter::All,
        bridge_baseline: BaselineFilter::All,
    }
}

fn ids(v: &[&PendingExtensionEntry]) -> Vec<String> {
    v.iter().map(|e| e.entry_id.clone()).collect()
}

#[test]
fn dashboard_lists_per_scope_first_eight_sorted() {
    let mut entries = Vec::new();
    for i in 0..10 {
        entries.push(entry(&format!("live{i}"), "fully_live"));
    }
    entries.push(entry("act_b", "implemented"));
    entries.push(entry("act_a", "implemented"));
    entries.push(entry("gone", "archived"));
    let reg = registry_from_entries(entries);
    let all = dashboard_lists(&reg, "", all_filters(), ExtensionRegistrySort::RecentFirst, RegistryScope::All);
    assert_eq!(
        ids(&all.shipped),
        vec!["live9", "live8", "live7", "live6", "live5", "live4", "live3", "live2"]
    );
    assert_eq!(ids(&all.active), vec!["act_b", "act_a"]);
    assert_eq!(ids(&all.archived), vec!["gone"]);
    assert!(!all.no_lanes_match);
    let active_only =
        dashboard_lists(&reg, "act", all_filters(), ExtensionRegistrySort::RecentFirst, RegistryScope::Active);
    assert!(active_only.shipped.is_empty());
    assert!(active_only.archived.is_empty());
    assert_eq!(ids(&active_only.active), vec!["act_b", "act_a"]);
    let archived_scope =
        dashboard_lists(&reg, "live1", all_filters(), ExtensionRegistrySort::RecentFirst, RegistryScope::Archived);
    assert!(archived_scope.shipped.is_empty() && archived_scope.active.is_empty() && archived_scope.archived.is_empty());
    assert!(!archived_scope.no_lanes_match);
    let none = dashboard_lists(&reg, "zzz", all_filters(), ExtensionRegistrySort::RecentFirst, RegistryScope::All);
    assert!(none.no_lanes_match);
}

fn status(age: Option<u64>) -> GovernanceRefreshStatusView {
    GovernanceRefreshStatusView {
        status_id: "refresh-1".to_string(),
        refreshed_entries: 3,
        skipped_entries: 1,
        updated_at: "2024-05-01T10:00:00Z".to_string(),
        refreshed_at_label: None,
        age_minutes: age,
    }
}

#[test]
fn governance_warning_choice() {
    let never = governance_refresh_warning(None, false, "Family governance", "family governance", "Refresh family governance now");
    assert_eq!(
        never,
        Some((Tone { r: 214, g: 143, b: 58 }, "Family governance has never been refreshed. Refresh recommended.".to_string()))
    );
    let stale = governance_refresh_warning(Some(&status(Some(75))), true, "Family governance", "family governance", "Refresh family governance now");
    assert_eq!(
        stale,
        Some((Tone { r: 214, g: 143, b: 58 }, "Family governance view is stale (75 minutes old). Refresh recommended.".to_string()))
    );
    let cooling = governance_refresh_warning(Some(&status(Some(5))), true, "Family governance", "family governance", "Refresh family governance now");
    assert_eq!(
        cooling,
        Some((
            Tone { r: 184, g: 160, b: 84 },
            "Launch auto-refresh for family governance is in cooldown. Use \"Refresh family governance now\" to bypass cooldown.".to_string()
        ))
    );
    assert_eq!(governance_refresh_warning(Some(&status(None)), false, "A", "a", "b"), None);
    let now = 1_700_000_000;
    assert_eq!(family_governance_refresh_warning(Some(&status(Some(5))), Some(now - 60), now).map(|w| w.0), Some(Tone { r: 184, g: 160, b: 84 }));
    assert_eq!(family_governance_refresh_warning(Some(&status(Some(5))), Some(now - 3600), now), None);
}

fn family(id: &str, change: &str) -> FamilyGovernanceReceiptView {
    FamilyGovernanceReceiptView {
        family_id: id.to_string(),
        family_display_name: None,
        family_ecosystem: None,
        manifest_path: "families/x.json".to_string(),
        primary_substrate: "rust".to_string(),
        lifecycle_status: "live".to_string(),
        lifecycle_notes: Vec::new(),
        supported_tool_kinds: Vec::new(),
        provided_build_primitive_classes: Vec::new(),
        primitive_adapter_ids: Vec::new(),
        drift_status: "aligned".to_string(),
        drift_notes: Vec::new(),
        change_since_last_live_status: change.to_string(),
        change_since_last_live_notes: Vec::new(),
    }
}

#[test]
fn family_panel_counts_and_selection() {
    let receipts = vec![
        family("cli", "stable_since_last_live"),
        family("chattycog_native_window_module", "baseline_recorded"),
        family("web", "changed_since_last_live"),
        family("game", "regressed_since_last_live"),
    ];
    let m = family_governance_metrics(&receipts);
    assert_eq!((m.governed, m.canonical_shells, m.stable, m.changed, m.regressed), (4, 1, 2, 1, 1));
    assert_eq!(keep_family_selection(&receipts, Some("web".to_string())), Some("web".to_string()));
    assert_eq!(keep_family_selection(&receipts, Some("gone".to_string())), Some("cli".to_string()));
    assert_eq!(keep_family_selection(&receipts, None), Some("cli".to_string()));
    assert_eq!(keep_family_selection(&Vec::new(), Some("x".to_string())), Some("x".to_string()));
    assert_eq!(selected_family_receipt(&receipts, Some("game")), Some(3));
    assert_eq!(selected_family_receipt(&receipts, Some("nope")), None);
    assert_eq!(selected_family_receipt(&receipts, None), None);
}

#[test]
fn toggling_a_favorite_reports_and_restores() {
    let mut favorites = vec!["a".to_string(), "c".to_string()];
    let mut activity = Vec::new();
    let mut toasts = Vec::new();
    let first = toggle_extension_favorite(&mut favorites, &mut activity, &mut toasts, "b", "10:00".to_string(), 5);
    assert_eq!(first, "Pinned lane favorite");
    assert_eq!(favorites, vec!["a", "b", "c"]);
    let second = toggle_extension_favorite(&mut favorites, &mut activity, &mut toasts, "b", "10:01".to_string(), 6);
    assert_eq!(second, "Removed lane favorite");
    assert_eq!(favorites, vec!["a", "c"]);
    assert_eq!(activity.len(), 2);
    assert_eq!(activity[1].title, "Removed lane favorite");
    assert_eq!(activity[1].entry_id, Some("b".to_string()));
    assert_eq!(activity[1].detail, "b");
    assert_eq!(toasts.len(), 2);
    assert_eq!(toasts[0].message, "Pinned lane favorite");
    assert_eq!(toasts[0].kind, ToastKind::Success);
    let proof = toggle_paired_proof_favorite(&mut favorites, &mut activity, &mut toasts, "a", "10:02".to_string(), 7);
    assert_eq!(proof, "Removed proof favorite");
}

fn settings() -> ProofPanelSettings {
    ProofPanelSettings {
        selected_proof_template_id: "tpl_b".to_string(),
        proof_history_template_filter: "all".to_string(),
        pin_history_filter_to_selected_template: true,
        auto_planner: false,
        planner_port: "8080".to_string(),
        planner_model: "m".to_string(),
        selected_proof_profile_name: "custom".to_string(),
        proof_profile_name_input: String::new(),
        proof_run_profiles: Vec::new(),
    }
}

#[test]
fn template_follow_and_profile_selection() {
    let mut s = settings();
    s.follow_selected_template();
    assert_eq!(s.proof_history_template_filter, "tpl_b");
    s.pin_history_filter_to_selected_template = false;
    s.selected_proof_template_id = "tpl_c".to_string();
    s.follow_selected_template();
    assert_eq!(s.proof_history_template_filter, "tpl_b");
    assert!(s.template_controls_changed("tpl_b", false));
    assert!(s.template_controls_changed("tpl_c", true));
    assert!(!s.template_controls_changed("tpl_c", false));

    assert_eq!(s.save_current_proof_run_profile("  nightly "), Ok("Saved proof profile"));
    s.selected_proof_template_id = "tpl_z".to_string();
    assert_eq!(s.save_current_proof_run_profile("alpha"), Ok("Saved proof profile"));
    let names: Vec<String> = s.proof_run_profiles.iter().map(|p: &ProofRunProfile| p.profile_name.clone()).collect();
    assert_eq!(names, vec!["alpha", "nightly"]);
    s.selected_proof_profile_name = "nightly".to_string();
    assert!(s.apply_selected_profile("alpha"));
    assert_eq!(s.selected_proof_template_id, "tpl_c");
    assert!(!s.apply_selected_profile("nightly"));
}

use chatty_factory::constraint_shelf::{
    constraint_shelf_view, shelf_match_marker, ShelfConstraintRow, ShelfFilters,
};

fn shelf_row(id: &str, active: bool, matches: usize, origin: Option<&str>) -> ShelfConstraintRow {
    ShelfConstraintRow {
        constraint_id: id.to_string(),
        active,
        match_count: matches,
        proposal_origin: origin.map(|o| o.to_string()),
    }
}

fn shelf_switches() -> ShelfFilters {
    ShelfFilters {
        unmatched_only: false,
        inactive_unmatched_only: false,
        low_value_active_only: false,
        triangulated_origin_only: false,
    }
}

#[test]
fn constraint_shelf_orders_filters_and_explains_empty() {
    let mut rows = Vec::new();
    for i in 0..9 {
        rows.push(shelf_row(&format!("c{i}"), true, 0, None));
    }
    rows.push(shelf_row("hot", true, 5, Some("triangulated_task_failure")));
    rows.push(shelf_row("warm", false, 2, None));
    let all = constraint_shelf_view(&rows, &shelf_switches());
    let ids: Vec<String> = all.shown.iter().map(|&i| rows[i].constraint_id.clone()).collect();
    assert_eq!(ids, vec!["hot", "warm", "c0", "c1", "c2", "c3", "c4", "c5"]);
    assert_eq!(all.empty_message, None);

    let mut f = shelf_switches();
    f.triangulated_origin_only = true;
    let tri = constraint_shelf_view(&rows, &f);
    assert_eq!(tri.shown, vec![9]);

    let mut f = shelf_switches();
    f.inactive_unmatched_only = true;
    let none = constraint_shelf_view(&rows, &f);
    assert!(none.shown.is_empty());
    assert_eq!(
        none.empty_message,
        Some("No approved constraints are currently both inactive and unmatched.")
    );
    f.triangulated_origin_only = true;
    assert_eq!(
        constraint_shelf_view(&rows, &f).empty_message,
        Some("No approved constraints are currently visible from triangulated origin under this shelf filter.")
    );

    assert_eq!(shelf_match_marker(true, 0), Some("[active-unmatched]"));
    assert_eq!(shelf_match_marker(false, 0), Some("[inactive-unmatched]"));
    assert_eq!(shelf_match_marker(false, 3), None);
}

#[test]
fn missing_target_message_is_a_missing_file_failure() {
    let err = verify_exists_check("readme", "README.md", false).unwrap_err();
    assert_eq!(err, "acceptance check 'readme' failed: missing README.md");
    assert_eq!(classify_failure(&err), FailureClass::MissingExpectedFiles);
    let schema = verify_exists_check("Schema-file", "schema.json", false).unwrap_err();
    assert_eq!(classify_failure(&schema), FailureClass::InvalidMetadata);
}

fn proof_receipt(id: &str, template: Option<&str>) -> CrossFamilyPairedProofReceiptSummary {
    CrossFamilyPairedProofReceiptSummary {
        receipt_id: id.to_string(),
        proof_template_id: template.map(|t| t.to_string()),
        proof_template_kind: None,
        proof_template_display_label: None,
        capability_comparison_bundle_id: None,
        shared_request: "monitor a folder".to_string(),
        left_request: "left".to_string(),
        right_request: "right".to_string(),
        left_project_name: "lp".to_string(),
        left_composable_route_plan_path: None,
        left_primitive_execution_plan_path: None,
        right_project_name: "rp".to_string(),
        right_composable_route_plan_path: None,
        right_primitive_execution_plan_path: None,
        comparison_receipt_path: "cmp.json".to_string(),
        equivalent_capability_fulfillment: true,
        notes: Vec::new(),
        created_at: None,
    }
}

#[test]
fn proof_results_follow_the_template_filter() {
    let templates = vec![PrimitiveProofTemplate {
        template_id: "t1".to_string(),
        template_kind: "monitoring".to_string(),
        display_label: "Monitoring".to_string(),
        description: String::new(),
        comparison_bundle_id: "b1".to_string(),
    }];
    let mut receipts = Vec::new();
    for i in 0..10 {
        receipts.push(proof_receipt(&format!("r{i}"), Some(if i % 2 == 0 { "t1" } else { "t2" })));
    }
    let favorites = vec!["r2".to_string(), "r3".to_string()];
    let all = proof_history_view(&receipts, "all", &favorites, &templates);
    assert_eq!(all.matching.len(), 10);
    assert_eq!(all.recent, vec![0, 1, 2, 3, 4, 5, 6, 7]);
    assert_eq!(all.history.len(), 10);
    assert_eq!(all.favorites, vec![2, 3]);
    assert_eq!(all.empty_message, None);
    let t1 = proof_history_view(&receipts, "t1", &favorites, &templates);
    assert_eq!(t1.matching, vec![0, 2, 4, 6, 8]);
    assert_eq!(t1.favorites, vec![2]);
    let none = proof_history_view(&receipts, "t3", &favorites, &templates);
    assert_eq!(none.empty_message, Some("No proof receipts match the t3 filter.".to_string()));
    let none = proof_history_view(&Vec::new(), "t1", &favorites, &templates);
    assert_eq!(none.empty_message, Some("No proof receipts match the Monitoring filter.".to_string()));
}

#[test]
fn dashboard_favorites_recent_and_timeline() {
    let reg = registry_from_entries(vec![
        entry("live_a", "fully_live"),
        entry("act_a", "implemented"),
        entry("act_b", "implemented"),
        entry("old", "archived"),
    ]);
    let favorites = vec!["old".to_string(), "act_a".to_string(), "live_a".to_string()];
    let recent = vec!["missing".to_string(), "old".to_string(), "act_b".to_string()];
    let s = dashboard_shortcuts(&reg, "", all_filters(), ExtensionRegistrySort::RecentFirst, &favorites, &recent);
    assert_eq!(ids(&s.favorites), vec!["old", "live_a", "act_a"]);
    assert_eq!(ids(&s.recent), vec!["old", "act_b"]);
    let s = dashboard_shortcuts(&reg, "act", all_filters(), ExtensionRegistrySort::RecentFirst, &favorites, &recent);
    assert_eq!(ids(&s.favorites), vec!["act_a"]);
    assert_eq!(ids(&s.recent), vec!["act_b"]);

    let item = |id: Option<&str>, n: usize| ExtensionActivityItem {
        entry_id: id.map(|x| x.to_string()),
        title: format!("t{n}"),
        detail: String::new(),
        success: true,
        timestamp_label: String::new(),
    };
    let mut activity = Vec::new();
    for n in 0..12 {
        activity.push(item(if n % 3 == 0 { None } else { Some("lane") }, n));
    }
    assert_eq!(lane_timeline(&activity, "lane"), vec![11, 10, 8, 7, 5, 4, 2, 1]);
    assert!(lane_timeline(&activity, "other").is_empty());
}
