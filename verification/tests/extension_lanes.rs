use chatty_factory::extension_sort::{sort_extension_entries, ExtensionRegistrySort};
use chatty_factory::extensions::{
    bridge_drift_badge, composition_baseline_badge, composition_baseline_matches,
    count_proof_baseline_status, extension_entry_matches_filters, extension_entry_matches_query,
    extension_governed_artifact_set_summary, extension_layers_summary, extension_status_blockers,
    extension_status_rank, find_extension_entry, patch_drift_badge, proof_baseline_badge,
    proof_baseline_matches, proof_baseline_risk_rank, proof_drift_risk_rank, proof_lineage_status,
    proof_quality_badge, proof_quality_matches, BaselineFilter, PendingExtensionEntry,
    ProofQualityFilter,
};
use chatty_factory::registry::registry_from_entries;

fn entry(id: &str, status: &str, kind: &str) -> PendingExtensionEntry {
    PendingExtensionEntry {
        entry_id: id.to_string(),
        status: status.to_string(),
        extension_kind: kind.to_string(),
        family_id: None,
        tool_kind: None,
        patch_kind: None,
        archived_reason: None,
        scaffold_root: format!("operator_registry/{id}"),
        source_stub_path: format!("operator_registry/{id}/stub.json"),
        unresolved_layers: Vec::new(),
        missing_family_build_primitive_classes: Vec::new(),
        missing_patch_primitive_classes: Vec::new(),
        missing_helper_primitive_kinds: Vec::new(),
        integrated_paths: Vec::new(),
        promotion_artifacts: Vec::new(),
        apply_patch_artifacts: Vec::new(),
        proof_quality_status: None,
        proof_seed_template_id: None,
        proof_seed_bundle_id: None,
        proof_drift_status: None,
        proof_change_since_last_pass_status: None,
        composition_drift_status: None,
        composition_change_since_last_live_status: None,
        patch_drift_status: None,
        patch_change_since_last_live_status: None,
        helper_drift_status: None,
        helper_change_since_last_live_status: None,
        bridge_drift_status: None,
        bridge_change_since_last_live_status: None,
    }
}

#[test]
fn query_matches_any_field_ignoring_case() {
    let mut e = entry("lane_alpha", "implemented", "helper_lane");
    e.missing_helper_primitive_kinds = vec!["Watch_Folder".to_string()];
    assert!(extension_entry_matches_query(&e, "   "));
    assert!(extension_entry_matches_query(&e, " ALPHA "));
    assert!(extension_entry_matches_query(&e, "watch_f"));
    assert!(extension_entry_matches_query(&e, "helper"));
    assert!(!extension_entry_matches_query(&e, "bridge"));
}

#[test]
fn quality_and_baseline_filters() {
    let mut p = entry("proof_one", "implemented", "proof_harness_bundle");
    assert!(proof_quality_matches(&p, ProofQualityFilter::Unknown));
    assert!(!proof_quality_matches(&p, ProofQualityFilter::Passing));
    p.proof_quality_status = Some("passing".to_string());
    assert!(proof_quality_matches(&p, ProofQualityFilter::Passing));
    p.proof_change_since_last_pass_status = Some("baseline_recorded".to_string());
    assert!(proof_baseline_matches(&p, BaselineFilter::Changed));
    assert!(!proof_baseline_matches(&p, BaselineFilter::Stable));
    let c = entry("comp", "implemented", "composition_bundle");
    assert!(!proof_quality_matches(&c, ProofQualityFilter::Unknown));
    assert!(composition_baseline_matches(&c, BaselineFilter::Unknown));
    assert!(composition_baseline_matches(&c, BaselineFilter::All));
    let all = BaselineFilter::All;
    assert!(extension_entry_matches_filters(&c, "", ProofQualityFilter::All, all, all, all, all, all));
    assert!(!extension_entry_matches_filters(&c, "", ProofQualityFilter::Passing, all, all, all, all, all));
}

#[test]
fn badges() {
    let mut p = entry("p", "implemented", "proof_harness_bundle");
    assert_eq!(proof_quality_badge(&p), Some("proof:unknown".to_string()));
    p.proof_quality_status = Some("runnable_diverged".to_string());
    assert_eq!(proof_quality_badge(&p), Some("proof:diverged".to_string()));
    p.proof_change_since_last_pass_status = Some("odd".to_string());
    assert_eq!(proof_baseline_badge(&p), Some("proof:baseline:odd".to_string()));
    p.proof_change_since_last_pass_status = Some("no_passing_baseline".to_string());
    assert_eq!(proof_baseline_badge(&p), Some("proof:no-baseline".to_string()));
    let mut c = entry("c", "implemented", "composition_bundle");
    assert_eq!(proof_quality_badge(&c), None);
    c.composition_change_since_last_live_status = Some("regressed_since_last_live".to_string());
    assert_eq!(composition_baseline_badge(&c), Some("composition:regressed".to_string()));
    let mut pr = entry("r", "implemented", "patch_recipe");
    pr.patch_drift_status = Some("lightly_customized".to_string());
    assert_eq!(patch_drift_badge(&pr), Some("patch:custom".to_string()));
    let b = entry("b", "implemented", "chattycog_bridge_lane");
    assert_eq!(bridge_drift_badge(&b), Some("bridge:unknown".to_string()));
}

#[test]
fn ranks_and_labels() {
    assert_eq!(extension_status_rank("pending_implementation"), 0);
    assert_eq!(extension_status_rank("host_wired"), 5);
    assert_eq!(extension_status_rank("archived"), 7);
    assert_eq!(extension_status_rank("weird"), 99);
    let mut p = entry("p", "implemented", "proof_harness_bundle");
    assert_eq!(proof_baseline_risk_rank(&p), 5);
    assert_eq!(proof_drift_risk_rank(&p), 5);
    p.proof_change_since_last_pass_status = Some("regressed_since_last_pass".to_string());
    p.proof_drift_status = Some("lightly_customized".to_string());
    assert_eq!(proof_baseline_risk_rank(&p), 0);
    assert_eq!(proof_drift_risk_rank(&p), 2);
    assert_eq!(proof_baseline_risk_rank(&entry("x", "implemented", "helper_lane")), 99);
    assert_eq!(proof_lineage_status(&p), Some("lightly_customized".to_string()));
    let mut q = entry("q", "implemented", "proof_harness_bundle");
    assert_eq!(proof_lineage_status(&q), Some("unseeded".to_string()));
    q.proof_seed_template_id = Some("t1".to_string());
    assert_eq!(proof_lineage_status(&q), Some("seeded".to_string()));
    q.patch_kind = Some("t1".to_string());
    assert_eq!(proof_lineage_status(&q), Some("seed-aligned".to_string()));
    q.patch_kind = Some("t2".to_string());
    assert_eq!(proof_lineage_status(&q), Some("customized-from-seed".to_string()));
    assert_eq!(proof_lineage_status(&entry("h", "implemented", "helper_lane")), None);
    let mut l = entry("l", "implemented", "helper_lane");
    assert_eq!(extension_layers_summary(&l), "layers:none");
    l.unresolved_layers = vec!["ui".to_string(), "host".to_string()];
    assert_eq!(extension_layers_summary(&l), "layers:ui+host");
}

#[test]
fn governed_artifact_sets() {
    let mut c = entry("c", "implemented", "composition_bundle");
    c.integrated_paths = vec!["a".to_string(), "b".to_string()];
    assert_eq!(
        extension_governed_artifact_set_summary(&c),
        Some("Governed artifact set: 2 integrated artifact(s) across unresolved layers".to_string())
    );
    let mut r = entry("r", "implemented", "patch_recipe");
    assert_eq!(
        extension_governed_artifact_set_summary(&r),
        Some("Governed artifact set: patch recipe".to_string())
    );
    r.integrated_paths = vec!["operator_registry/acceptance_recipes/r.json".to_string()];
    assert_eq!(
        extension_governed_artifact_set_summary(&r),
        Some("Governed artifact set: patch recipe plus paired acceptance contract".to_string())
    );
    assert_eq!(extension_governed_artifact_set_summary(&entry("p", "x", "proof_harness_bundle")), None);
}

#[test]
fn blockers_per_status() {
    assert_eq!(
        extension_status_blockers(&entry("a", "fully_live", "helper_lane")),
        vec!["No blockers. This lane is shipped.".to_string()]
    );
    assert_eq!(
        extension_status_blockers(&entry("a", "validated_ready", "helper_lane")),
        vec![
            "Lane files are validated, but promotion artifacts have not been prepared.".to_string(),
            "Next step: prepare promotion artifacts.".to_string(),
        ]
    );
    assert_eq!(
        extension_status_blockers(&entry("a", "mystery", "helper_lane")),
        vec!["Unknown lane status `mystery`. Inspect scaffold and notes.".to_string()]
    );
}

#[test]
fn registry_splits_and_counts_lanes() {
    let mut p1 = entry("p1", "implemented", "proof_harness_bundle");
    p1.proof_change_since_last_pass_status = Some("stable_since_last_pass".to_string());
    let mut p2 = entry("p2", "fully_live", "proof_harness_bundle");
    p2.proof_change_since_last_pass_status = Some("stable_since_last_pass".to_string());
    let registry = registry_from_entries(vec![
        p1,
        entry("h1", "archived", "helper_lane"),
        p2,
        entry("h2", "host_wired", "helper_lane"),
    ]);
    assert_eq!(registry.implemented_count, 1);
    assert_eq!(registry.fully_live_count, 1);
    assert_eq!(registry.archived_count, 1);
    assert_eq!(registry.host_wired_count, 1);
    assert_eq!(registry.pending_count, 0);
    let ids = |v: &Vec<PendingExtensionEntry>| v.iter().map(|e| e.entry_id.clone()).collect::<Vec<_>>();
    assert_eq!(ids(&registry.active_entries), vec!["p1", "h2"]);
    assert_eq!(ids(&registry.fully_live_entries), vec!["p2"]);
    assert_eq!(ids(&registry.archived_entries), vec!["h1"]);
    assert_eq!(count_proof_baseline_status(&registry, "stable_since_last_pass"), 2);
    assert_eq!(count_proof_baseline_status(&registry, "changed_since_last_pass"), 0);
    assert_eq!(find_extension_entry(&registry, "h1").map(|e| e.status.clone()), Some("archived".to_string()));
    assert!(find_extension_entry(&registry, "zz").is_none());
}

#[test]
fn sort_orders() {
    let a = entry("alpha", "host_wired", "helper_lane");
    let b = entry("beta", "pending_implementation", "helper_lane");
    let c = entry("gamma", "implemented", "helper_lane");
    let mut v = vec![&a, &b, &c];
    sort_extension_entries(&mut v, ExtensionRegistrySort::StatusFirst);
    assert_eq!(v.iter().map(|e| e.entry_id.as_str()).collect::<Vec<_>>(), vec!["beta", "gamma", "alpha"]);
    sort_extension_entries(&mut v, ExtensionRegistrySort::RecentFirst);
    assert_eq!(v.iter().map(|e| e.entry_id.as_str()).collect::<Vec<_>>(), vec!["gamma", "beta", "alpha"]);
}
