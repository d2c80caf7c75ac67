use chatty_factory::governance_text::{
    governance_baseline_note_summary, governance_baseline_summary, governance_cooldown_warning,
    governance_drift_note_summary, governance_drift_summary, governance_never_refreshed_summary,
    governance_never_refreshed_warning, governance_refresh_status_summary, governance_stale_warning,
};
use chatty_factory::refresh::{
    bridge_governance_should_auto_refresh, composition_governance_refresh_is_stale,
    governance_auto_refresh_in_cooldown, governance_should_auto_refresh,
    proof_governance_auto_refresh_in_cooldown, proof_governance_should_auto_refresh,
    template_governance_should_auto_refresh, GovernanceRefreshStatusView,
    ProofGovernanceRefreshStatusView,
};

fn status(age: Option<u64>) -> GovernanceRefreshStatusView {
    GovernanceRefreshStatusView {
        status_id: "refresh-1".to_string(),
        refreshed_entries: 3,
        skipped_entries: 1,
        updated_at: "2024-05-01T10:00:00Z".to_string(),
        refreshed_at_label: None,
        age_minutes: age,
    }
}

#[test]
fn governance_texts() {
    assert_eq!(governance_drift_summary("Proof", "drifted"), "Proof drift: drifted");
    assert_eq!(governance_baseline_summary("stable"), "Change since last live: stable");
    assert_eq!(governance_drift_note_summary("Patch", "n"), "Patch drift note: n");
    assert_eq!(governance_baseline_note_summary("Helper", "n"), "Helper baseline note: n");
    assert_eq!(
        governance_refresh_status_summary("proof governance", "2024-05-01", None, "r-7", 12, 0),
        "Last proof governance refresh: 2024-05-01 | file unknown | id r-7 | refreshed 12 | skipped 0"
    );
    assert_eq!(
        governance_refresh_status_summary("patch", "t", Some("2024-05-01 10:00:00"), "x", 1, 2),
        "Last patch refresh: t | file 2024-05-01 10:00:00 | id x | refreshed 1 | skipped 2"
    );
    assert_eq!(
        governance_never_refreshed_summary("family governance"),
        "Last family governance refresh: none recorded yet"
    );
    assert_eq!(
        governance_stale_warning("Bridge governance", 75),
        "Bridge governance view is stale (75 minutes old). Refresh recommended."
    );
    assert_eq!(
        governance_never_refreshed_warning("Template governance"),
        "Template governance has never been refreshed. Refresh recommended."
    );
    assert_eq!(
        governance_cooldown_warning("proof governance", "Refresh Proof Governance"),
        "Launch auto-refresh for proof governance is in cooldown. Use \"Refresh Proof Governance\" to bypass cooldown."
    );
}

#[test]
fn staleness_starts_at_one_hour() {
    assert!(!composition_governance_refresh_is_stale(&status(None)));
    assert!(!composition_governance_refresh_is_stale(&status(Some(59))));
    assert!(composition_governance_refresh_is_stale(&status(Some(60))));
    assert!(composition_governance_refresh_is_stale(&status(Some(600))));
}

#[test]
fn chrono_cooldown_counts_whole_minutes() {
    let last = 1_700_000_000i64;
    assert!(!governance_auto_refresh_in_cooldown(None, last));
    assert!(governance_auto_refresh_in_cooldown(Some(last), last));
    assert!(governance_auto_refresh_in_cooldown(Some(last), last + 14 * 60 + 59));
    assert!(!governance_auto_refresh_in_cooldown(Some(last), last + 15 * 60));
    assert!(!governance_auto_refresh_in_cooldown(Some(last), last + 3600));
    assert!(governance_auto_refresh_in_cooldown(Some(last), last - 120));
    // a last refresh chrono cannot represent never holds a refresh back
    assert!(!governance_auto_refresh_in_cooldown(Some(i64::MAX), last));
}

#[test]
fn proof_cooldown_counts_seconds() {
    let last = 1_700_000_000i64;
    assert!(proof_governance_auto_refresh_in_cooldown(Some(last), last + 899));
    assert!(!proof_governance_auto_refresh_in_cooldown(Some(last), last + 900));
    assert!(!proof_governance_auto_refresh_in_cooldown(None, last));
}

#[test]
fn no_second_refresh_within_cooldown() {
    let last = 1_700_000_000i64;
    let stale = status(Some(120));
    assert!(!governance_should_auto_refresh(Some(&stale), true, Some(last), last + 600));
    assert!(!governance_should_auto_refresh(None, true, Some(last), last + 899));
    assert!(governance_should_auto_refresh(Some(&stale), true, Some(last), last + 900));
}

#[test]
fn auto_refresh_rules() {
    let now = 1_700_000_000i64;
    assert!(governance_should_auto_refresh(None, true, None, now));
    assert!(!governance_should_auto_refresh(None, false, None, now));
    assert!(!bridge_governance_should_auto_refresh(Some(&status(Some(5))), true, None, now));
    assert!(template_governance_should_auto_refresh(Some(&status(Some(61))), true, None, now));
}

#[test]
fn proof_view_needs_receipts_and_newer_ones_when_recorded() {
    let now = 1_700_000_000i64;
    let stale = ProofGovernanceRefreshStatusView {
        status: status(Some(90)),
        newer_proof_receipts_exist: true,
        latest_proof_receipt_label: Some("2024-05-01 10:00:00".to_string()),
    };
    let current = ProofGovernanceRefreshStatusView {
        status: status(Some(90)),
        newer_proof_receipts_exist: false,
        latest_proof_receipt_label: None,
    };
    assert!(proof_governance_should_auto_refresh(Some(&stale), true, None, now, true));
    assert!(!proof_governance_should_auto_refresh(Some(&current), true, None, now, true));
    assert!(!proof_governance_should_auto_refresh(Some(&stale), true, None, now, false));
    assert!(proof_governance_should_auto_refresh(None, true, None, now, true));
    assert!(!proof_governance_should_auto_refresh(None, true, Some(now - 10), now, true));
    assert!(!proof_governance_should_auto_refresh(None, false, None, now, true));
}

#[test]
fn cooldown_holds_exactly_on_chrono_representable_instants() {
    let max = 8_210_266_876_799i64;
    let min = -8_334_601_228_800i64;
    assert!(governance_auto_refresh_in_cooldown(Some(max - 60), max));
    assert!(!governance_auto_refresh_in_cooldown(Some(max - 60), max + 1));
    assert!(governance_auto_refresh_in_cooldown(Some(min), min + 60));
    assert!(!governance_auto_refresh_in_cooldown(Some(min - 1), min + 60));
}
