//! The one-line texts the governance panels show: drift and baseline
//! summaries, the last-refresh line and the staleness / cooldown warnings.
use vstd::prelude::*;

use crate::text::{decimal, push_decimal, push_str, push_usize};

verus! {

/// `"{label} drift: {status}"`.
pub fn governance_drift_summary(label: &str, status: &str) -> (r: String)
    ensures
        r@ == label@ + " drift: "@ + status@,
{
    let mut r = String::new();
    push_str(&mut r, label);
    push_str(&mut r, " drift: ");
    push_str(&mut r, status);
    r
}

/// `"Change since last live: {status}"`.
pub fn governance_baseline_summary(status: &str) -> (r: String)
    ensures
        r@ == "Change since last live: "@ + status@,
{
    let mut r = String::new();
    push_str(&mut r, "Change since last live: ");
    push_str(&mut r, status);
    r
}

/// `"{label} drift note: {note}"`.
pub fn governance_drift_note_summary(label: &str, note: &str) -> (r: String)
    ensures
        r@ == label@ + " drift note: "@ + note@,
{
    let mut r = String::new();
    push_str(&mut r, label);
    push_str(&mut r, " drift note: ");
    push_str(&mut r, note);
    r
}

/// `"{label} baseline note: {note}"`.
pub fn governance_baseline_note_summary(label: &str, note: &str) -> (r: String)
    ensures
        r@ == label@ + " baseline note: "@ + note@,
{
    let mut r = String::new();
    push_str(&mut r, label);
    push_str(&mut r, " baseline note: ");
    push_str(&mut r, note);
    r
}

/// The label of the refresh file's timestamp, `unknown` when there is none.
pub open spec fn refreshed_at_text(refreshed_at_label: Option<&str>) -> Seq<char> {
    match refreshed_at_label {
        Some(l) => l@,
        None => "unknown"@,
    }
}

/// `"Last {label} refresh: {updated_at} | file {refreshed_at or unknown} | id {status_id} | refreshed {n} | skipped {m}"`.
pub fn governance_refresh_status_summary(
    label: &str,
    updated_at: &str,
    refreshed_at_label: Option<&str>,
    status_id: &str,
    refreshed_entries: usize,
    skipped_entries: usize,
) -> (r: String)
    ensures
        r@ == "Last "@ + label@ + " refresh: "@ + updated_at@ + " | file "@ + refreshed_at_text(
            refreshed_at_label,
        ) + " | id "@ + status_id@ + " | refreshed "@ + decimal(refreshed_entries as nat)
            + " | skipped "@ + decimal(skipped_entries as nat),
{
    let mut r = String::new();
    push_str(&mut r, "Last ");
    push_str(&mut r, label);
    push_str(&mut r, " refresh: ");
    push_str(&mut r, updated_at);
    push_str(&mut r, " | file ");
    match refreshed_at_label {
        Some(l) => push_str(&mut r, l),
        None => push_str(&mut r, "unknown"),
    }
    push_str(&mut r, " | id ");
    push_str(&mut r, status_id);
    push_str(&mut r, " | refreshed ");
    push_usize(&mut r, refreshed_entries);
    push_str(&mut r, " | skipped ");
    push_usize(&mut r, skipped_entries);
    r
}

/// `"Last {label} refresh: none recorded yet"`.
pub fn governance_never_refreshed_summary(label: &str) -> (r: String)
    ensures
        r@ == "Last "@ + label@ + " refresh: none recorded yet"@,
{
    let mut r = String::new();
    push_str(&mut r, "Last ");
    push_str(&mut r, label);
    push_str(&mut r, " refresh: none recorded yet");
    r
}

/// `"{label} view is stale ({age} minutes old). Refresh recommended."`.
pub fn governance_stale_warning(label: &str, age_minutes: u64) -> (r: String)
    ensures
        r@ == label@ + " view is stale ("@ + decimal(age_minutes as nat)
            + " minutes old). Refresh recommended."@,
{
    let mut r = String::new();
    push_str(&mut r, label);
    push_str(&mut r, " view is stale (");
    push_decimal(&mut r, age_minutes);
    push_str(&mut r, " minutes old). Refresh recommended.");
    r
}

/// `"{label} has never been refreshed. Refresh recommended."`.
pub fn governance_never_refreshed_warning(label: &str) -> (r: String)
    ensures
        r@ == label@ + " has never been refreshed. Refresh recommended."@,
{
    let mut r = String::new();
    push_str(&mut r, label);
    push_str(&mut r, " has never been refreshed. Refresh recommended.");
    r
}

/// `"Launch auto-refresh for {label} is in cooldown. Use \"{action}\" to bypass cooldown."`.
pub fn governance_cooldown_warning(label: &str, refresh_action_label: &str) -> (r: String)
    ensures
        r@ == "Launch auto-refresh for "@ + label@ + " is in cooldown. Use \""@
            + refresh_action_label@ + "\" to bypass cooldown."@,
{
    let mut r = String::new();
    push_str(&mut r, "Launch auto-refresh for ");
    push_str(&mut r, label);
    push_str(&mut r, " is in cooldown. Use \"");
    push_str(&mut r, refresh_action_label);
    push_str(&mut r, "\" to bypass cooldown.");
    r
}

} // verus!
