//! When a governance view counts as stale, when its launch-time auto-refresh
//! is cooling down, and whether the app should auto-refresh it.
//!
//! Seven governance views (proof, composition, patch, helper, bridge, family,
//! template) share one policy: a view is stale once it is an hour old; an
//! auto-refresh is suppressed for fifteen minutes after the previous one; a
//! view that was never refreshed is refreshed at once. The proof view also
//! needs newer proof receipts to exist before it refreshes.
use vstd::prelude::*;

verus! {

/// A governance registry's last-refresh record, as the panels read it.
pub struct GovernanceRefreshStatusView {
    pub status_id: String,
    pub refreshed_entries: usize,
    pub skipped_entries: usize,
    pub updated_at: String,
    /// Local timestamp label of the status file, when it could be read.
    pub refreshed_at_label: Option<String>,
    /// Minutes since the status file was written, when known.
    pub age_minutes: Option<u64>,
}

/// The proof governance registry's refresh record, which also knows whether
/// newer paired-proof receipts exist than the last refresh.
pub struct ProofGovernanceRefreshStatusView {
    pub status: GovernanceRefreshStatusView,
    pub newer_proof_receipts_exist: bool,
    pub latest_proof_receipt_label: Option<String>,
}

/// Views older than this many minutes are stale.
pub const STALE_AFTER_MINUTES: u64 = 60;

/// Auto-refresh is suppressed for this many minutes after the previous one.
pub const COOLDOWN_MINUTES: i64 = 15;

/// A view is stale once its age (zero when unknown) reaches an hour.
pub open spec fn is_stale_age(age_minutes: Option<u64>) -> bool {
    match age_minutes {
        Some(a) => a >= 60,
        None => false,
    }
}

/// Integer division rounding toward zero, as Rust's `/` on signed integers.
pub open spec fn trunc_div(a: int, b: int) -> int {
    if a >= 0 {
        a / b
    } else {
        -((-a) / b)
    }
}

/// Whether `chrono` can represent the UNIX timestamp `secs` (whole seconds)
/// as a `DateTime<Utc>`: its day, counted from the common era, must lie
/// between the first day of chrono's earliest year (-262143-01-01) and the
/// last day of its latest year (+262142-12-31).
pub open spec fn utc_timestamp_representable(secs: int) -> bool {
    -8_334_601_228_800 <= secs <= 8_210_266_876_799
}

/// Calls `chrono::DateTime::<Utc>::from_timestamp(secs, 0)` on both instants
/// and, when both exist, `later.signed_duration_since(earlier).num_minutes()`.
/// Claimed: the result exists exactly when both timestamps are representable
/// (`from_timestamp` returns `None` when the day falls outside chrono's date
/// range), and it is the whole number of minutes between them rounded toward
/// zero (`num_seconds() / 60`, where the duration between two whole-second
/// instants is their difference in seconds).
#[verifier::external_body]
fn utc_minutes_between(later_secs: i64, earlier_secs: i64) -> (r: Option<i64>)
    ensures
        r is Some <==> (utc_timestamp_representable(later_secs as int)
            && utc_timestamp_representable(earlier_secs as int)),
        r matches Some(m) ==> m == trunc_div(later_secs - earlier_secs, 60),
{
    let earlier = chrono::DateTime::<chrono::Utc>::from_timestamp(earlier_secs, 0)?;
    let later = chrono::DateTime::<chrono::Utc>::from_timestamp(later_secs, 0)?;
    Some(later.signed_duration_since(earlier).num_minutes())
}

/// Cooldown as the chrono-based views decide it: the last auto-refresh is
/// known, both instants are representable and fewer than fifteen whole
/// minutes separate them.
pub open spec fn chrono_cooldown(last_auto_refresh_unix_secs: Option<i64>, now_unix_secs: i64) -> bool {
    match last_auto_refresh_unix_secs {
        None => false,
        Some(last) => {
            &&& utc_timestamp_representable(last as int)
            &&& utc_timestamp_representable(now_unix_secs as int)
            &&& trunc_div(now_unix_secs - last, 60) < 15
        },
    }
}

/// Cooldown as the proof view decides it: fewer than 900 seconds since the
/// last auto-refresh.
pub open spec fn seconds_cooldown(last_auto_refresh_unix_secs: Option<i64>, now_unix_secs: i64) -> bool {
    match last_auto_refresh_unix_secs {
        None => false,
        Some(last) => now_unix_secs - last < 900,
    }
}

/// The shared auto-refresh rule of the chrono-based views.
pub open spec fn should_refresh(
    status: Option<Option<u64>>,
    auto_refresh_enabled: bool,
    in_cooldown: bool,
) -> bool {
    if !auto_refresh_enabled || in_cooldown {
        false
    } else {
        match status {
            Some(age) => is_stale_age(age),
            None => true,
        }
    }
}

/// The ages of an optional status record.
pub open spec fn age_of(status: Option<&GovernanceRefreshStatusView>) -> Option<Option<u64>> {
    match status {
        Some(s) => Some(s.age_minutes),
        None => None,
    }
}

/// A view is stale once its age reaches sixty minutes; an unknown age counts as zero.
pub fn governance_refresh_is_stale(status: &GovernanceRefreshStatusView) -> (r: bool)
    ensures
        r == is_stale_age(status.age_minutes),
{
    match status.age_minutes {
        Some(a) => a >= STALE_AFTER_MINUTES,
        None => false,
    }
}

/// Whether the minutes since the last auto-refresh (when chrono could
/// compute them) still fall within the cooldown.
pub fn cooldown_from_minutes(minutes_since_last: Option<i64>) -> (r: bool)
    ensures
        r == match minutes_since_last {
            Some(m) => m < 15,
            None => false,
        },
{
    match minutes_since_last {
        Some(m) => m < COOLDOWN_MINUTES,
        None => false,
    }
}

/// Whether an auto-refresh at `last_auto_refresh_unix_secs` still holds the
/// next one back at `now_unix_secs`, measured in whole minutes by chrono.
pub fn governance_auto_refresh_in_cooldown(
    last_auto_refresh_unix_secs: Option<i64>,
    now_unix_secs: i64,
) -> (r: bool)
    ensures
        r == chrono_cooldown(last_auto_refresh_unix_secs, now_unix_secs),
{
    match last_auto_refresh_unix_secs {
        None => false,
        Some(last) => cooldown_from_minutes(utc_minutes_between(now_unix_secs, last)),
    }
}

/// The auto-refresh decision given whether the cooldown holds.
pub fn refresh_decision(
    status: Option<&GovernanceRefreshStatusView>,
    auto_refresh_enabled: bool,
    in_cooldown: bool,
) -> (r: bool)
    ensures
        r == should_refresh(age_of(status), auto_refresh_enabled, in_cooldown),
{
    if !auto_refresh_enabled || in_cooldown {
        return false;
    }
    match status {
        Some(status) => governance_refresh_is_stale(status),
        None => true,
    }
}

/// Auto-refresh a chrono-timed view: enabled, not cooling down, and either
/// never refreshed or stale.
pub fn governance_should_auto_refresh(
    status: Option<&GovernanceRefreshStatusView>,
    auto_refresh_enabled: bool,
    last_auto_refresh_unix_secs: Option<i64>,
    now_unix_secs: i64,
) -> (r: bool)
    ensures
        r == should_refresh(
            age_of(status),
            auto_refresh_enabled,
            chrono_cooldown(last_auto_refresh_unix_secs, now_unix_secs),
        ),
{
    if !auto_refresh_enabled {
        return false;
    }
    let cooling = governance_auto_refresh_in_cooldown(last_auto_refresh_unix_secs, now_unix_secs);
    refresh_decision(status, auto_refresh_enabled, cooling)
}

// --- proof governance -------------------------------------------------------
/// The proof view is stale once an hour old.
pub fn proof_governance_refresh_is_stale(status: &ProofGovernanceRefreshStatusView) -> (r: bool)
    ensures
        r == is_stale_age(status.status.age_minutes),
{
    governance_refresh_is_stale(&status.status)
}

/// The proof view cools down for 900 seconds after an auto-refresh.
pub fn proof_governance_auto_refresh_in_cooldown(
    last_auto_refresh_unix_secs: Option<i64>,
    now_unix_secs: i64,
) -> (r: bool)
    ensures
        r == seconds_cooldown(last_auto_refresh_unix_secs, now_unix_secs),
{
    match last_auto_refresh_unix_secs {
        None => false,
        Some(last) => (now_unix_secs as i128) - (last as i128) < 900,
    }
}

/// The proof view's rule: enabled and not cooling down, some paired-proof
/// receipt exists, and either no refresh is recorded or the record is stale
/// while newer receipts exist.
pub open spec fn proof_should_refresh(
    status: Option<&ProofGovernanceRefreshStatusView>,
    auto_refresh_enabled: bool,
    last_auto_refresh_unix_secs: Option<i64>,
    now_unix_secs: i64,
    proof_receipt_exists: bool,
) -> bool {
    if !auto_refresh_enabled || seconds_cooldown(last_auto_refresh_unix_secs, now_unix_secs) {
        false
    } else if !proof_receipt_exists {
        false
    } else {
        match status {
            None => true,
            Some(s) => is_stale_age(s.status.age_minutes) && s.newer_proof_receipts_exist,
        }
    }
}

/// Whether the proof view should auto-refresh; `proof_receipt_exists` tells
/// whether any paired-proof receipt file was found.
pub fn proof_governance_should_auto_refresh(
    status: Option<&ProofGovernanceRefreshStatusView>,
    auto_refresh_enabled: bool,
    last_auto_refresh_unix_secs: Option<i64>,
    now_unix_secs: i64,
    proof_receipt_exists: bool,
) -> (r: bool)
    ensures
        r == proof_should_refresh(
            status,
            auto_refresh_enabled,
            last_auto_refresh_unix_secs,
            now_unix_secs,
            proof_receipt_exists,
        ),
{
    if !auto_refresh_enabled || proof_governance_auto_refresh_in_cooldown(
        last_auto_refresh_unix_secs,
        now_unix_secs,
    ) {
        return false;
    }
    if !proof_receipt_exists {
        return false;
    }
    match status {
        None => true,
        Some(s) => proof_governance_refresh_is_stale(s) && s.newer_proof_receipts_exist,
    }
}

// --- the chrono-timed views -------------------------------------------------
/// The composition view is stale once an hour old.
pub fn composition_governance_refresh_is_stale(status: &GovernanceRefreshStatusView) -> (r: bool)
    ensures
        r == is_stale_age(status.age_minutes),
{
    governance_refresh_is_stale(status)
}

/// Whether the composition view should auto-refresh.
pub fn composition_governance_should_auto_refresh(
    status: Option<&GovernanceRefreshStatusView>,
    auto_refresh_enabled: bool,
    last_auto_refresh_unix_secs: Option<i64>,
    now_unix_secs: i64,
) -> (r: bool)
    ensures
        r == should_refresh(
            age_of(status),
            auto_refresh_enabled,
            chrono_cooldown(last_auto_refresh_unix_secs, now_unix_secs),
        ),
{
    governance_should_auto_refresh(status, auto_refresh_enabled, last_auto_refresh_unix_secs, now_unix_secs)
}

/// The patch view is stale once an hour old.
pub fn patch_governance_refresh_is_stale(status: &GovernanceRefreshStatusView) -> (r: bool)
    ensures
        r == is_stale_age(status.age_minutes),
{
    governance_refresh_is_stale(status)
}

/// Whether the patch view should auto-refresh.
pub fn patch_governance_should_auto_refresh(
    status: Option<&GovernanceRefreshStatusView>,
    auto_refresh_enabled: bool,
    last_auto_refresh_unix_secs: Option<i64>,
    now_unix_secs: i64,
) -> (r: bool)
    ensures
        r == should_refresh(
            age_of(status),
            auto_refresh_enabled,
            chrono_cooldown(last_auto_refresh_unix_secs, now_unix_secs),
        ),
{
    governance_should_auto_refresh(status, auto_refresh_enabled, last_auto_refresh_unix_secs, now_unix_secs)
}

/// The helper view is stale once an hour old.
pub fn helper_governance_refresh_is_stale(status: &GovernanceRefreshStatusView) -> (r: bool)
    ensures
        r == is_stale_age(status.age_minutes),
{
    governance_refresh_is_stale(status)
}

/// Whether the helper view should auto-refresh.
pub fn helper_governance_should_auto_refresh(
    status: Option<&GovernanceRefreshStatusView>,
    auto_refresh_enabled: bool,
    last_auto_refresh_unix_secs: Option<i64>,
    now_unix_secs: i64,
) -> (r: bool)
    ensures
        r == should_refresh(
            age_of(status),
            auto_refresh_enabled,
            chrono_cooldown(last_auto_refresh_unix_secs, now_unix_secs),
        ),
{
    governance_should_auto_refresh(status, auto_refresh_enabled, last_auto_refresh_unix_secs, now_unix_secs)
}

/// The bridge view is stale once an hour old.
pub fn bridge_governance_refresh_is_stale(status: &GovernanceRefreshStatusView) -> (r: bool)
    ensures
        r == is_stale_age(status.age_minutes),
{
    governance_refresh_is_stale(status)
}

/// Whether the bridge view should auto-refresh.
pub fn bridge_governance_should_auto_refresh(
    status: Option<&GovernanceRefreshStatusView>,
    auto_refresh_enabled: bool,
    last_auto_refresh_unix_secs: Option<i64>,
    now_unix_secs: i64,
) -> (r: bool)
    ensures
        r == should_refresh(
            age_of(status),
            auto_refresh_enabled,
            chrono_cooldown(last_auto_refresh_unix_secs, now_unix_secs),
        ),
{
    governance_should_auto_refresh(status, auto_refresh_enabled, last_auto_refresh_unix_secs, now_unix_secs)
}

/// The family view is stale once an hour old.
pub fn family_governance_refresh_is_stale(status: &GovernanceRefreshStatusView) -> (r: bool)
    ensures
        r == is_stale_age(status.age_minutes),
{
    governance_refresh_is_stale(status)
}

/// Whether the family view should auto-refresh.
pub fn family_governance_should_auto_refresh(
    status: Option<&GovernanceRefreshStatusView>,
    auto_refresh_enabled: bool,
    last_auto_refresh_unix_secs: Option<i64>,
    now_unix_secs: i64,
) -> (r: bool)
    ensures
        r == should_refresh(
            age_of(status),
            auto_refresh_enabled,
            chrono_cooldown(last_auto_refresh_unix_secs, now_unix_secs),
        ),
{
    governance_should_auto_refresh(status, auto_refresh_enabled, last_auto_refresh_unix_secs, now_unix_secs)
}

/// The template view is stale once an hour old.
pub fn template_governance_refresh_is_stale(status: &GovernanceRefreshStatusView) -> (r: bool)
    ensures
        r == is_stale_age(status.age_minutes),
{
    governance_refresh_is_stale(status)
}

/// Whether the template view should auto-refresh.
pub fn template_governance_should_auto_refresh(
    status: Option<&GovernanceRefreshStatusView>,
    auto_refresh_enabled: bool,
    last_auto_refresh_unix_secs: Option<i64>,
    now_unix_secs: i64,
) -> (r: bool)
    ensures
        r == should_refresh(
            age_of(status),
            auto_refresh_enabled,
            chrono_cooldown(last_auto_refresh_unix_secs, now_unix_secs),
        ),
{
    governance_should_auto_refresh(status, auto_refresh_enabled, last_auto_refresh_unix_secs, now_unix_secs)
}

// --- laws -------------------------------------------------------------------
/// Once a chrono-timed view has auto-refreshed at `last`, it does not
/// auto-refresh again while fewer than fifteen minutes (900 seconds) have
/// passed, whatever its status says.
pub proof fn lemma_no_second_refresh_within_cooldown(
    status: Option<Option<u64>>,
    auto_refresh_enabled: bool,
    last: i64,
    now: i64,
)
    requires
        utc_timestamp_representable(last as int),
        utc_timestamp_representable(now as int),
        0 <= now - last < 900,
    ensures
        !should_refresh(status, auto_refresh_enabled, chrono_cooldown(Some(last), now)),
{
    let d = now - last;
    assert(d / 60 < 15) by (nonlinear_arith)
        requires
            0 <= d < 900,
    ;
}

/// Once the cooldown has passed (fifteen minutes or more since the last
/// auto-refresh, or no auto-refresh recorded), an enabled chrono-timed view
/// that was never refreshed or is stale does auto-refresh.
pub proof fn lemma_refresh_after_cooldown(
    age: Option<Option<u64>>,
    last: Option<i64>,
    now: i64,
)
    requires
        match last {
            Some(l) => now - l >= 900,
            None => true,
        },
        match age {
            Some(a) => is_stale_age(a),
            None => true,
        },
    ensures
        should_refresh(age, true, chrono_cooldown(last, now)),
{
    if let Some(l) = last {
        let d = now - l;
        assert(d / 60 >= 15) by (nonlinear_arith)
            requires
                d >= 900,
        ;
    }
}

/// Staleness only grows with age: a view stale at some age is stale at every
/// later age.
pub proof fn lemma_staleness_monotonic(a: u64, b: u64)
    requires
        a <= b,
        is_stale_age(Some(a)),
    ensures
        is_stale_age(Some(b)),
{
}

/// A disabled auto-refresh never fires, for the chrono-timed views and the
/// proof view alike.
pub proof fn lemma_disabled_never_refreshes(
    age: Option<Option<u64>>,
    in_cooldown: bool,
    status: Option<&ProofGovernanceRefreshStatusView>,
    last: Option<i64>,
    now: i64,
    proof_receipt_exists: bool,
)
    ensures
        !should_refresh(age, false, in_cooldown),
        !proof_should_refresh(status, false, last, now, proof_receipt_exists),
{
}

/// With a refresh status recorded, the proof view auto-refreshes only when
/// that status is at least sixty minutes old and newer proof receipts exist;
/// a status younger than sixty minutes (or of unknown age) never triggers
/// it. Enabled, out of cooldown (900 seconds or more since the last
/// auto-refresh, or none) and with a receipt on disk, an old status with
/// newer receipts does trigger it, as does a missing status.
pub proof fn lemma_proof_refresh_needs_an_old_status(
    s: ProofGovernanceRefreshStatusView,
    enabled: bool,
    last: Option<i64>,
    now: i64,
    receipt_exists: bool,
)
    ensures
        proof_should_refresh(Some(&s), enabled, last, now, receipt_exists) ==> (match s.status.age_minutes {
            Some(a) => a >= 60,
            None => false,
        }) && s.newer_proof_receipts_exist,
        (match s.status.age_minutes {
            Some(a) => a < 60,
            None => true,
        }) ==> !proof_should_refresh(Some(&s), enabled, last, now, receipt_exists),
        (match last {
            Some(l) => now - l >= 900,
            None => true,
        }) && receipt_exists ==> {
            &&& proof_should_refresh(None, true, last, now, true)
            &&& ((match s.status.age_minutes {
                Some(a) => a >= 60,
                None => false,
            }) && s.newer_proof_receipts_exist ==> proof_should_refresh(
                Some(&s),
                true,
                last,
                now,
                true,
            ))
        },
{
}

/// A chrono-timed view with a recorded status auto-refreshes only when that
/// status is at least sixty minutes old.
pub proof fn lemma_refresh_needs_an_old_status(age: Option<u64>, enabled: bool, in_cooldown: bool)
    ensures
        should_refresh(Some(age), enabled, in_cooldown) ==> match age {
            Some(a) => a >= 60,
            None => false,
        },
{
}

} // verus!
