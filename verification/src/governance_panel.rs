//! The decisions of the family governance panel: its counts, which family
//! stays selected, and which refresh warning it shows (stale, in cooldown,
//! never refreshed, or none). The warning choice is shared by the other
//! governance panels.
use vstd::prelude::*;

use crate::families::{canonical_shell, is_canonical_ecosystem_shell_family, FamilyGovernanceReceiptView};
use crate::governance_text::{
    governance_cooldown_warning, governance_never_refreshed_warning, governance_stale_warning,
};
use crate::patchability::{tone, Tone};
use crate::refresh::{
    chrono_cooldown, governance_auto_refresh_in_cooldown, governance_refresh_is_stale, is_stale_age,
    GovernanceRefreshStatusView,
};
use crate::text::{decimal, text_eq};

verus! {

/// The warning colour of a stale or never-refreshed view.
pub open spec fn stale_tone() -> Tone {
    Tone { r: 214, g: 143, b: 58 }
}

/// The warning colour of a view whose auto-refresh is in cooldown.
pub open spec fn cooldown_tone() -> Tone {
    Tone { r: 184, g: 160, b: 84 }
}

/// The warning a governance panel shows under its refresh state: never
/// refreshed when there is no status; stale when the status is an hour old
/// or more; in cooldown when the last auto-refresh was recent; else none.
pub open spec fn refresh_warning(
    status: Option<GovernanceRefreshStatusView>,
    in_cooldown: bool,
    label: Seq<char>,
    lower_label: Seq<char>,
    refresh_action_label: Seq<char>,
) -> Option<(Tone, Seq<char>)> {
    match status {
        None => Some((stale_tone(), label + " has never been refreshed. Refresh recommended."@)),
        Some(s) => if is_stale_age(s.age_minutes) {
            let age: u64 = match s.age_minutes {
                Some(a) => a,
                None => 0,
            };
            Some(
                (
                    stale_tone(),
                    label + " view is stale ("@ + decimal(age as nat)
                        + " minutes old). Refresh recommended."@,
                ),
            )
        } else if in_cooldown {
            Some(
                (
                    cooldown_tone(),
                    "Launch auto-refresh for "@ + lower_label + " is in cooldown. Use \""@
                        + refresh_action_label + "\" to bypass cooldown."@,
                ),
            )
        } else {
            None
        },
    }
}

/// The refresh warning of a governance panel, given whether its auto-refresh
/// is in cooldown.
pub fn governance_refresh_warning(
    status: Option<&GovernanceRefreshStatusView>,
    in_cooldown: bool,
    label: &str,
    lower_label: &str,
    refresh_action_label: &str,
) -> (r: Option<(Tone, String)>)
    ensures
        match r {
            Some((t, w)) => refresh_warning(
                match status {
                    Some(s) => Some(*s),
                    None => None,
                },
                in_cooldown,
                label@,
                lower_label@,
                refresh_action_label@,
            ) == Some((t, w@)),
            None => refresh_warning(
                match status {
                    Some(s) => Some(*s),
                    None => None,
                },
                in_cooldown,
                label@,
                lower_label@,
                refresh_action_label@,
            ) is None,
        },
{
    match status {
        None => Some((tone(214, 143, 58), governance_never_refreshed_warning(label))),
        Some(s) => {
            if governance_refresh_is_stale(s) {
                let age = match s.age_minutes {
                    Some(a) => a,
                    None => 0,
                };
                Some((tone(214, 143, 58), governance_stale_warning(label, age)))
            } else if in_cooldown {
                Some((tone(184, 160, 84), governance_cooldown_warning(lower_label, refresh_action_label)))
            } else {
                None
            }
        },
    }
}

/// The family governance panel's refresh warning at `now_unix_secs`.
pub fn family_governance_refresh_warning(
    status: Option<&GovernanceRefreshStatusView>,
    last_auto_refresh_unix_secs: Option<i64>,
    now_unix_secs: i64,
) -> (r: Option<(Tone, String)>)
    ensures
        match r {
            Some((t, w)) => refresh_warning(
                match status {
                    Some(s) => Some(*s),
                    None => None,
                },
                chrono_cooldown(last_auto_refresh_unix_secs, now_unix_secs),
                "Family governance"@,
                "family governance"@,
                "Refresh family governance now"@,
            ) == Some((t, w@)),
            None => refresh_warning(
                match status {
                    Some(s) => Some(*s),
                    None => None,
                },
                chrono_cooldown(last_auto_refresh_unix_secs, now_unix_secs),
                "Family governance"@,
                "family governance"@,
                "Refresh family governance now"@,
            ) is None,
        },
{
    let cooling = governance_auto_refresh_in_cooldown(last_auto_refresh_unix_secs, now_unix_secs);
    governance_refresh_warning(
        status,
        cooling,
        "Family governance",
        "family governance",
        "Refresh family governance now",
    )
}

/// The counts above the family governance panel.
#[derive(Clone, Copy, Debug, PartialEq, Eq, Structural)]
pub struct FamilyGovernanceMetrics {
    pub governed: usize,
    pub canonical_shells: usize,
    pub stable: usize,
    pub changed: usize,
    pub regressed: usize,
}

pub open spec fn family_is_stable(r: FamilyGovernanceReceiptView) -> bool {
    r.change_since_last_live_status@ == "stable_since_last_live"@
        || r.change_since_last_live_status@ == "baseline_recorded"@
}

pub open spec fn family_change_is(r: FamilyGovernanceReceiptView, st: Seq<char>) -> bool {
    r.change_since_last_live_status@ == st
}

/// How many receipts satisfy `p`.
pub open spec fn count_families(
    s: Seq<FamilyGovernanceReceiptView>,
    p: spec_fn(FamilyGovernanceReceiptView) -> bool,
) -> nat
    decreases s.len(),
{
    if s.len() == 0 {
        0
    } else {
        count_families(s.drop_last(), p) + if p(s.last()) {
            1nat
        } else {
            0nat
        }
    }
}

pub open spec fn family_metrics(s: Seq<FamilyGovernanceReceiptView>) -> FamilyGovernanceMetrics {
    FamilyGovernanceMetrics {
        governed: s.len() as usize,
        canonical_shells: count_families(
            s,
            |r: FamilyGovernanceReceiptView| canonical_shell(r.family_id@),
        ) as usize,
        stable: count_families(s, |r: FamilyGovernanceReceiptView| family_is_stable(r)) as usize,
        changed: count_families(
            s,
            |r: FamilyGovernanceReceiptView| family_change_is(r, "changed_since_last_live"@),
        ) as usize,
        regressed: count_families(
            s,
            |r: FamilyGovernanceReceiptView| family_change_is(r, "regressed_since_last_live"@),
        ) as usize,
    }
}

proof fn lemma_family_count_step(
    s: Seq<FamilyGovernanceReceiptView>,
    i: int,
    p: spec_fn(FamilyGovernanceReceiptView) -> bool,
)
    requires
        0 <= i < s.len(),
    ensures
        count_families(s.subrange(0, i + 1), p) == count_families(s.subrange(0, i), p) + if p(
            s[i],
        ) {
            1nat
        } else {
            0nat
        },
        count_families(s.subrange(0, i), p) <= i,
    decreases i,
{
    assert(s.subrange(0, i + 1).drop_last() =~= s.subrange(0, i));
    if i > 0 {
        lemma_family_count_step(s, i - 1, p);
    } else {
        assert(s.subrange(0, 0).len() == 0);
    }
}

fn add_if(c: usize, yes: bool, bound: usize) -> (r: usize)
    requires
        c < bound,
    ensures
        r == c + if yes {
            1nat
        } else {
            0nat
        },
{
    if yes {
        c + 1
    } else {
        c
    }
}

/// The counts above the family governance panel.
pub fn family_governance_metrics(receipts: &Vec<FamilyGovernanceReceiptView>) -> (m:
    FamilyGovernanceMetrics)
    ensures
        m == family_metrics(receipts@),
{
    proof {
        reveal_strlit("stable_since_last_live");
        reveal_strlit("baseline_recorded");
        reveal_strlit("changed_since_last_live");
        reveal_strlit("regressed_since_last_live");
    }
    let ghost s = receipts@;
    let ghost p1 = |r: FamilyGovernanceReceiptView| canonical_shell(r.family_id@);
    let ghost p2 = |r: FamilyGovernanceReceiptView| family_is_stable(r);
    let ghost p3 = |r: FamilyGovernanceReceiptView| family_change_is(r, "changed_since_last_live"@);
    let ghost p4 = |r: FamilyGovernanceReceiptView| family_change_is(r, "regressed_since_last_live"@);
    let n = receipts.len();
    let mut m = FamilyGovernanceMetrics { governed: n, canonical_shells: 0, stable: 0, changed: 0, regressed: 0 };
    let mut i: usize = 0;
    while i < n
        invariant
            n == receipts.len(),
            s == receipts@,
            i <= n,
            m.governed == n,
            m.canonical_shells == count_families(s.subrange(0, i as int), p1),
            m.stable == count_families(s.subrange(0, i as int), p2),
            m.changed == count_families(s.subrange(0, i as int), p3),
            m.regressed == count_families(s.subrange(0, i as int), p4),
            p1 == (|r: FamilyGovernanceReceiptView| canonical_shell(r.family_id@)),
            p2 == (|r: FamilyGovernanceReceiptView| family_is_stable(r)),
            p3 == (|r: FamilyGovernanceReceiptView| family_change_is(r, "changed_since_last_live"@)),
            p4 == (|r: FamilyGovernanceReceiptView| family_change_is(r, "regressed_since_last_live"@)),
        decreases n - i,
    {
        let r = &receipts[i];
        proof {
            lemma_family_count_step(s, i as int, p1);
            lemma_family_count_step(s, i as int, p2);
            lemma_family_count_step(s, i as int, p3);
            lemma_family_count_step(s, i as int, p4);
        }
        let st = r.change_since_last_live_status.as_str();
        m.canonical_shells = add_if(
            m.canonical_shells,
            is_canonical_ecosystem_shell_family(r.family_id.as_str()),
            n,
        );
        m.stable = add_if(
            m.stable,
            text_eq(st, "stable_since_last_live") || text_eq(st, "baseline_recorded"),
            n,
        );
        m.changed = add_if(m.changed, text_eq(st, "changed_since_last_live"), n);
        m.regressed = add_if(m.regressed, text_eq(st, "regressed_since_last_live"), n);
        i = i + 1;
    }
    proof {
        assert(s.subrange(0, n as int) =~= s);
    }
    m
}

/// The position of the first receipt of family `id`, if any.
pub open spec fn family_position(s: Seq<FamilyGovernanceReceiptView>, id: Seq<char>, from: int) -> Option<
    int,
>
    decreases s.len() - from,
{
    if from < 0 || from >= s.len() {
        None
    } else if s[from].family_id@ == id {
        Some(from)
    } else {
        family_position(s, id, from + 1)
    }
}

/// The family the picker keeps: the current one while a receipt of it is
/// listed, else the first listed family; unchanged when nothing is listed.
pub open spec fn kept_family_selection(
    s: Seq<FamilyGovernanceReceiptView>,
    current: Option<String>,
) -> Option<Seq<char>> {
    if s.len() == 0 {
        match current {
            Some(c) => Some(c@),
            None => None,
        }
    } else {
        match current {
            Some(c) => if family_position(s, c@, 0) is Some {
                Some(c@)
            } else {
                Some(s[0].family_id@)
            },
            None => Some(s[0].family_id@),
        }
    }
}

fn find_family(receipts: &Vec<FamilyGovernanceReceiptView>, id: &str) -> (r: Option<usize>)
    ensures
        match r {
            Some(i) => family_position(receipts@, id@, 0) == Some(i as int),
            None => family_position(receipts@, id@, 0) is None,
        },
{
    let mut i: usize = 0;
    while i < receipts.len()
        invariant
            i <= receipts.len(),
            family_position(receipts@, id@, 0) == family_position(receipts@, id@, i as int),
        decreases receipts.len() - i,
    {
        if text_eq(receipts[i].family_id.as_str(), id) {
            return Some(i);
        }
        i = i + 1;
    }
    None
}

/// The family the picker keeps selected.
pub fn keep_family_selection(receipts: &Vec<FamilyGovernanceReceiptView>, current: Option<String>) -> (r:
    Option<String>)
    ensures
        match r {
            Some(x) => kept_family_selection(receipts@, current) == Some(x@),
            None => kept_family_selection(receipts@, current) is None,
        },
{
    if receipts.len() == 0 {
        return current;
    }
    match current {
        Some(c) => {
            if find_family(receipts, c.as_str()).is_some() {
                Some(c)
            } else {
                Some(receipts[0].family_id.clone())
            }
        },
        None => Some(receipts[0].family_id.clone()),
    }
}

/// The position of the receipt the panel details: the first of the selected family.
pub fn selected_family_receipt(receipts: &Vec<FamilyGovernanceReceiptView>, selected: Option<&str>) -> (r:
    Option<usize>)
    ensures
        match selected {
            Some(id) => match r {
                Some(i) => family_position(receipts@, id@, 0) == Some(i as int),
                None => family_position(receipts@, id@, 0) is None,
            },
            None => r is None,
        },
{
    match selected {
        Some(id) => find_family(receipts, id),
        None => None,
    }
}

} // verus!
