//! Ordering of the extension registry browser: newest first, by lifecycle
//! status, by family / tool / patch, or riskiest proof and baseline first.
use vstd::prelude::*;

use crate::extensions::{
    baseline_risk, drift_risk, extension_status_rank, lane_baseline_risk, lane_drift_risk, opt_or,
    or_text, baseline_status, drift_status, proof_baseline_rank, proof_baseline_risk_rank,
    proof_drift_rank, proof_drift_risk_rank, status_rank, LaneKind, PendingExtensionEntry,
};
use crate::order::{
    compare_text, int_order, lemma_text_order_facts, text_order, then_order,
};
use crate::text::text_eq;

verus! {

/// The orders the registry browser offers.
#[derive(Debug, Clone, Copy, PartialEq, Eq, Structural)]
pub enum ExtensionRegistrySort {
    RecentFirst,
    StatusFirst,
    FamilyToolPatch,
    ProofRiskFirst,
}

/// Baseline risk of any lane: the ladder of its own kind, proof lanes and
/// unknown kinds by the proof ladder (99 when not a proof lane).
pub open spec fn sort_baseline_rank(e: PendingExtensionEntry) -> nat {
    if e.extension_kind@ == "composition_bundle"@ {
        baseline_risk(LaneKind::Composition, or_text(baseline_status(e, LaneKind::Composition), "unknown"@))
    } else if e.extension_kind@ == "patch_recipe"@ {
        baseline_risk(LaneKind::Patch, or_text(baseline_status(e, LaneKind::Patch), "unknown"@))
    } else if e.extension_kind@ == "helper_lane"@ {
        baseline_risk(LaneKind::Helper, or_text(baseline_status(e, LaneKind::Helper), "unknown"@))
    } else if e.extension_kind@ == "chattycog_bridge_lane"@ {
        baseline_risk(LaneKind::Bridge, or_text(baseline_status(e, LaneKind::Bridge), "unknown"@))
    } else {
        proof_baseline_rank(e)
    }
}

/// Drift risk of any lane: the ladder of its own kind, proof lanes and
/// unknown kinds by the proof ladder (99 when not a proof lane).
pub open spec fn sort_drift_rank(e: PendingExtensionEntry) -> nat {
    if e.extension_kind@ == "composition_bundle"@ {
        drift_risk(LaneKind::Composition, or_text(drift_status(e, LaneKind::Composition), "unknown"@))
    } else if e.extension_kind@ == "patch_recipe"@ {
        drift_risk(LaneKind::Patch, or_text(drift_status(e, LaneKind::Patch), "unknown"@))
    } else if e.extension_kind@ == "helper_lane"@ {
        drift_risk(LaneKind::Helper, or_text(drift_status(e, LaneKind::Helper), "unknown"@))
    } else if e.extension_kind@ == "chattycog_bridge_lane"@ {
        drift_risk(LaneKind::Bridge, or_text(drift_status(e, LaneKind::Bridge), "unknown"@))
    } else {
        proof_drift_rank(e)
    }
}

/// Three-way comparison of two lanes under a browser order (negative: `a`
/// comes first). Identities (`entry_id`) break all ties, descending for the
/// newest-first and risk orders, ascending otherwise.
pub open spec fn entry_order(a: PendingExtensionEntry, b: PendingExtensionEntry, mode: ExtensionRegistrySort) -> int {
    match mode {
        ExtensionRegistrySort::RecentFirst => text_order(b.entry_id@, a.entry_id@),
        ExtensionRegistrySort::StatusFirst => then_order(
            int_order(status_rank(a.status@) as int, status_rank(b.status@) as int),
            text_order(a.entry_id@, b.entry_id@),
        ),
        ExtensionRegistrySort::FamilyToolPatch => then_order(
            text_order(or_text(a.family_id, ""@), or_text(b.family_id, ""@)),
            then_order(
                text_order(or_text(a.tool_kind, ""@), or_text(b.tool_kind, ""@)),
                then_order(
                    text_order(or_text(a.patch_kind, ""@), or_text(b.patch_kind, ""@)),
                    text_order(a.entry_id@, b.entry_id@),
                ),
            ),
        ),
        ExtensionRegistrySort::ProofRiskFirst => then_order(
            int_order(sort_baseline_rank(a) as int, sort_baseline_rank(b) as int),
            then_order(
                int_order(sort_drift_rank(a) as int, sort_drift_rank(b) as int),
                then_order(
                    int_order(status_rank(a.status@) as int, status_rank(b.status@) as int),
                    text_order(b.entry_id@, a.entry_id@),
                ),
            ),
        ),
    }
}

/// No lane is followed by a lane that the order puts strictly before it.
pub open spec fn sorted_by(s: Seq<&PendingExtensionEntry>, mode: ExtensionRegistrySort) -> bool {
    forall|i: int, j: int| 0 <= i < j < s.len() ==> entry_order(*s[i], *s[j], mode) <= 0
}

/// The browser orders compare antisymmetrically and transitively.
pub proof fn lemma_entry_order_laws(
    a: PendingExtensionEntry,
    b: PendingExtensionEntry,
    c: PendingExtensionEntry,
    mode: ExtensionRegistrySort,
)
    ensures
        entry_order(a, b, mode) == -entry_order(b, a, mode),
        entry_order(a, b, mode) <= 0 && entry_order(b, c, mode) <= 0 ==> entry_order(a, c, mode)
            <= 0,
{
    lemma_text_order_facts(a.entry_id@, b.entry_id@, c.entry_id@);
    lemma_text_order_facts(c.entry_id@, b.entry_id@, a.entry_id@);
    lemma_text_order_facts(
        or_text(a.family_id, ""@),
        or_text(b.family_id, ""@),
        or_text(c.family_id, ""@),
    );
    lemma_text_order_facts(
        or_text(a.tool_kind, ""@),
        or_text(b.tool_kind, ""@),
        or_text(c.tool_kind, ""@),
    );
    lemma_text_order_facts(
        or_text(a.patch_kind, ""@),
        or_text(b.patch_kind, ""@),
        or_text(c.patch_kind, ""@),
    );
}

/// The baseline risk used by the risk-first order.
pub fn sort_baseline_rank_of(e: &PendingExtensionEntry) -> (r: usize)
    ensures
        r == sort_baseline_rank(*e),
{
    let kind = e.extension_kind.as_str();
    if text_eq(kind, "composition_bundle") {
        lane_baseline_risk(e, LaneKind::Composition)
    } else if text_eq(kind, "patch_recipe") {
        lane_baseline_risk(e, LaneKind::Patch)
    } else if text_eq(kind, "helper_lane") {
        lane_baseline_risk(e, LaneKind::Helper)
    } else if text_eq(kind, "chattycog_bridge_lane") {
        lane_baseline_risk(e, LaneKind::Bridge)
    } else {
        proof_baseline_risk_rank(e)
    }
}

/// The drift risk used by the risk-first order.
pub fn sort_drift_rank_of(e: &PendingExtensionEntry) -> (r: usize)
    ensures
        r == sort_drift_rank(*e),
{
    let kind = e.extension_kind.as_str();
    if text_eq(kind, "composition_bundle") {
        lane_drift_risk(e, LaneKind::Composition)
    } else if text_eq(kind, "patch_recipe") {
        lane_drift_risk(e, LaneKind::Patch)
    } else if text_eq(kind, "helper_lane") {
        lane_drift_risk(e, LaneKind::Helper)
    } else if text_eq(kind, "chattycog_bridge_lane") {
        lane_drift_risk(e, LaneKind::Bridge)
    } else {
        proof_drift_risk_rank(e)
    }
}

fn order_usize(x: usize, y: usize) -> (r: i8)
    ensures
        r as int == int_order(x as int, y as int),
{
    if x < y {
        -1
    } else if x > y {
        1
    } else {
        0
    }
}

fn then_exec(c: i8, d: i8) -> (r: i8)
    ensures
        r == then_order(c as int, d as int),
{
    if c != 0 {
        c
    } else {
        d
    }
}

/// Three-way comparison of two lanes under a browser order.
pub fn compare_entries(a: &PendingExtensionEntry, b: &PendingExtensionEntry, mode: ExtensionRegistrySort) -> (r: i8)
    ensures
        r as int == entry_order(*a, *b, mode),
{
    match mode {
        ExtensionRegistrySort::RecentFirst => compare_text(b.entry_id.as_str(), a.entry_id.as_str()),
        ExtensionRegistrySort::StatusFirst => then_exec(
            order_usize(extension_status_rank(a.status.as_str()), extension_status_rank(b.status.as_str())),
            compare_text(a.entry_id.as_str(), b.entry_id.as_str()),
        ),
        ExtensionRegistrySort::FamilyToolPatch => {
            let f = compare_text(opt_or(&a.family_id, ""), opt_or(&b.family_id, ""));
            let t = compare_text(opt_or(&a.tool_kind, ""), opt_or(&b.tool_kind, ""));
            let p = compare_text(opt_or(&a.patch_kind, ""), opt_or(&b.patch_kind, ""));
            let i = compare_text(a.entry_id.as_str(), b.entry_id.as_str());
            then_exec(f, then_exec(t, then_exec(p, i)))
        },
        ExtensionRegistrySort::ProofRiskFirst => {
            let br = order_usize(sort_baseline_rank_of(a), sort_baseline_rank_of(b));
            let dr = order_usize(sort_drift_rank_of(a), sort_drift_rank_of(b));
            let sr = order_usize(extension_status_rank(a.status.as_str()), extension_status_rank(b.status.as_str()));
            let i = compare_text(b.entry_id.as_str(), a.entry_id.as_str());
            then_exec(br, then_exec(dr, then_exec(sr, i)))
        },
    }
}

/// `out` is `input` rearranged by `idx` (position in `out` to position in
/// `input`, one to one), and lanes that compare equal under `mode` keep their
/// relative order from `input`.
pub open spec fn stable_rearrangement(
    input: Seq<&PendingExtensionEntry>,
    out: Seq<&PendingExtensionEntry>,
    idx: Seq<int>,
    mode: ExtensionRegistrySort,
) -> bool {
    &&& idx.len() == out.len()
    &&& out.len() == input.len()
    &&& forall|k: int| 0 <= k < out.len() ==> 0 <= #[trigger] idx[k] < input.len()
    &&& forall|k: int| 0 <= k < out.len() ==> #[trigger] out[k] == input[idx[k]]
    &&& forall|k: int, l: int| 0 <= k < l < out.len() ==> idx[k] != idx[l]
    &&& forall|k: int, l: int|
        0 <= k < l < out.len() && entry_order(*out[k], *out[l], mode) == 0 ==> idx[k] < idx[l]
}

/// Sorts the browser's lanes under the chosen order, stably (as `sort_by`
/// does): the result holds the same lanes, each as often as before, no lane
/// is followed by one the order puts strictly before it, and lanes that
/// compare equal keep their relative order.
pub fn sort_extension_entries(entries: &mut Vec<&PendingExtensionEntry>, sort: ExtensionRegistrySort)
    ensures
        final(entries)@.to_multiset() == old(entries)@.to_multiset(),
        sorted_by(final(entries)@, sort),
        exists|idx: Seq<int>| stable_rearrangement(old(entries)@, final(entries)@, idx, sort),
{
    let n = entries.len();
    let ghost input = entries@;
    let mut result: Vec<&PendingExtensionEntry> = Vec::new();
    let ghost mut idx: Seq<int> = Seq::empty();
    let mut i: usize = 0;
    assert(input.subrange(0, 0) =~= result@);
    while i < n
        invariant
            n == entries.len(),
            entries@ == input,
            i <= n,
            result@.to_multiset() == input.subrange(0, i as int).to_multiset(),
            sorted_by(result@, sort),
            idx.len() == result@.len(),
            result@.len() == i,
            forall|k: int| 0 <= k < i ==> 0 <= #[trigger] idx[k] < i,
            forall|k: int| 0 <= k < i ==> #[trigger] result@[k] == input[idx[k]],
            forall|k: int, l: int| 0 <= k < l < i ==> idx[k] != idx[l],
            forall|k: int, l: int|
                0 <= k < l < i && entry_order(*result@[k], *result@[l], sort) == 0 ==> idx[k]
                    < idx[l],
        decreases n - i,
    {
        let x: &PendingExtensionEntry = entries[i];
        let mut p: usize = 0;
        while p < result.len() && compare_entries(x, result[p], sort) >= 0
            invariant
                p <= result.len(),
                forall|k: int| 0 <= k < p ==> entry_order(*x, *result@[k], sort) >= 0,
            decreases result.len() - p,
        {
            p = p + 1;
        }
        let ghost before = result@;
        let ghost old_idx = idx;
        proof {
            vstd::seq_lib::to_multiset_insert(before, p as int, x);
            vstd::seq_lib::to_multiset_build(input.subrange(0, i as int), x);
            assert(input.subrange(0, i + 1) =~= input.subrange(0, i as int).push(x));
            idx = old_idx.insert(p as int, i as int);
        }
        result.insert(p, x);
        proof {
            let t = result@;
            assert(t =~= before.insert(p as int, x));
            assert forall|a: int, b: int| 0 <= a < b < t.len() implies entry_order(
                *t[a],
                *t[b],
                sort,
            ) <= 0 by {
                if b < p {
                    assert(t[a] == before[a] && t[b] == before[b]);
                } else if b == p {
                    assert(t[a] == before[a] && t[b] == x);
                    lemma_entry_order_laws(*x, *before[a], *x, sort);
                } else if a == p {
                    assert(t[a] == x && t[b] == before[b - 1]);
                    lemma_entry_order_laws(*x, *before[p as int], *before[b - 1], sort);
                    if b - 1 > p {
                        assert(entry_order(*before[p as int], *before[b - 1], sort) <= 0);
                    }
                } else if a < p {
                    assert(t[a] == before[a] && t[b] == before[b - 1]);
                } else {
                    assert(t[a] == before[a - 1] && t[b] == before[b - 1]);
                }
            }
            assert forall|k: int| 0 <= k < i + 1 implies 0 <= #[trigger] idx[k] < i + 1 by {
                if k < p {
                    assert(idx[k] == old_idx[k]);
                } else if k > p {
                    assert(idx[k] == old_idx[k - 1]);
                }
            }
            assert forall|k: int| 0 <= k < i + 1 implies #[trigger] t[k] == input[idx[k]] by {
                if k < p {
                    assert(idx[k] == old_idx[k] && t[k] == before[k]);
                } else if k > p {
                    assert(idx[k] == old_idx[k - 1] && t[k] == before[k - 1]);
                }
            }
            assert forall|k: int, l: int| 0 <= k < l < i + 1 implies idx[k] != idx[l] by {
                if k < p && l < p {
                    assert(idx[k] == old_idx[k] && idx[l] == old_idx[l]);
                } else if k < p && l == p {
                    assert(idx[k] == old_idx[k]);
                } else if k < p && l > p {
                    assert(idx[k] == old_idx[k] && idx[l] == old_idx[l - 1]);
                } else if k == p {
                    assert(idx[l] == old_idx[l - 1]);
                } else {
                    assert(idx[k] == old_idx[k - 1] && idx[l] == old_idx[l - 1]);
                }
            }
            assert forall|k: int, l: int|
                0 <= k < l < i + 1 && entry_order(*t[k], *t[l], sort) == 0 implies idx[k]
                < idx[l] by {
                if k < p && l < p {
                    assert(idx[k] == old_idx[k] && idx[l] == old_idx[l]);
                    assert(t[k] == before[k] && t[l] == before[l]);
                } else if k < p && l == p {
                    assert(idx[k] == old_idx[k]);
                } else if k < p && l > p {
                    assert(idx[k] == old_idx[k] && idx[l] == old_idx[l - 1]);
                    assert(t[k] == before[k] && t[l] == before[l - 1]);
                } else if k == p {
                    // x is strictly before before[p], which is not after before[l - 1]
                    assert(t[l] == before[l - 1]);
                    lemma_entry_order_laws(*x, *before[p as int], *before[l - 1], sort);
                    lemma_entry_order_laws(*before[p as int], *before[l - 1], *x, sort);
                    lemma_entry_order_laws(*before[l - 1], *x, *before[p as int], sort);
                    if l - 1 > p {
                        assert(entry_order(*before[p as int], *before[l - 1], sort) <= 0);
                    }
                    assert(false);
                } else {
                    assert(idx[k] == old_idx[k - 1] && idx[l] == old_idx[l - 1]);
                    assert(t[k] == before[k - 1] && t[l] == before[l - 1]);
                }
            }
        }
        i = i + 1;
    }
    assert(input.subrange(0, n as int) =~= input);
    assert(stable_rearrangement(input, result@, idx, sort));
    *entries = result;
}

} // verus!
