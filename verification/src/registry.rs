//! The extension registry as the panel shows it: the registry file's lanes
//! split into those in progress, fully live and archived, with a count per
//! lifecycle status.
use vstd::prelude::*;

use crate::extensions::{HostExtensionRegistryView, PendingExtensionEntry};
use crate::text::text_eq;

verus! {

/// A lane in the given status.
pub open spec fn in_status(status: Seq<char>) -> spec_fn(PendingExtensionEntry) -> bool {
    |e: PendingExtensionEntry| e.status@ == status
}

/// A lane still in progress: neither fully live nor archived.
pub open spec fn in_progress() -> spec_fn(PendingExtensionEntry) -> bool {
    |e: PendingExtensionEntry| e.status@ != "fully_live"@ && e.status@ != "archived"@
}

/// How many lanes are in the given status.
pub open spec fn status_count(entries: Seq<PendingExtensionEntry>, status: Seq<char>) -> nat {
    entries.filter(in_status(status)).len()
}

/// The registry view of the registry file's lanes.
pub open spec fn is_registry_of(r: HostExtensionRegistryView, entries: Seq<PendingExtensionEntry>) -> bool {
    &&& r.pending_count as nat == status_count(entries, "pending_implementation"@)
    &&& r.implemented_count as nat == status_count(entries, "implemented"@)
    &&& r.validated_count as nat == status_count(entries, "validated_ready"@)
    &&& r.promotion_prepared_count as nat == status_count(entries, "promotion_prepared"@)
    &&& r.apply_patch_ready_count as nat == status_count(entries, "apply_patch_ready"@)
    &&& r.host_wired_count as nat == status_count(entries, "host_wired"@)
    &&& r.fully_live_count as nat == status_count(entries, "fully_live"@)
    &&& r.archived_count as nat == status_count(entries, "archived"@)
    &&& r.active_entries@ == entries.filter(in_progress())
    &&& r.fully_live_entries@ == entries.filter(in_status("fully_live"@))
    &&& r.archived_entries@ == entries.filter(in_status("archived"@))
}

fn count_in_status(entries: &Vec<PendingExtensionEntry>, status: &str) -> (r: usize)
    ensures
        r as nat == status_count(entries@, status@),
{
    let ghost keep = in_status(status@);
    let mut n: usize = 0;
    let mut i: usize = 0;
    assert(entries@.subrange(0, 0) =~= Seq::<PendingExtensionEntry>::empty());
    while i < entries.len()
        invariant
            i <= entries.len(),
            keep == in_status(status@),
            n as nat == entries@.subrange(0, i as int).filter(keep).len(),
            n <= i,
        decreases entries.len() - i,
    {
        proof {
            assert(entries@.subrange(0, i + 1) =~= entries@.subrange(0, i as int).push(
                entries@[i as int],
            ));
            entries@.subrange(0, i as int).lemma_filter_push(entries@[i as int], keep);
        }
        if text_eq(entries[i].status.as_str(), status) {
            n = n + 1;
        }
        i = i + 1;
    }
    assert(entries@.subrange(0, entries.len() as int) =~= entries@);
    n
}

/// Splits the registry file's lanes by lifecycle status and counts them.
pub fn registry_from_entries(entries: Vec<PendingExtensionEntry>) -> (r: HostExtensionRegistryView)
    ensures
        is_registry_of(r, entries@),
{
    let pending_count = count_in_status(&entries, "pending_implementation");
    let implemented_count = count_in_status(&entries, "implemented");
    let validated_count = count_in_status(&entries, "validated_ready");
    let promotion_prepared_count = count_in_status(&entries, "promotion_prepared");
    let apply_patch_ready_count = count_in_status(&entries, "apply_patch_ready");
    let host_wired_count = count_in_status(&entries, "host_wired");
    let fully_live_count = count_in_status(&entries, "fully_live");
    let archived_count = count_in_status(&entries, "archived");
    let ghost all = entries@;
    let ghost act = in_progress();
    let ghost live = in_status("fully_live"@);
    let ghost arch = in_status("archived"@);
    let mut active: Vec<PendingExtensionEntry> = Vec::new();
    let mut fully_live: Vec<PendingExtensionEntry> = Vec::new();
    let mut archived: Vec<PendingExtensionEntry> = Vec::new();
    let mut rest = entries;
    let total = rest.len();
    let mut i: usize = 0;
    assert(all.subrange(0, 0) =~= Seq::<PendingExtensionEntry>::empty());
    while rest.len() > 0
        invariant
            i <= all.len(),
            all.len() == total,
            rest@ == all.subrange(i as int, all.len() as int),
            act == in_progress(),
            live == in_status("fully_live"@),
            arch == in_status("archived"@),
            active@ == all.subrange(0, i as int).filter(act),
            fully_live@ == all.subrange(0, i as int).filter(live),
            archived@ == all.subrange(0, i as int).filter(arch),
        decreases rest.len(),
    {
        let e = rest.remove(0);
        proof {
            assert(all.subrange(0, i + 1) =~= all.subrange(0, i as int).push(e));
            all.subrange(0, i as int).lemma_filter_push(e, act);
            all.subrange(0, i as int).lemma_filter_push(e, live);
            all.subrange(0, i as int).lemma_filter_push(e, arch);
            reveal_strlit("fully_live");
            reveal_strlit("archived");
            assert("fully_live"@.len() != "archived"@.len());
            assert("fully_live"@ != "archived"@);
        }
        let is_live = text_eq(e.status.as_str(), "fully_live");
        let is_archived = text_eq(e.status.as_str(), "archived");
        if is_live {
            fully_live.push(e);
        } else if is_archived {
            archived.push(e);
        } else {
            active.push(e);
        }
        i = i + 1;
        assert(rest@ =~= all.subrange(i as int, all.len() as int));
    }
    assert(all.subrange(0, i as int) =~= all);
    HostExtensionRegistryView {
        pending_count,
        implemented_count,
        validated_count,
        promotion_prepared_count,
        apply_patch_ready_count,
        host_wired_count,
        fully_live_count,
        archived_count,
        active_entries: active,
        fully_live_entries: fully_live,
        archived_entries: archived,
    }
}

} // verus!
