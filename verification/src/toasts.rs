//! Short notices shown in a corner of the window: each one stays for four
//! seconds, and no more than four are shown at once.

use vstd::prelude::*;

use crate::workbench::{keep_newest, newest};

verus! {

/// Whether a notice reports a success or a failure.
#[derive(Clone, Copy, Debug, PartialEq, Eq, Structural)]
pub enum ToastKind {
    Success,
    Error,
}

/// A notice, with the moment it was raised, in milliseconds of a clock that
/// never goes back.
pub struct UiToast {
    pub message: String,
    pub kind: ToastKind,
    pub created_at_ms: u64,
}

/// How long a notice stays, in milliseconds.
pub const TOAST_TTL_MS: u64 = 4000;

/// How many notices are shown at once.
pub const TOAST_LIMIT: usize = 4;

/// The time since a notice was raised; a notice stamped after `now` is new.
pub open spec fn toast_age(t: UiToast, now_ms: u64) -> int {
    if t.created_at_ms <= now_ms {
        now_ms - t.created_at_ms
    } else {
        0
    }
}

/// Whether a notice is still within its four seconds at `now_ms`.
pub open spec fn fresh_at(now_ms: u64) -> spec_fn(UiToast) -> bool {
    |t: UiToast| toast_age(t, now_ms) < TOAST_TTL_MS
}

/// The notices left at `now_ms`: those still fresh, in their order, and of
/// them only the four newest.
pub open spec fn pruned_toasts(s: Seq<UiToast>, now_ms: u64) -> Seq<UiToast> {
    newest(s.filter(fresh_at(now_ms)), TOAST_LIMIT as nat)
}

/// Raises a notice at `now_ms`; it becomes the newest.
pub fn push_toast(toasts: &mut Vec<UiToast>, message: String, kind: ToastKind, now_ms: u64)
    ensures
        final(toasts)@ == old(toasts)@.push(
            UiToast { message: message, kind: kind, created_at_ms: now_ms },
        ),
{
    toasts.push(UiToast { message, kind, created_at_ms: now_ms });
}

/// Drops the notices older than four seconds at `now_ms`, then all but the
/// four newest.
pub fn prune_toasts(toasts: &mut Vec<UiToast>, now_ms: u64)
    ensures
        final(toasts)@ == pruned_toasts(old(toasts)@, now_ms),
{
    let ghost keep = fresh_at(now_ms);
    let mut kept: Vec<UiToast> = Vec::new();
    let mut rest: Vec<UiToast> = Vec::new();
    std::mem::swap(&mut rest, toasts);
    let ghost all = rest@;
    let total = rest.len();
    let mut i: usize = 0;
    while rest.len() > 0
        invariant
            rest@ == all.subrange(i as int, all.len() as int),
            i + rest@.len() == all.len(),
            all.len() == total,
            keep == fresh_at(now_ms),
            kept@ == all.subrange(0, i as int).filter(keep),
        decreases rest.len(),
    {
        let item = rest.remove(0);
        proof {
            assert(all.subrange(0, i + 1) =~= all.subrange(0, i as int).push(item));
            all.subrange(0, i as int).lemma_filter_push(item, keep);
        }
        let age = if item.created_at_ms <= now_ms {
            now_ms - item.created_at_ms
        } else {
            0
        };
        if age < TOAST_TTL_MS {
            kept.push(item);
        }
        i = i + 1;
        assert(rest@ =~= all.subrange(i as int, all.len() as int));
    }
    assert(all.subrange(0, all.len() as int) =~= all);
    keep_newest(&mut kept, TOAST_LIMIT);
    *toasts = kept;
}

/// After pruning no more than four notices are left, each of them still
/// within its four seconds, and a notice raised at `now_ms` stays.
pub proof fn lemma_pruned_toasts_are_few_and_fresh(s: Seq<UiToast>, now_ms: u64, t: UiToast)
    requires
        t.created_at_ms == now_ms,
    ensures
        pruned_toasts(s, now_ms).len() <= TOAST_LIMIT,
        forall|k: int|
            0 <= k < pruned_toasts(s, now_ms).len() ==> toast_age(
                #[trigger] pruned_toasts(s, now_ms)[k],
                now_ms,
            ) < TOAST_TTL_MS,
        pruned_toasts(s.push(t), now_ms).last() == t,
{
    let f = s.filter(fresh_at(now_ms));
    assert forall|k: int| 0 <= k < pruned_toasts(s, now_ms).len() implies toast_age(
        #[trigger] pruned_toasts(s, now_ms)[k],
        now_ms,
    ) < TOAST_TTL_MS by {
        let j = if f.len() > TOAST_LIMIT {
            k + f.len() - TOAST_LIMIT
        } else {
            k
        };
        assert(pruned_toasts(s, now_ms)[k] == f[j]);
        s.lemma_filter_pred(fresh_at(now_ms), j);
    }
    s.lemma_filter_push(t, fresh_at(now_ms));
}

} // verus!
