//! How the panel orders and picks the runtime's receipts: newest first by
//! their creation stamp (ties by identity), and the latest approval of each
//! constraint.
use vstd::prelude::*;

use crate::extensions::or_text;
use crate::order::{compare_text, lemma_text_order_facts, text_order, then_order};
use crate::text::text_eq;
use crate::text_sort::strictly_ascending;

verus! {

/// What the newest-first order reads of a receipt: its creation stamp (an
/// ISO timestamp, compared as text; absent counts as empty) and its identity.
pub struct RecordKey {
    pub created_at: Option<String>,
    pub id: String,
}

/// Newest first: a later stamp comes first; equal stamps by ascending identity.
pub open spec fn record_order(a: RecordKey, b: RecordKey) -> int {
    then_order(
        text_order(or_text(b.created_at, Seq::empty()), or_text(a.created_at, Seq::empty())),
        text_order(a.id@, b.id@),
    )
}

/// The order laws: antisymmetry, range, and transitivity of "not after".
pub proof fn lemma_record_order_laws(a: RecordKey, b: RecordKey, c: RecordKey)
    ensures
        record_order(a, b) == -record_order(b, a),
        -1 <= record_order(a, b) <= 1,
        record_order(a, b) <= 0 && record_order(b, c) <= 0 ==> record_order(a, c) <= 0,
{
    let ca = or_text(a.created_at, Seq::empty());
    let cb = or_text(b.created_at, Seq::empty());
    let cc = or_text(c.created_at, Seq::empty());
    lemma_text_order_facts(cc, cb, ca);
    lemma_text_order_facts(a.id@, b.id@, c.id@);
}

fn created_or_empty(o: &Option<String>) -> (r: String)
    ensures
        r@ == or_text(*o, Seq::empty()),
{
    match o {
        Some(s) => s.clone(),
        None => String::new(),
    }
}

/// Three-way comparison under the newest-first order.
pub fn compare_records(a: &RecordKey, b: &RecordKey) -> (r: i8)
    ensures
        r as int == record_order(*a, *b),
{
    let ca = created_or_empty(&a.created_at);
    let cb = created_or_empty(&b.created_at);
    let c = compare_text(cb.as_str(), ca.as_str());
    if c != 0 {
        c
    } else {
        compare_text(a.id.as_str(), b.id.as_str())
    }
}

/// `idx` lists the receipts' positions in newest-first order, each once, and
/// receipts that tie keep their given order (what a stable sort gives).
pub open spec fn newest_first(keys: Seq<RecordKey>, idx: Seq<usize>) -> bool {
    &&& idx.len() == keys.len()
    &&& forall|k: int| 0 <= k < idx.len() ==> (#[trigger] idx[k]) < keys.len()
    &&& forall|k: int, l: int| 0 <= k < l < idx.len() ==> idx[k] != idx[l]
    &&& forall|k: int, l: int|
        0 <= k < l < idx.len() ==> record_order(keys[#[trigger] idx[k] as int], keys[#[trigger] idx[l] as int]) <= 0
    &&& forall|k: int, l: int|
        0 <= k < l < idx.len() && record_order(keys[idx[k] as int], keys[idx[l] as int]) == 0
            ==> #[trigger] idx[k] < #[trigger] idx[l]
}

/// The receipts' positions, newest first (a stable sort of the positions).
pub fn newest_first_order(keys: &Vec<RecordKey>) -> (r: Vec<usize>)
    ensures
        newest_first(keys@, r@),
{
    let n = keys.len();
    let mut out: Vec<usize> = Vec::new();
    let mut i: usize = 0;
    while i < n
        invariant
            n == keys.len(),
            i <= n,
            out@.len() == i,
            forall|k: int| 0 <= k < i ==> (#[trigger] out@[k]) < i,
            forall|k: int, l: int| 0 <= k < l < i ==> out@[k] != out@[l],
            forall|k: int, l: int|
                0 <= k < l < i ==> record_order(keys@[#[trigger] out@[k] as int], keys@[#[trigger] out@[l] as int])
                    <= 0,
            forall|k: int, l: int|
                0 <= k < l < i && record_order(keys@[out@[k] as int], keys@[out@[l] as int]) == 0
                    ==> #[trigger] out@[k] < #[trigger] out@[l],
        decreases n - i,
    {
        let x = &keys[i];
        let mut p: usize = 0;
        while p < out.len() && compare_records(x, &keys[out[p]]) >= 0
            invariant
                p <= out.len(),
                out@.len() == i,
                *x == keys@[i as int],
                i < n,
                n == keys.len(),
                forall|k: int| 0 <= k < i ==> (#[trigger] out@[k]) < i,
                forall|k: int| 0 <= k < p ==> record_order(keys@[i as int], keys@[#[trigger] out@[k] as int]) >= 0,
            decreases out.len() - p,
        {
            p = p + 1;
        }
        let ghost before = out@;
        out.insert(p, i);
        proof {
            let t = out@;
            let ki = keys@[i as int];
            assert(t =~= before.insert(p as int, i));
            assert forall|k: int| 0 <= k < i + 1 implies (#[trigger] t[k]) < i + 1 by {
                if k < p {
                    assert(t[k] == before[k]);
                } else if k > p {
                    assert(t[k] == before[k - 1]);
                }
            }
            assert forall|k: int, l: int| 0 <= k < l < i + 1 implies t[k] != t[l] by {
                if k < p && l < p {
                    assert(t[k] == before[k] && t[l] == before[l]);
                } else if k < p && l == p {
                    assert(t[k] == before[k]);
                } else if k < p && l > p {
                    assert(t[k] == before[k] && t[l] == before[l - 1]);
                } else if k == p {
                    assert(t[l] == before[l - 1]);
                } else {
                    assert(t[k] == before[k - 1] && t[l] == before[l - 1]);
                }
            }
            assert forall|k: int, l: int| 0 <= k < l < i + 1 implies record_order(
                keys@[#[trigger] t[k] as int],
                keys@[#[trigger] t[l] as int],
            ) <= 0 by {
                if k < p && l < p {
                    assert(t[k] == before[k] && t[l] == before[l]);
                } else if k < p && l == p {
                    assert(t[k] == before[k]);
                    lemma_record_order_laws(ki, keys@[before[k] as int], ki);
                } else if k < p && l > p {
                    assert(t[k] == before[k] && t[l] == before[l - 1]);
                } else if k == p {
                    assert(t[l] == before[l - 1]);
                    let bp = keys@[before[p as int] as int];
                    let bl = keys@[before[l - 1] as int];
                    lemma_record_order_laws(ki, bp, bl);
                    if l - 1 > p {
                        assert(record_order(bp, bl) <= 0);
                    }
                } else {
                    assert(t[k] == before[k - 1] && t[l] == before[l - 1]);
                }
            }
            assert forall|k: int, l: int|
                0 <= k < l < i + 1 && record_order(keys@[t[k] as int], keys@[t[l] as int]) == 0
                    implies #[trigger] t[k] < #[trigger] t[l] by {
                if k < p && l < p {
                    assert(t[k] == before[k] && t[l] == before[l]);
                } else if k < p && l == p {
                    assert(t[k] == before[k]);
                } else if k < p && l > p {
                    assert(t[k] == before[k] && t[l] == before[l - 1]);
                } else if k == p {
                    assert(t[l] == before[l - 1]);
                    let bp = keys@[before[p as int] as int];
                    let bl = keys@[before[l - 1] as int];
                    lemma_record_order_laws(ki, bp, bl);
                    lemma_record_order_laws(bp, bl, ki);
                    lemma_record_order_laws(bl, ki, bp);
                    if l - 1 > p {
                        assert(record_order(bp, bl) <= 0);
                    }
                    assert(false);
                } else {
                    assert(t[k] == before[k - 1] && t[l] == before[l - 1]);
                }
            }
        }
        i = i + 1;
    }
    out
}

// ---------------------------------------------------------------------------
// Latest approval of each constraint
// ---------------------------------------------------------------------------

/// What the latest-approval pick reads of an approval receipt: the approved
/// constraint and the creation stamp.
pub struct ApprovalKey {
    pub constraint_id: String,
    pub created_at: Option<String>,
}

/// The position of the approval of `k` that a pass over the receipts keeps:
/// the first one, replaced only by a later one with a strictly greater stamp
/// (absent stamps count as empty).
pub open spec fn latest_index(recs: Seq<ApprovalKey>, k: Seq<char>) -> Option<int>
    decreases recs.len(),
{
    if recs.len() == 0 {
        None
    } else {
        let p = latest_index(recs.drop_last(), k);
        let last = recs.len() - 1;
        if recs.last().constraint_id@ != k {
            p
        } else {
            match p {
                None => Some(last),
                Some(i) => if text_order(
                    or_text(recs.last().created_at, Seq::empty()),
                    or_text(recs[i].created_at, Seq::empty()),
                ) > 0 {
                    Some(last)
                } else {
                    Some(i)
                },
            }
        }
    }
}

/// The constraints of a pick, in order.
pub open spec fn pick_keys(t: Seq<(String, usize)>) -> Seq<Seq<char>> {
    Seq::new(t.len(), |i: int| t[i].0@)
}

/// `t` picks the latest approval of every constraint of `recs`, in ascending
/// order of the constraint.
pub open spec fn is_latest_pick(t: Seq<(String, usize)>, recs: Seq<ApprovalKey>) -> bool {
    &&& strictly_ascending(pick_keys(t))
    &&& forall|i: int|
        0 <= i < t.len() ==> latest_index(recs, (#[trigger] t[i]).0@) == Some(t[i].1 as int)
    &&& forall|k: Seq<char>| latest_index(recs, k) is Some ==> #[trigger] pick_keys(t).contains(k)
}

proof fn lemma_latest_index_range(recs: Seq<ApprovalKey>, k: Seq<char>)
    ensures
        latest_index(recs, k) matches Some(i) ==> 0 <= i < recs.len() && recs[i].constraint_id@ == k,
    decreases recs.len(),
{
    if recs.len() > 0 {
        lemma_latest_index_range(recs.drop_last(), k);
    }
}

proof fn lemma_latest_index_push(recs: Seq<ApprovalKey>, x: ApprovalKey, k: Seq<char>)
    requires
        x.constraint_id@ != k,
    ensures
        latest_index(recs.push(x), k) == latest_index(recs, k),
{
    assert(recs.push(x).drop_last() =~= recs);
}

/// The latest approval of each constraint (ascending by constraint): a pass
/// over the receipts keeps the first approval of each constraint unless a
/// later one has a strictly greater stamp.
pub fn latest_constraint_approvals(recs: &Vec<ApprovalKey>) -> (r: Vec<(String, usize)>)
    ensures
        is_latest_pick(r@, recs@),
{
    let mut t: Vec<(String, usize)> = Vec::new();
    let mut n: usize = 0;
    assert(recs@.subrange(0, 0) =~= Seq::<ApprovalKey>::empty());
    assert(pick_keys(t@) =~= Seq::<Seq<char>>::empty());
    while n < recs.len()
        invariant
            n <= recs.len(),
            is_latest_pick(t@, recs@.subrange(0, n as int)),
            forall|i: int| 0 <= i < t@.len() ==> (#[trigger] t@[i]).1 < n,
        decreases recs.len() - n,
    {
        let ghost pre = recs@.subrange(0, n as int);
        let ghost nxt = recs@.subrange(0, n + 1);
        assert(nxt =~= pre.push(recs@[n as int]));
        assert(nxt.drop_last() =~= pre);
        let x = &recs[n];
        let ghost keys = pick_keys(t@);
        let mut j: usize = 0;
        while j < t.len() && compare_text(x.constraint_id.as_str(), t[j].0.as_str()) > 0
            invariant
                j <= t.len(),
                keys == pick_keys(t@),
                forall|k: int| 0 <= k < j ==> text_order(x.constraint_id@, #[trigger] keys[k]) > 0,
            decreases t.len() - j,
        {
            j = j + 1;
        }
        let ghost before = t@;
        proof {
            assert forall|k: Seq<char>| k != x.constraint_id@ implies #[trigger] latest_index(nxt, k)
                == latest_index(pre, k) by {
                lemma_latest_index_push(pre, recs@[n as int], k);
            }
        }
        if j < t.len() && text_eq(t[j].0.as_str(), x.constraint_id.as_str()) {
            let current = t[j].1;
            proof {
                lemma_latest_index_range(pre, x.constraint_id@);
                assert(latest_index(pre, keys[j as int]) == Some(current as int));
            }
            let ca = created_or_empty(&x.created_at);
            let cb = created_or_empty(&recs[current].created_at);
            if compare_text(ca.as_str(), cb.as_str()) > 0 {
                let key = t[j].0.clone();
                t.set(j, (key, n));
            }
            proof {
                assert(pick_keys(t@) =~= keys);
                assert forall|i: int| 0 <= i < t@.len() implies latest_index(
                    nxt,
                    (#[trigger] t@[i]).0@,
                ) == Some(t@[i].1 as int) by {
                    if i != j {
                        assert(t@[i] == before[i]);
                        if i < j {
                            assert(text_order(keys[i], keys[j as int]) < 0);
                        } else {
                            assert(text_order(keys[j as int], keys[i]) < 0);
                        }
                        lemma_text_order_facts(keys[i], keys[j as int], keys[i]);
                    }
                }
                assert forall|k: Seq<char>| latest_index(nxt, k) is Some implies #[trigger] pick_keys(
                    t@,
                ).contains(k) by {
                    if k == x.constraint_id@ {
                        assert(pick_keys(t@)[j as int] == k);
                    } else {
                        assert(pick_keys(before).contains(k));
                    }
                }
            }
        } else {
            proof {
                if j < t@.len() {
                    lemma_text_order_facts(x.constraint_id@, keys[j as int], x.constraint_id@);
                }
                assert forall|i: int| 0 <= i < keys.len() implies #[trigger] keys[i]
                    != x.constraint_id@ by {
                    if i < j {
                        lemma_text_order_facts(x.constraint_id@, keys[i], x.constraint_id@);
                    } else {
                        if i > j {
                            assert(text_order(keys[j as int], keys[i]) < 0);
                        }
                        lemma_text_order_facts(x.constraint_id@, keys[j as int], keys[i]);
                    }
                }
                if latest_index(pre, x.constraint_id@) is Some {
                    assert(keys.contains(x.constraint_id@));
                    let m = choose|m: int| 0 <= m < keys.len() && keys[m] == x.constraint_id@;
                    assert(keys[m] != x.constraint_id@);
                }
            }
            let key = x.constraint_id.clone();
            t.insert(j, (key, n));
            proof {
                let nk = pick_keys(t@);
                let xk = x.constraint_id@;
                assert(nk =~= keys.insert(j as int, xk));
                assert forall|a: int, b: int| 0 <= a < b < nk.len() implies text_order(
                    #[trigger] nk[a],
                    #[trigger] nk[b],
                ) < 0 by {
                    if a < j && b < j {
                        assert(nk[a] == keys[a] && nk[b] == keys[b]);
                    } else if a < j && b == j {
                        lemma_text_order_facts(xk, keys[a], xk);
                    } else if a < j && b > j {
                        assert(nk[a] == keys[a] && nk[b] == keys[b - 1]);
                    } else if a == j {
                        assert(nk[b] == keys[b - 1]);
                        if b - 1 > j {
                            assert(text_order(keys[j as int], keys[b - 1]) < 0);
                        }
                        lemma_text_order_facts(xk, keys[j as int], keys[b - 1]);
                    } else {
                        assert(nk[a] == keys[a - 1] && nk[b] == keys[b - 1]);
                    }
                }
                assert forall|i: int| 0 <= i < t@.len() implies latest_index(
                    nxt,
                    (#[trigger] t@[i]).0@,
                ) == Some(t@[i].1 as int) by {
                    if i < j {
                        assert(t@[i] == before[i]);
                    } else if i > j {
                        assert(t@[i] == before[i - 1]);
                    }
                }
                assert forall|k: Seq<char>| latest_index(nxt, k) is Some implies #[trigger] nk.contains(
                    k,
                ) by {
                    if k == xk {
                        assert(nk[j as int] == k);
                    } else {
                        assert(keys.contains(k));
                        let m = choose|m: int| 0 <= m < keys.len() && keys[m] == k;
                        if m < j {
                            assert(nk[m] == k);
                        } else {
                            assert(nk[m + 1] == k);
                        }
                    }
                }
            }
        }
        proof {
            assert forall|i: int| 0 <= i < t@.len() implies (#[trigger] t@[i]).1 < n + 1 by {
                if j < before.len() && i != j {
                    if i < j {
                        assert(t@[i] == before[i]);
                    }
                }
            }
        }
        n = n + 1;
    }
    assert(recs@.subrange(0, recs.len() as int) =~= recs@);
    t
}

} // verus!
