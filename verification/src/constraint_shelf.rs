//! The approved-constraint shelf: which constraints it lists under its
//! show-only switches, most-matched first, and what it says when none is
//! left.
use vstd::prelude::*;

use crate::extensions::is_text;
use crate::order::{compare_text, int_order, lemma_text_order_facts, text_order, then_order};
use crate::text::text_eq;
use crate::xray::first_n;

verus! {

/// An approved constraint as the shelf lists it: its identity, whether it
/// is active, how often recent verifications matched it, and the origin of
/// the proposal it was approved from, if known.
pub struct ShelfConstraintRow {
    pub constraint_id: String,
    pub active: bool,
    pub match_count: usize,
    pub proposal_origin: Option<String>,
}

/// The shelf's show-only switches.
#[derive(Clone, Copy, Debug, PartialEq, Eq, Structural)]
pub struct ShelfFilters {
    pub unmatched_only: bool,
    pub inactive_unmatched_only: bool,
    pub low_value_active_only: bool,
    pub triangulated_origin_only: bool,
}

/// What the shelf shows: the positions of the listed constraints, and the
/// line it prints when no constraint passes the switches.
pub struct ShelfView {
    pub shown: Vec<usize>,
    pub empty_message: Option<&'static str>,
}

/// How many constraints the shelf lists at most.
pub const SHELF_LIST_LIMIT: usize = 8;

/// A constraint passes every show-only switch that is on.
pub open spec fn shelf_passes(row: ShelfConstraintRow, f: ShelfFilters) -> bool {
    &&& f.unmatched_only ==> row.match_count == 0
    &&& f.inactive_unmatched_only ==> !row.active && row.match_count == 0
    &&& f.low_value_active_only ==> row.active && row.match_count == 0
    &&& f.triangulated_origin_only ==> is_text(row.proposal_origin, "triangulated_task_failure"@)
}

/// Most matches first, then by identity ascending.
pub open spec fn shelf_order(a: ShelfConstraintRow, b: ShelfConstraintRow) -> int {
    then_order(
        int_order(b.match_count as int, a.match_count as int),
        text_order(a.constraint_id@, b.constraint_id@),
    )
}

/// The order laws: antisymmetry, range, and transitivity of "not after".
pub proof fn lemma_shelf_order_laws(a: ShelfConstraintRow, b: ShelfConstraintRow, c: ShelfConstraintRow)
    ensures
        shelf_order(a, b) == -shelf_order(b, a),
        -1 <= shelf_order(a, b) <= 1,
        shelf_order(a, b) <= 0 && shelf_order(b, c) <= 0 ==> shelf_order(a, c) <= 0,
{
    lemma_text_order_facts(a.constraint_id@, b.constraint_id@, c.constraint_id@);
}

/// `r` lists exactly the kept positions, each once, most-matched first,
/// ties keeping the shelf's order.
pub open spec fn shelf_sorted(rows: Seq<ShelfConstraintRow>, kept: Seq<usize>, r: Seq<usize>) -> bool {
    &&& r.len() == kept.len()
    &&& forall|k: int| 0 <= k < r.len() ==> kept.contains(#[trigger] r[k])
    &&& shelf_distinct(r)
    &&& ordered_by_matches(rows, r)
    &&& shelf_ties_in_order(rows, r)
}

/// The line the shelf prints when nothing passes: the most specific switch that is on decides.
pub open spec fn shelf_empty_text(f: ShelfFilters) -> Seq<char> {
    if f.triangulated_origin_only {
        "No approved constraints are currently visible from triangulated origin under this shelf filter."@
    } else if f.low_value_active_only {
        "No approved constraints are currently both active and unmatched."@
    } else if f.inactive_unmatched_only {
        "No approved constraints are currently both inactive and unmatched."@
    } else if f.unmatched_only {
        "No approved constraints are currently unmatched under this shelf filter."@
    } else {
        "No approved constraints are visible under the current shelf filters."@
    }
}

fn shelf_row_passes(row: &ShelfConstraintRow, f: &ShelfFilters) -> (b: bool)
    ensures
        b == shelf_passes(*row, *f),
{
    if f.unmatched_only && row.match_count != 0 {
        return false;
    }
    if f.inactive_unmatched_only && (row.active || row.match_count != 0) {
        return false;
    }
    if f.low_value_active_only && (!row.active || row.match_count != 0) {
        return false;
    }
    if f.triangulated_origin_only {
        let t = match &row.proposal_origin {
            Some(o) => text_eq(o.as_str(), "triangulated_task_failure"),
            None => false,
        };
        if !t {
            return false;
        }
    }
    true
}

fn compare_shelf_rows(a: &ShelfConstraintRow, b: &ShelfConstraintRow) -> (r: i8)
    ensures
        r as int == shelf_order(*a, *b),
{
    if b.match_count < a.match_count {
        -1
    } else if b.match_count > a.match_count {
        1
    } else {
        compare_text(a.constraint_id.as_str(), b.constraint_id.as_str())
    }
}

/// The positions of the rows that pass the filters, among the first `n`, in order.
pub open spec fn shelf_kept_upto(rows: Seq<ShelfConstraintRow>, f: ShelfFilters, n: nat) -> Seq<
    usize,
>
    decreases n,
{
    if n == 0 {
        Seq::empty()
    } else {
        let before = shelf_kept_upto(rows, f, (n - 1) as nat);
        if shelf_passes(rows[n - 1], f) {
            before.push((n - 1) as usize)
        } else {
            before
        }
    }
}

/// The positions of the rows that pass the filters, in list order.
pub open spec fn shelf_kept_rows(rows: Seq<ShelfConstraintRow>, f: ShelfFilters) -> Seq<usize> {
    shelf_kept_upto(rows, f, rows.len())
}


fn shelf_kept_positions(rows: &Vec<ShelfConstraintRow>, f: &ShelfFilters) -> (r: Vec<usize>)
    ensures
        r@ == shelf_kept_rows(rows@, *f),
{
    let mut out: Vec<usize> = Vec::new();
    let mut i: usize = 0;
    while i < rows.len()
        invariant
            i <= rows.len(),
            out@ == shelf_kept_upto(rows@, *f, i as nat),
        decreases rows.len() - i,
    {
        if shelf_row_passes(&rows[i], f) {
            out.push(i);
        }
        i = i + 1;
    }
    out
}

/// The kept positions are increasing and lie below `n`.
proof fn lemma_shelf_kept_increasing(rows: Seq<ShelfConstraintRow>, f: ShelfFilters, n: nat)
    requires
        n <= usize::MAX + 1,
    ensures
        forall|k: int| 0 <= k < shelf_kept_upto(rows, f, n).len() ==> #[trigger] shelf_kept_upto(rows, f, n)[k] < n,
        forall|k: int, l: int|
            0 <= k < l < shelf_kept_upto(rows, f, n).len() ==> #[trigger] shelf_kept_upto(rows, f, n)[k]
                < #[trigger] shelf_kept_upto(rows, f, n)[l],
    decreases n,
{
    if n > 0 {
        lemma_shelf_kept_increasing(rows, f, (n - 1) as nat);
        let before = shelf_kept_upto(rows, f, (n - 1) as nat);
        let r = shelf_kept_upto(rows, f, n);
        if shelf_passes(rows[n - 1], f) {
            assert(r == before.push((n - 1) as usize));
            assert forall|k: int| 0 <= k < r.len() implies #[trigger] r[k] < n by {
                if k < before.len() {
                    assert(r[k] == before[k]);
                }
            }
            assert forall|k: int, l: int| 0 <= k < l < r.len() implies #[trigger] r[k] < #[trigger] r[l] by {
                assert(r[k] == before[k]);
                if l < before.len() {
                    assert(r[l] == before[l]);
                }
            }
        } else {
            assert(r == before);
        }
    }
}

/// Each position once.
pub open spec fn shelf_distinct(s: Seq<usize>) -> bool {
    forall|k: int, l: int| 0 <= k < l < s.len() ==> s[k] != s[l]
}

/// Most-matched first.
pub open spec fn ordered_by_matches(rows: Seq<ShelfConstraintRow>, s: Seq<usize>) -> bool {
    forall|k: int, l: int|
        0 <= k < l < s.len() ==> shelf_order(rows[#[trigger] s[k] as int], rows[#[trigger] s[l] as int])
            <= 0
}

/// Rows that tie keep their list order.
pub open spec fn shelf_ties_in_order(rows: Seq<ShelfConstraintRow>, s: Seq<usize>) -> bool {
    forall|k: int, l: int|
        0 <= k < l < s.len() && shelf_order(rows[s[k] as int], rows[s[l] as int]) == 0
            ==> #[trigger] s[k] < #[trigger] s[l]
}

/// Inserting a position later in the list than all others, just before the
/// first row it sorts before, keeps the positions distinct, ordered and stable.
proof fn lemma_shelf_insert(rows: Seq<ShelfConstraintRow>, before: Seq<usize>, p: int, x: usize)
    requires
        0 <= p <= before.len(),
        x < rows.len(),
        forall|k: int| 0 <= k < before.len() ==> #[trigger] before[k] < x,
        forall|k: int| 0 <= k < before.len() ==> #[trigger] before[k] < rows.len(),
        forall|k: int| 0 <= k < p ==> shelf_order(rows[x as int], rows[#[trigger] before[k] as int]) >= 0,
        p < before.len() ==> shelf_order(rows[x as int], rows[before[p] as int]) < 0,
        shelf_distinct(before),
        ordered_by_matches(rows, before),
        shelf_ties_in_order(rows, before),
    ensures
        shelf_distinct(before.insert(p, x)),
        ordered_by_matches(rows, before.insert(p, x)),
        shelf_ties_in_order(rows, before.insert(p, x)),
{
    let t = before.insert(p, x);
    let kx = rows[x as int];
    assert forall|k: int, l: int| 0 <= k < l < t.len() implies t[k] != t[l] by {
        if k < p && l < p {
            assert(t[k] == before[k] && t[l] == before[l]);
        } else if k < p && l == p {
            assert(t[k] == before[k]);
        } else if k < p && l > p {
            assert(t[k] == before[k] && t[l] == before[l - 1]);
        } else if k == p {
            assert(t[l] == before[l - 1]);
        } else {
            assert(t[k] == before[k - 1] && t[l] == before[l - 1]);
        }
    }
    assert forall|k: int, l: int| 0 <= k < l < t.len() implies shelf_order(
        rows[#[trigger] t[k] as int],
        rows[#[trigger] t[l] as int],
    ) <= 0 by {
        if k < p && l < p {
            assert(t[k] == before[k] && t[l] == before[l]);
        } else if k < p && l == p {
            assert(t[k] == before[k]);
            lemma_shelf_order_laws(kx, rows[before[k] as int], kx);
        } else if k < p && l > p {
            assert(t[k] == before[k] && t[l] == before[l - 1]);
        } else if k == p {
            assert(t[l] == before[l - 1]);
            let bp = rows[before[p] as int];
            let bl = rows[before[l - 1] as int];
            lemma_shelf_order_laws(kx, bp, bl);
            if l - 1 > p {
                assert(shelf_order(bp, bl) <= 0);
            }
        } else {
            assert(t[k] == before[k - 1] && t[l] == before[l - 1]);
        }
    }
    assert forall|k: int, l: int|
        0 <= k < l < t.len() && shelf_order(rows[t[k] as int], rows[t[l] as int]) == 0 implies #[trigger] t[k]
        < #[trigger] t[l] by {
        if k < p && l < p {
            assert(t[k] == before[k] && t[l] == before[l]);
        } else if k < p && l == p {
            assert(t[k] == before[k]);
        } else if k < p && l > p {
            assert(t[k] == before[k] && t[l] == before[l - 1]);
        } else if k == p {
            assert(t[l] == before[l - 1]);
            let bp = rows[before[p] as int];
            let bl = rows[before[l - 1] as int];
            lemma_shelf_order_laws(kx, bp, bl);
            lemma_shelf_order_laws(bp, bl, kx);
            lemma_shelf_order_laws(bl, kx, bp);
            if l - 1 > p {
                assert(shelf_order(bp, bl) <= 0);
            }
            assert(false);
        } else {
            assert(t[k] == before[k - 1] && t[l] == before[l - 1]);
        }
    }
}

/// The positions of the constraints that pass the switches, in shelf order.
fn shelf_sorted_positions(rows: &Vec<ShelfConstraintRow>, f: &ShelfFilters) -> (r: Vec<usize>)
    ensures
        shelf_sorted(rows@, shelf_kept_rows(rows@, *f), r@),
{
    let kept = shelf_kept_positions(rows, f);
    let n = rows.len();
    proof {
        lemma_shelf_kept_increasing(rows@, *f, n as nat);
    }
    let m = kept.len();
    let ghost ks = kept@;
    let mut out: Vec<usize> = Vec::new();
    let mut j: usize = 0;
    while j < m
        invariant
            n == rows.len(),
            m == ks.len(),
            kept@ == ks,
            forall|k: int| 0 <= k < m ==> #[trigger] ks[k] < n,
            forall|k: int, l: int| 0 <= k < l < m ==> #[trigger] ks[k] < #[trigger] ks[l],
            j <= m,
            out@.len() == j,
            forall|k: int|
                0 <= k < j ==> ks.subrange(0, j as int).contains(#[trigger] out@[k]),
            forall|k: int| 0 <= k < j && j < m ==> #[trigger] out@[k] < ks[j as int],
            forall|k: int| 0 <= k < j ==> #[trigger] out@[k] < n,
            shelf_distinct(out@),
            ordered_by_matches(rows@, out@),
            shelf_ties_in_order(rows@, out@),
        decreases m - j,
    {
        let x = kept[j];
        let mut p: usize = 0;
        while p < out.len() && compare_shelf_rows(&rows[x], &rows[out[p]]) >= 0
            invariant
                p <= out.len(),
                out@.len() == j,
                x == ks[j as int],
                x < n,
                n == rows.len(),
                forall|k: int| 0 <= k < j ==> #[trigger] out@[k] < n,
                forall|k: int|
                    0 <= k < p ==> shelf_order(rows@[x as int], rows@[#[trigger] out@[k] as int]) >= 0,
            decreases out.len() - p,
        {
            p = p + 1;
        }
        let ghost before = out@;
        out.insert(p, x);
        proof {
            let t = out@;
            assert(t =~= before.insert(p as int, x));
            lemma_shelf_insert(rows@, before, p as int, x);
            assert forall|k: int| 0 <= k < j + 1 implies ks.subrange(0, j + 1).contains(
                #[trigger] t[k],
            ) by {
                let s1 = ks.subrange(0, j as int);
                let s2 = ks.subrange(0, j + 1);
                if k != p {
                    let b = if k < p {
                        before[k]
                    } else {
                        before[k - 1]
                    };
                    assert(t[k] == b);
                    assert(s1.contains(b));
                    let w = choose|w: int| 0 <= w < s1.len() && s1[w] == b;
                    assert(s2[w] == b);
                } else {
                    assert(s2[j as int] == x);
                }
            }
            assert forall|k: int| 0 <= k < j + 1 && j + 1 < m implies #[trigger] t[k] < ks[j + 1] by {
                if k < p {
                    assert(t[k] == before[k]);
                } else if k > p {
                    assert(t[k] == before[k - 1]);
                }
            }
            assert forall|k: int| 0 <= k < j + 1 implies #[trigger] t[k] < n by {
                if k < p {
                    assert(t[k] == before[k]);
                } else if k > p {
                    assert(t[k] == before[k - 1]);
                }
            }
        }
        j = j + 1;
    }
    proof {
        assert(ks.subrange(0, m as int) =~= ks);
    }
    out
}


fn shelf_empty_message(f: &ShelfFilters) -> (r: &'static str)
    ensures
        r@ == shelf_empty_text(*f),
{
    if f.triangulated_origin_only {
        "No approved constraints are currently visible from triangulated origin under this shelf filter."
    } else if f.low_value_active_only {
        "No approved constraints are currently both active and unmatched."
    } else if f.inactive_unmatched_only {
        "No approved constraints are currently both inactive and unmatched."
    } else if f.unmatched_only {
        "No approved constraints are currently unmatched under this shelf filter."
    } else {
        "No approved constraints are visible under the current shelf filters."
    }
}

/// The shelf as shown: the first eight of the constraints that pass the
/// switches, most-matched first, and the empty-shelf line when none passes.
pub fn constraint_shelf_view(rows: &Vec<ShelfConstraintRow>, f: &ShelfFilters) -> (r: ShelfView)
    ensures
        exists|full: Seq<usize>|
            shelf_sorted(rows@, shelf_kept_rows(rows@, *f), full) && r.shown@ == first_n(
                full,
                SHELF_LIST_LIMIT as nat,
            ),
        match r.empty_message {
            Some(m) => shelf_kept_rows(rows@, *f).len() == 0 && m@ == shelf_empty_text(*f),
            None => shelf_kept_rows(rows@, *f).len() > 0,
        },
{
    let mut shown = shelf_sorted_positions(rows, f);
    let ghost full = shown@;
    let empty = shown.len() == 0;
    shown.truncate(SHELF_LIST_LIMIT);
    assert(shown@ == first_n(full, SHELF_LIST_LIMIT as nat));
    let empty_message = if empty {
        Some(shelf_empty_message(f))
    } else {
        None
    };
    ShelfView { shown, empty_message }
}

/// The marker beside a constraint: active and unmatched, inactive and
/// unmatched, or none when it matched.
pub fn shelf_match_marker(active: bool, match_count: usize) -> (r: Option<&'static str>)
    ensures
        match r {
            Some(m) => match_count == 0 && m@ == if active {
                "[active-unmatched]"@
            } else {
                "[inactive-unmatched]"@
            },
            None => match_count > 0,
        },
{
    if active && match_count == 0 {
        Some("[active-unmatched]")
    } else if !active && match_count == 0 {
        Some("[inactive-unmatched]")
    } else {
        None
    }
}

} // verus!
