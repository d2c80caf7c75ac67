//! The project browser: its seven project counts, its show-only filters,
//! and its patch-risk ordering.
use vstd::prelude::*;

use crate::order::{compare_text, int_order, lemma_text_order_facts, text_order, then_order};
use crate::patchability::{
    patchability_risk, project_patchability_risk_rank, ProjectPatchReadinessReceiptView,
    ProjectPatchReadinessSummary,
};
use crate::text::text_eq;

verus! {

/// One project as the browser lists it: its lane readiness, its
/// patchability receipt if one was written, and how many recent builds
/// overrode its starter.
pub struct ProjectBrowserRow {
    pub project_name: String,
    pub readiness: ProjectPatchReadinessSummary,
    pub receipt: Option<ProjectPatchReadinessReceiptView>,
    pub recent_override_count: usize,
}

/// The browser's show-only switches.
#[derive(Clone, Copy, Debug, PartialEq, Eq, Structural)]
pub struct ProjectBrowserFilters {
    pub blocked_lanes_only: bool,
    pub regressed_only: bool,
    pub improved_only: bool,
    pub historical_blockers_only: bool,
    pub decomposable_historical_only: bool,
}

/// The counts shown above the project list.
#[derive(Clone, Copy, Debug, PartialEq, Eq, Structural)]
pub struct ProjectBrowserMetrics {
    pub regressed: usize,
    pub improved: usize,
    pub blocked: usize,
    pub risky_blockers: usize,
    pub historical_blockers: usize,
    pub decomposable_historical: usize,
    pub override_heavy: usize,
}

// ---------------------------------------------------------------------------
// What a row is
// ---------------------------------------------------------------------------

/// The receipt's change since the patchability baseline is `status`.
pub open spec fn change_is(row: ProjectBrowserRow, status: Seq<char>) -> bool {
    match row.receipt {
        Some(r) => r.change_since_patchability_baseline_status@ == status,
        None => false,
    }
}

pub open spec fn is_regressed(row: ProjectBrowserRow) -> bool {
    change_is(row, "regressed_since_patchability_baseline"@)
}

pub open spec fn is_improved(row: ProjectBrowserRow) -> bool {
    change_is(row, "improved_since_patchability_baseline"@)
}

/// Some lane is structurally blocked, mismatches its surface, or waits on a dependency.
pub open spec fn has_blocked_lanes(row: ProjectBrowserRow) -> bool {
    row.readiness.structurally_blocked_count + row.readiness.surface_mismatch_count
        + row.readiness.dependency_blocked_count > 0
}

pub open spec fn has_risky_blockers(row: ProjectBrowserRow) -> bool {
    match row.receipt {
        Some(r) => r.risky_blocked_lane_count > 0,
        None => false,
    }
}

/// The receipt records blocked lanes that newer lanes supersede.
pub open spec fn has_historical_blockers(row: ProjectBrowserRow) -> bool {
    match row.receipt {
        Some(r) => r.superseded_blocked_lane_replacements@.len() > 0,
        None => false,
    }
}

pub open spec fn has_decomposable_historical(row: ProjectBrowserRow) -> bool {
    match row.receipt {
        Some(r) => r.decomposable_historical_blocker_count > 0,
        None => false,
    }
}

pub open spec fn is_override_heavy(row: ProjectBrowserRow) -> bool {
    row.recent_override_count > 0
}

/// A row passes every show-only switch that is on.
pub open spec fn passes_filters(row: ProjectBrowserRow, f: ProjectBrowserFilters) -> bool {
    &&& f.blocked_lanes_only ==> has_blocked_lanes(row)
    &&& f.regressed_only ==> is_regressed(row)
    &&& f.improved_only ==> is_improved(row)
    &&& f.historical_blockers_only ==> has_historical_blockers(row)
    &&& f.decomposable_historical_only ==> has_decomposable_historical(row)
}

/// How many rows satisfy `p`.
pub open spec fn count_rows(rows: Seq<ProjectBrowserRow>, p: spec_fn(ProjectBrowserRow) -> bool) -> nat
    decreases rows.len(),
{
    if rows.len() == 0 {
        0
    } else {
        count_rows(rows.drop_last(), p) + if p(rows.last()) {
            1nat
        } else {
            0nat
        }
    }
}

/// The positions of the rows that pass the filters, among the first `n`, in order.
pub open spec fn kept_upto(rows: Seq<ProjectBrowserRow>, f: ProjectBrowserFilters, n: nat) -> Seq<
    usize,
>
    decreases n,
{
    if n == 0 {
        Seq::empty()
    } else {
        let before = kept_upto(rows, f, (n - 1) as nat);
        if passes_filters(rows[n - 1], f) {
            before.push((n - 1) as usize)
        } else {
            before
        }
    }
}

/// The positions of the rows that pass the filters, in list order.
pub open spec fn kept_rows(rows: Seq<ProjectBrowserRow>, f: ProjectBrowserFilters) -> Seq<usize> {
    kept_upto(rows, f, rows.len())
}

// ---------------------------------------------------------------------------
// The patch-risk order
// ---------------------------------------------------------------------------

pub open spec fn row_risk(row: ProjectBrowserRow) -> nat {
    patchability_risk(row.receipt, row.readiness)
}

/// Riskier first; then more recent starter overrides, more structurally
/// blocked, more surface-mismatched and more dependency-blocked lanes first;
/// then by project name, ascending.
pub open spec fn risk_order(a: ProjectBrowserRow, b: ProjectBrowserRow) -> int {
    then_order(
        int_order(row_risk(b) as int, row_risk(a) as int),
        then_order(
            int_order(b.recent_override_count as int, a.recent_override_count as int),
            then_order(
                int_order(
                    b.readiness.structurally_blocked_count as int,
                    a.readiness.structurally_blocked_count as int,
                ),
                then_order(
                    int_order(
                        b.readiness.surface_mismatch_count as int,
                        a.readiness.surface_mismatch_count as int,
                    ),
                    then_order(
                        int_order(
                            b.readiness.dependency_blocked_count as int,
                            a.readiness.dependency_blocked_count as int,
                        ),
                        text_order(a.project_name@, b.project_name@),
                    ),
                ),
            ),
        ),
    )
}

/// The order laws: antisymmetry, range, and transitivity of "not after".
pub proof fn lemma_risk_order_laws(a: ProjectBrowserRow, b: ProjectBrowserRow, c: ProjectBrowserRow)
    ensures
        risk_order(a, b) == -risk_order(b, a),
        -1 <= risk_order(a, b) <= 1,
        risk_order(a, b) <= 0 && risk_order(b, c) <= 0 ==> risk_order(a, c) <= 0,
{
    lemma_text_order_facts(a.project_name@, b.project_name@, c.project_name@);
}

/// `r` lists exactly the kept rows' positions, each once, riskiest first,
/// rows that tie keeping their list order (what a stable sort gives).
pub open spec fn risk_sorted(rows: Seq<ProjectBrowserRow>, kept: Seq<usize>, r: Seq<usize>) -> bool {
    &&& r.len() == kept.len()
    &&& forall|k: int| 0 <= k < r.len() ==> kept.contains(#[trigger] r[k])
    &&& distinct_positions(r)
    &&& ordered_by_risk(rows, r)
    &&& ties_in_list_order(rows, r)
}

/// The rows the browser shows, by position: those that pass the filters, in
/// list order, or ordered by patch risk when that switch is on.
pub open spec fn shown_rows(
    rows: Seq<ProjectBrowserRow>,
    f: ProjectBrowserFilters,
    by_risk: bool,
    r: Seq<usize>,
) -> bool {
    if by_risk {
        risk_sorted(rows, kept_rows(rows, f), r)
    } else {
        r == kept_rows(rows, f)
    }
}

// ---------------------------------------------------------------------------
// Executable
// ---------------------------------------------------------------------------

fn status_is(row: &ProjectBrowserRow, status: &str) -> (b: bool)
    ensures
        b == change_is(*row, status@),
{
    match &row.receipt {
        Some(r) => text_eq(r.change_since_patchability_baseline_status.as_str(), status),
        None => false,
    }
}

fn row_passes(row: &ProjectBrowserRow, f: &ProjectBrowserFilters) -> (b: bool)
    ensures
        b == passes_filters(*row, *f),
{
    proof {
        reveal_strlit("regressed_since_patchability_baseline");
        reveal_strlit("improved_since_patchability_baseline");
    }
    if f.blocked_lanes_only && row.readiness.structurally_blocked_count == 0
        && row.readiness.surface_mismatch_count == 0 && row.readiness.dependency_blocked_count
        == 0 {
        return false;
    }
    if f.regressed_only && !status_is(row, "regressed_since_patchability_baseline") {
        return false;
    }
    if f.improved_only && !status_is(row, "improved_since_patchability_baseline") {
        return false;
    }
    if f.historical_blockers_only {
        let h = match &row.receipt {
            Some(r) => r.superseded_blocked_lane_replacements.len() > 0,
            None => false,
        };
        if !h {
            return false;
        }
    }
    if f.decomposable_historical_only {
        let d = match &row.receipt {
            Some(r) => r.decomposable_historical_blocker_count > 0,
            None => false,
        };
        if !d {
            return false;
        }
    }
    true
}

fn descending_order_of(a: usize, b: usize) -> (r: i8)
    ensures
        r as int == int_order(b as int, a as int),
{
    if b < a {
        -1
    } else if b > a {
        1
    } else {
        0
    }
}

fn compare_rows(a: &ProjectBrowserRow, ra: usize, b: &ProjectBrowserRow, rb: usize) -> (r: i8)
    requires
        ra == row_risk(*a),
        rb == row_risk(*b),
    ensures
        r as int == risk_order(*a, *b),
{
    let c = descending_order_of(ra, rb);
    if c != 0 {
        return c;
    }
    let c = descending_order_of(a.recent_override_count, b.recent_override_count);
    if c != 0 {
        return c;
    }
    let c = descending_order_of(
        a.readiness.structurally_blocked_count,
        b.readiness.structurally_blocked_count,
    );
    if c != 0 {
        return c;
    }
    let c = descending_order_of(a.readiness.surface_mismatch_count, b.readiness.surface_mismatch_count);
    if c != 0 {
        return c;
    }
    let c = descending_order_of(
        a.readiness.dependency_blocked_count,
        b.readiness.dependency_blocked_count,
    );
    if c != 0 {
        return c;
    }
    compare_text(a.project_name.as_str(), b.project_name.as_str())
}

fn kept_positions(rows: &Vec<ProjectBrowserRow>, f: &ProjectBrowserFilters) -> (r: Vec<usize>)
    ensures
        r@ == kept_rows(rows@, *f),
{
    let mut out: Vec<usize> = Vec::new();
    let mut i: usize = 0;
    while i < rows.len()
        invariant
            i <= rows.len(),
            out@ == kept_upto(rows@, *f, i as nat),
        decreases rows.len() - i,
    {
        if row_passes(&rows[i], f) {
            out.push(i);
        }
        i = i + 1;
    }
    out
}

/// The kept positions are increasing and lie below `n`.
proof fn lemma_kept_increasing(rows: Seq<ProjectBrowserRow>, f: ProjectBrowserFilters, n: nat)
    requires
        n <= usize::MAX + 1,
    ensures
        forall|k: int| 0 <= k < kept_upto(rows, f, n).len() ==> #[trigger] kept_upto(rows, f, n)[k] < n,
        forall|k: int, l: int|
            0 <= k < l < kept_upto(rows, f, n).len() ==> #[trigger] kept_upto(rows, f, n)[k]
                < #[trigger] kept_upto(rows, f, n)[l],
    decreases n,
{
    if n > 0 {
        lemma_kept_increasing(rows, f, (n - 1) as nat);
        let before = kept_upto(rows, f, (n - 1) as nat);
        let r = kept_upto(rows, f, n);
        if passes_filters(rows[n - 1], f) {
            assert(r == before.push((n - 1) as usize));
            assert forall|k: int| 0 <= k < r.len() implies #[trigger] r[k] < n by {
                if k < before.len() {
                    assert(r[k] == before[k]);
                }
            }
            assert forall|k: int, l: int| 0 <= k < l < r.len() implies #[trigger] r[k] < #[trigger] r[l] by {
                assert(r[k] == before[k]);
                if l < before.len() {
                    assert(r[l] == before[l]);
                }
            }
        } else {
            assert(r == before);
        }
    }
}

/// Each position once.
pub open spec fn distinct_positions(s: Seq<usize>) -> bool {
    forall|k: int, l: int| 0 <= k < l < s.len() ==> s[k] != s[l]
}

/// Riskiest first.
pub open spec fn ordered_by_risk(rows: Seq<ProjectBrowserRow>, s: Seq<usize>) -> bool {
    forall|k: int, l: int|
        0 <= k < l < s.len() ==> risk_order(rows[#[trigger] s[k] as int], rows[#[trigger] s[l] as int])
            <= 0
}

/// Rows that tie keep their list order.
pub open spec fn ties_in_list_order(rows: Seq<ProjectBrowserRow>, s: Seq<usize>) -> bool {
    forall|k: int, l: int|
        0 <= k < l < s.len() && risk_order(rows[s[k] as int], rows[s[l] as int]) == 0
            ==> #[trigger] s[k] < #[trigger] s[l]
}

/// Inserting a position later in the list than all others, just before the
/// first row it sorts before, keeps the positions distinct, ordered and stable.
proof fn lemma_insert_position(rows: Seq<ProjectBrowserRow>, before: Seq<usize>, p: int, x: usize)
    requires
        0 <= p <= before.len(),
        x < rows.len(),
        forall|k: int| 0 <= k < before.len() ==> #[trigger] before[k] < x,
        forall|k: int| 0 <= k < before.len() ==> #[trigger] before[k] < rows.len(),
        forall|k: int| 0 <= k < p ==> risk_order(rows[x as int], rows[#[trigger] before[k] as int]) >= 0,
        p < before.len() ==> risk_order(rows[x as int], rows[before[p] as int]) < 0,
        distinct_positions(before),
        ordered_by_risk(rows, before),
        ties_in_list_order(rows, before),
    ensures
        distinct_positions(before.insert(p, x)),
        ordered_by_risk(rows, before.insert(p, x)),
        ties_in_list_order(rows, before.insert(p, x)),
{
    let t = before.insert(p, x);
    let kx = rows[x as int];
    assert forall|k: int, l: int| 0 <= k < l < t.len() implies t[k] != t[l] by {
        if k < p && l < p {
            assert(t[k] == before[k] && t[l] == before[l]);
        } else if k < p && l == p {
            assert(t[k] == before[k]);
        } else if k < p && l > p {
            assert(t[k] == before[k] && t[l] == before[l - 1]);
        } else if k == p {
            assert(t[l] == before[l - 1]);
        } else {
            assert(t[k] == before[k - 1] && t[l] == before[l - 1]);
        }
    }
    assert forall|k: int, l: int| 0 <= k < l < t.len() implies risk_order(
        rows[#[trigger] t[k] as int],
        rows[#[trigger] t[l] as int],
    ) <= 0 by {
        if k < p && l < p {
            assert(t[k] == before[k] && t[l] == before[l]);
        } else if k < p && l == p {
            assert(t[k] == before[k]);
            lemma_risk_order_laws(kx, rows[before[k] as int], kx);
        } else if k < p && l > p {
            assert(t[k] == before[k] && t[l] == before[l - 1]);
        } else if k == p {
            assert(t[l] == before[l - 1]);
            let bp = rows[before[p] as int];
            let bl = rows[before[l - 1] as int];
            lemma_risk_order_laws(kx, bp, bl);
            if l - 1 > p {
                assert(risk_order(bp, bl) <= 0);
            }
        } else {
            assert(t[k] == before[k - 1] && t[l] == before[l - 1]);
        }
    }
    assert forall|k: int, l: int|
        0 <= k < l < t.len() && risk_order(rows[t[k] as int], rows[t[l] as int]) == 0 implies #[trigger] t[k]
        < #[trigger] t[l] by {
        if k < p && l < p {
            assert(t[k] == before[k] && t[l] == before[l]);
        } else if k < p && l == p {
            assert(t[k] == before[k]);
        } else if k < p && l > p {
            assert(t[k] == before[k] && t[l] == before[l - 1]);
        } else if k == p {
            assert(t[l] == before[l - 1]);
            let bp = rows[before[p] as int];
            let bl = rows[before[l - 1] as int];
            lemma_risk_order_laws(kx, bp, bl);
            lemma_risk_order_laws(bp, bl, kx);
            lemma_risk_order_laws(bl, kx, bp);
            if l - 1 > p {
                assert(risk_order(bp, bl) <= 0);
            }
            assert(false);
        } else {
            assert(t[k] == before[k - 1] && t[l] == before[l - 1]);
        }
    }
}

/// The positions of the rows the browser shows, in the order it shows them.
pub fn project_browser_rows(rows: &Vec<ProjectBrowserRow>, f: &ProjectBrowserFilters, by_risk: bool) -> (r:
    Vec<usize>)
    ensures
        shown_rows(rows@, *f, by_risk, r@),
{
    let kept = kept_positions(rows, f);
    if !by_risk {
        return kept;
    }
    let n = rows.len();
    proof {
        lemma_kept_increasing(rows@, *f, n as nat);
    }
    let mut risks: Vec<usize> = Vec::new();
    let mut i: usize = 0;
    while i < n
        invariant
            n == rows.len(),
            i <= n,
            risks@.len() == i,
            forall|k: int| 0 <= k < i ==> #[trigger] risks@[k] == row_risk(rows@[k]),
        decreases n - i,
    {
        let row = &rows[i];
        let rk = project_patchability_risk_rank(row.receipt.as_ref(), &row.readiness);
        risks.push(rk);
        i = i + 1;
    }
    let m = kept.len();
    let ghost ks = kept@;
    let mut out: Vec<usize> = Vec::new();
    let mut j: usize = 0;
    while j < m
        invariant
            n == rows.len(),
            m == ks.len(),
            kept@ == ks,
            risks@.len() == n,
            forall|k: int| 0 <= k < n ==> #[trigger] risks@[k] == row_risk(rows@[k]),
            forall|k: int| 0 <= k < m ==> #[trigger] ks[k] < n,
            forall|k: int, l: int| 0 <= k < l < m ==> #[trigger] ks[k] < #[trigger] ks[l],
            j <= m,
            out@.len() == j,
            forall|k: int|
                0 <= k < j ==> ks.subrange(0, j as int).contains(#[trigger] out@[k]),
            forall|k: int| 0 <= k < j && j < m ==> #[trigger] out@[k] < ks[j as int],
            forall|k: int| 0 <= k < j ==> #[trigger] out@[k] < n,
            distinct_positions(out@),
            ordered_by_risk(rows@, out@),
            ties_in_list_order(rows@, out@),
        decreases m - j,
    {
        let x = kept[j];
        let xr = risks[x];
        let mut p: usize = 0;
        while p < out.len() && compare_rows(&rows[x], xr, &rows[out[p]], risks[out[p]]) >= 0
            invariant
                p <= out.len(),
                out@.len() == j,
                x == ks[j as int],
                x < n,
                n == rows.len(),
                risks@.len() == n,
                xr == row_risk(rows@[x as int]),
                forall|k: int| 0 <= k < n ==> #[trigger] risks@[k] == row_risk(rows@[k]),
                forall|k: int| 0 <= k < j ==> #[trigger] out@[k] < n,
                forall|k: int|
                    0 <= k < p ==> risk_order(rows@[x as int], rows@[#[trigger] out@[k] as int]) >= 0,
            decreases out.len() - p,
        {
            p = p + 1;
        }
        let ghost before = out@;
        out.insert(p, x);
        proof {
            let t = out@;
            assert(t =~= before.insert(p as int, x));
            lemma_insert_position(rows@, before, p as int, x);
            assert forall|k: int| 0 <= k < j + 1 implies ks.subrange(0, j + 1).contains(
                #[trigger] t[k],
            ) by {
                let s1 = ks.subrange(0, j as int);
                let s2 = ks.subrange(0, j + 1);
                if k != p {
                    let b = if k < p {
                        before[k]
                    } else {
                        before[k - 1]
                    };
                    assert(t[k] == b);
                    assert(s1.contains(b));
                    let w = choose|w: int| 0 <= w < s1.len() && s1[w] == b;
                    assert(s2[w] == b);
                } else {
                    assert(s2[j as int] == x);
                }
            }
            assert forall|k: int| 0 <= k < j + 1 && j + 1 < m implies #[trigger] t[k] < ks[j + 1] by {
                if k < p {
                    assert(t[k] == before[k]);
                } else if k > p {
                    assert(t[k] == before[k - 1]);
                }
            }
            assert forall|k: int| 0 <= k < j + 1 implies #[trigger] t[k] < n by {
                if k < p {
                    assert(t[k] == before[k]);
                } else if k > p {
                    assert(t[k] == before[k - 1]);
                }
            }
        }
        j = j + 1;
    }
    proof {
        assert(ks.subrange(0, m as int) =~= ks);
    }
    out
}

/// The seven counts above the project list, over all projects (before the
/// show-only filters).
pub open spec fn browser_metrics(rows: Seq<ProjectBrowserRow>) -> ProjectBrowserMetrics {
    ProjectBrowserMetrics {
        regressed: count_rows(rows, |r: ProjectBrowserRow| is_regressed(r)) as usize,
        improved: count_rows(rows, |r: ProjectBrowserRow| is_improved(r)) as usize,
        blocked: count_rows(rows, |r: ProjectBrowserRow| has_blocked_lanes(r)) as usize,
        risky_blockers: count_rows(rows, |r: ProjectBrowserRow| has_risky_blockers(r)) as usize,
        historical_blockers: count_rows(rows, |r: ProjectBrowserRow| has_historical_blockers(r))
            as usize,
        decomposable_historical: count_rows(
            rows,
            |r: ProjectBrowserRow| has_decomposable_historical(r),
        ) as usize,
        override_heavy: count_rows(rows, |r: ProjectBrowserRow| is_override_heavy(r)) as usize,
    }
}

proof fn lemma_count_step(rows: Seq<ProjectBrowserRow>, i: int, p: spec_fn(ProjectBrowserRow) -> bool)
    requires
        0 <= i < rows.len(),
    ensures
        count_rows(rows.subrange(0, i + 1), p) == count_rows(rows.subrange(0, i), p) + if p(
            rows[i],
        ) {
            1nat
        } else {
            0nat
        },
        count_rows(rows.subrange(0, i), p) <= i,
    decreases i,
{
    assert(rows.subrange(0, i + 1).drop_last() =~= rows.subrange(0, i));
    if i > 0 {
        lemma_count_step(rows, i - 1, p);
    } else {
        assert(rows.subrange(0, 0).len() == 0);
    }
}

fn bump(c: usize, yes: bool, bound: usize) -> (r: usize)
    requires
        c < bound,
    ensures
        r == c + if yes {
            1nat
        } else {
            0nat
        },
{
    if yes {
        c + 1
    } else {
        c
    }
}

/// The counts above the project list.
pub fn project_browser_metrics(rows: &Vec<ProjectBrowserRow>) -> (m: ProjectBrowserMetrics)
    ensures
        m == browser_metrics(rows@),
{
    proof {
        reveal_strlit("regressed_since_patchability_baseline");
        reveal_strlit("improved_since_patchability_baseline");
    }
    let ghost s = rows@;
    let ghost p1 = |r: ProjectBrowserRow| is_regressed(r);
    let ghost p2 = |r: ProjectBrowserRow| is_improved(r);
    let ghost p3 = |r: ProjectBrowserRow| has_blocked_lanes(r);
    let ghost p4 = |r: ProjectBrowserRow| has_risky_blockers(r);
    let ghost p5 = |r: ProjectBrowserRow| has_historical_blockers(r);
    let ghost p6 = |r: ProjectBrowserRow| has_decomposable_historical(r);
    let ghost p7 = |r: ProjectBrowserRow| is_override_heavy(r);
    let mut m = ProjectBrowserMetrics {
        regressed: 0,
        improved: 0,
        blocked: 0,
        risky_blockers: 0,
        historical_blockers: 0,
        decomposable_historical: 0,
        override_heavy: 0,
    };
    let n = rows.len();
    let mut i: usize = 0;
    while i < n
        invariant
            n == rows.len(),
            s == rows@,
            i <= n,
            m.regressed == count_rows(s.subrange(0, i as int), p1),
            m.improved == count_rows(s.subrange(0, i as int), p2),
            m.blocked == count_rows(s.subrange(0, i as int), p3),
            m.risky_blockers == count_rows(s.subrange(0, i as int), p4),
            m.historical_blockers == count_rows(s.subrange(0, i as int), p5),
            m.decomposable_historical == count_rows(s.subrange(0, i as int), p6),
            m.override_heavy == count_rows(s.subrange(0, i as int), p7),
            p1 == (|r: ProjectBrowserRow| is_regressed(r)),
            p2 == (|r: ProjectBrowserRow| is_improved(r)),
            p3 == (|r: ProjectBrowserRow| has_blocked_lanes(r)),
            p4 == (|r: ProjectBrowserRow| has_risky_blockers(r)),
            p5 == (|r: ProjectBrowserRow| has_historical_blockers(r)),
            p6 == (|r: ProjectBrowserRow| has_decomposable_historical(r)),
            p7 == (|r: ProjectBrowserRow| is_override_heavy(r)),
        decreases n - i,
    {
        let row = &rows[i];
        proof {
            lemma_count_step(s, i as int, p1);
            lemma_count_step(s, i as int, p2);
            lemma_count_step(s, i as int, p3);
            lemma_count_step(s, i as int, p4);
            lemma_count_step(s, i as int, p5);
            lemma_count_step(s, i as int, p6);
            lemma_count_step(s, i as int, p7);
        }
        m.regressed = bump(m.regressed, status_is(row, "regressed_since_patchability_baseline"), n);
        m.improved = bump(m.improved, status_is(row, "improved_since_patchability_baseline"), n);
        m.blocked = bump(
            m.blocked,
            row.readiness.structurally_blocked_count > 0 || row.readiness.surface_mismatch_count > 0
                || row.readiness.dependency_blocked_count > 0,
            n,
        );
        let (risky, historical, decomposable) = match &row.receipt {
            Some(r) => (
                r.risky_blocked_lane_count > 0,
                r.superseded_blocked_lane_replacements.len() > 0,
                r.decomposable_historical_blocker_count > 0,
            ),
            None => (false, false, false),
        };
        m.risky_blockers = bump(m.risky_blockers, risky, n);
        m.historical_blockers = bump(m.historical_blockers, historical, n);
        m.decomposable_historical = bump(m.decomposable_historical, decomposable, n);
        m.override_heavy = bump(m.override_heavy, row.recent_override_count > 0, n);
        i = i + 1;
    }
    proof {
        assert(s.subrange(0, n as int) =~= s);
    }
    m
}

/// With every show-only switch off, the browser keeps every project, in list order.
pub proof fn lemma_no_filters_keep_every_project(rows: Seq<ProjectBrowserRow>, f: ProjectBrowserFilters)
    requires
        !f.blocked_lanes_only,
        !f.regressed_only,
        !f.improved_only,
        !f.historical_blockers_only,
        !f.decomposable_historical_only,
        rows.len() <= usize::MAX,
    ensures
        kept_rows(rows, f) == Seq::new(rows.len(), |i: int| i as usize),
{
    lemma_keep_every_upto(rows, f, rows.len());
}

proof fn lemma_keep_every_upto(rows: Seq<ProjectBrowserRow>, f: ProjectBrowserFilters, n: nat)
    requires
        !f.blocked_lanes_only,
        !f.regressed_only,
        !f.improved_only,
        !f.historical_blockers_only,
        !f.decomposable_historical_only,
        n <= rows.len(),
        rows.len() <= usize::MAX,
    ensures
        kept_upto(rows, f, n) == Seq::new(n, |i: int| i as usize),
    decreases n,
{
    if n > 0 {
        lemma_keep_every_upto(rows, f, (n - 1) as nat);
        assert(kept_upto(rows, f, n) =~= Seq::new(n, |i: int| i as usize));
    } else {
        assert(kept_upto(rows, f, n) =~= Seq::new(n, |i: int| i as usize));
    }
}

} // verus!
