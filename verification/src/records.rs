//! Counts over the runtime's receipts: the recent constraint shelf actions,
//! how often each approved constraint matched a build verification (with
//! breakdowns by failure mode, family and tool), and the recent builds that
//! overrode the starter the router recommended.
use vstd::prelude::*;

use crate::extensions::{is_text, opt_is, or_text};
use crate::search::{first_from, first_where};
use crate::tally::{is_tally_of, occurrences, tally_keys, tally_texts};
use crate::text::{owned, text_eq, views};
use crate::text_sort::strictly_ascending;
use crate::order::lemma_text_order_facts;

verus! {

/// What the counts read of a build receipt.
pub struct BuildReceiptView {
    pub starter_override_id: Option<String>,
    pub starter_override_summary: Option<String>,
    pub recommended_starter_id: Option<String>,
    pub recommended_starter_summary: Option<String>,
    pub starter_recommendation_comparison: Option<String>,
    pub project_name: String,
}

/// A constraint shelf mutation receipt.
pub struct ConstraintShelfMutationReceiptView {
    pub mutation_id: String,
    pub constraint_id: String,
    pub action: String,
    pub proposal_origin: Option<String>,
    pub proposal_source_id: Option<String>,
    pub status: String,
    pub created_at: Option<String>,
}

/// What the counts read of a build verification receipt.
pub struct BuildVerificationReceiptView {
    pub failure_mode: String,
    pub suggested_family_id: Option<String>,
    pub suggested_tool_kind: Option<String>,
    pub matched_approved_constraint_ids: Vec<String>,
}

/// How an approved constraint's matches break down.
pub struct ApprovedConstraintMatchBreakdown {
    pub total_matches: usize,
    pub by_failure_mode: Vec<(String, usize)>,
    pub by_family_id: Vec<(String, usize)>,
    pub by_tool_kind: Vec<(String, usize)>,
}

/// How many receipts the recent counts look at.
pub const RECENT_RECEIPTS: usize = 20;

/// The actions of the twenty most recent shelf mutations.
pub open spec fn recent_actions(rs: Seq<ConstraintShelfMutationReceiptView>) -> Seq<Seq<char>> {
    let n: int = if rs.len() > 20 {
        20
    } else {
        rs.len() as int
    };
    Seq::new(n as nat, |i: int| rs[i].action@)
}

/// How often each action occurs among the twenty most recent shelf mutations
/// (the receipts come newest first).
pub fn summarize_constraint_shelf_mutation_actions(
    receipts: &Vec<ConstraintShelfMutationReceiptView>,
) -> (r: Vec<(String, usize)>)
    ensures
        is_tally_of(r@, recent_actions(receipts@)),
{
    let mut actions: Vec<String> = Vec::new();
    let mut i: usize = 0;
    while i < receipts.len() && i < RECENT_RECEIPTS
        invariant
            i <= receipts.len(),
            i <= 20,
            views(actions@) == Seq::new(i as nat, |k: int| receipts@[k].action@),
        decreases receipts.len() - i,
    {
        let ghost before = views(actions@);
        let a = receipts[i].action.clone();
        assert(a@ == receipts@[i as int].action@);
        actions.push(a);
        assert(views(actions@) =~= before.push(a@));
        assert(views(actions@) =~= Seq::new((i + 1) as nat, |k: int| receipts@[k].action@));
        i = i + 1;
    }
    assert(views(actions@) =~= recent_actions(receipts@));
    tally_texts(&actions)
}

/// Every approved constraint identity matched by the receipts, in order, as
/// often as it is listed.
pub open spec fn matched_ids(ms: Seq<(String, BuildVerificationReceiptView)>) -> Seq<Seq<char>>
    decreases ms.len(),
{
    if ms.len() == 0 {
        Seq::empty()
    } else {
        matched_ids(ms.drop_last()) + views(ms.last().1.matched_approved_constraint_ids@)
    }
}

fn append_views(out: &mut Vec<String>, items: &Vec<String>)
    ensures
        views(final(out)@) == views(old(out)@) + views(items@),
{
    let ghost start = views(out@);
    let mut i: usize = 0;
    while i < items.len()
        invariant
            i <= items.len(),
            views(out@) == start + views(items@).subrange(0, i as int),
        decreases items.len() - i,
    {
        let ghost before = views(out@);
        let s = items[i].clone();
        out.push(s);
        assert(views(out@) =~= before.push(s@));
        assert(views(out@) =~= start + views(items@).subrange(0, i + 1));
        i = i + 1;
    }
    assert(views(items@).subrange(0, items.len() as int) =~= views(items@));
}

fn all_matched_ids(matches: &Vec<(String, BuildVerificationReceiptView)>) -> (r: Vec<String>)
    ensures
        views(r@) == matched_ids(matches@),
{
    let mut out: Vec<String> = Vec::new();
    let mut i: usize = 0;
    assert(matches@.subrange(0, 0) =~= Seq::<(String, BuildVerificationReceiptView)>::empty());
    while i < matches.len()
        invariant
            i <= matches.len(),
            views(out@) == matched_ids(matches@.subrange(0, i as int)),
        decreases matches.len() - i,
    {
        append_views(&mut out, &matches[i].1.matched_approved_constraint_ids);
        assert(matches@.subrange(0, i + 1).drop_last() =~= matches@.subrange(0, i as int));
        i = i + 1;
    }
    assert(matches@.subrange(0, matches.len() as int) =~= matches@);
    out
}

/// How often each approved constraint matched the given verification receipts.
pub fn approved_constraint_match_counts(matches: &Vec<(String, BuildVerificationReceiptView)>) -> (r:
    Vec<(String, usize)>)
    ensures
        is_tally_of(r@, matched_ids(matches@)),
{
    let ids = all_matched_ids(matches);
    tally_texts(&ids)
}

/// One column of a verification receipt: 0 the failure mode, 1 the
/// suggested family (`unknown_family` when absent), 2 the suggested tool
/// (`unknown_tool` when absent).
pub open spec fn receipt_column(r: BuildVerificationReceiptView, column: int) -> Seq<char> {
    if column == 0 {
        r.failure_mode@
    } else if column == 1 {
        or_text(r.suggested_family_id, "unknown_family"@)
    } else {
        or_text(r.suggested_tool_kind, "unknown_tool"@)
    }
}

/// The column's value once for every match of constraint `k`, in order.
pub open spec fn column_for(ms: Seq<(String, BuildVerificationReceiptView)>, k: Seq<char>, column: int) -> Seq<
    Seq<char>,
>
    decreases ms.len(),
{
    if ms.len() == 0 {
        Seq::empty()
    } else {
        let r = ms.last().1;
        column_for(ms.drop_last(), k, column) + Seq::new(
            occurrences(views(r.matched_approved_constraint_ids@), k),
            |j: int| receipt_column(r, column),
        )
    }
}

fn column_value(r: &BuildVerificationReceiptView, column: usize) -> (v: String)
    requires
        column <= 2,
    ensures
        v@ == receipt_column(*r, column as int),
{
    if column == 0 {
        r.failure_mode.clone()
    } else if column == 1 {
        match &r.suggested_family_id {
            Some(f) => f.clone(),
            None => owned("unknown_family"),
        }
    } else {
        match &r.suggested_tool_kind {
            Some(t) => t.clone(),
            None => owned("unknown_tool"),
        }
    }
}

fn column_values_for(
    matches: &Vec<(String, BuildVerificationReceiptView)>,
    k: &str,
    column: usize,
) -> (r: Vec<String>)
    requires
        column <= 2,
    ensures
        views(r@) == column_for(matches@, k@, column as int),
{
    let mut out: Vec<String> = Vec::new();
    let mut i: usize = 0;
    assert(matches@.subrange(0, 0) =~= Seq::<(String, BuildVerificationReceiptView)>::empty());
    while i < matches.len()
        invariant
            i <= matches.len(),
            column <= 2,
            views(out@) == column_for(matches@.subrange(0, i as int), k@, column as int),
        decreases matches.len() - i,
    {
        let r = &matches[i].1;
        let ids = &r.matched_approved_constraint_ids;
        let value = column_value(r, column);
        let ghost start = views(out@);
        let ghost idv = views(ids@);
        let mut j: usize = 0;
        assert(idv.subrange(0, 0) =~= Seq::<Seq<char>>::empty());
        while j < ids.len()
            invariant
                j <= ids.len(),
                idv == views(ids@),
                value@ == receipt_column(*r, column as int),
                views(out@) == start + Seq::new(
                    occurrences(idv.subrange(0, j as int), k@),
                    |q: int| receipt_column(*r, column as int),
                ),
            decreases ids.len() - j,
        {
            assert(idv.subrange(0, j + 1).drop_last() =~= idv.subrange(0, j as int));
            assert(idv.subrange(0, j + 1).last() == ids@[j as int]@);
            if text_eq(ids[j].as_str(), k) {
                let ghost before = views(out@);
                let v = value.clone();
                out.push(v);
                assert(views(out@) =~= before.push(v@));
                assert(views(out@) =~= start + Seq::new(
                    occurrences(idv.subrange(0, j + 1), k@),
                    |q: int| receipt_column(*r, column as int),
                ));
            } else {
                assert(views(out@) =~= start + Seq::new(
                    occurrences(idv.subrange(0, j + 1), k@),
                    |q: int| receipt_column(*r, column as int),
                ));
            }
            j = j + 1;
        }
        assert(idv.subrange(0, ids.len() as int) =~= idv);
        assert(matches@.subrange(0, i + 1).drop_last() =~= matches@.subrange(0, i as int));
        assert(matches@.subrange(0, i + 1).last() == matches@[i as int]);
        i = i + 1;
    }
    assert(matches@.subrange(0, matches.len() as int) =~= matches@);
    out
}

/// The breakdown of constraint `k`'s matches: their number, and how often
/// each failure mode, family and tool occurs among them.
pub open spec fn is_breakdown_of(
    b: ApprovedConstraintMatchBreakdown,
    ms: Seq<(String, BuildVerificationReceiptView)>,
    k: Seq<char>,
) -> bool {
    &&& b.total_matches as nat == occurrences(matched_ids(ms), k)
    &&& is_tally_of(b.by_failure_mode@, column_for(ms, k, 0))
    &&& is_tally_of(b.by_family_id@, column_for(ms, k, 1))
    &&& is_tally_of(b.by_tool_kind@, column_for(ms, k, 2))
}

/// The constraint identities of a list of breakdowns, in order.
pub open spec fn breakdown_keys(r: Seq<(String, ApprovedConstraintMatchBreakdown)>) -> Seq<Seq<char>> {
    Seq::new(r.len(), |i: int| r[i].0@)
}

/// For each approved constraint that matched (in ascending order of its
/// identity, each once), the breakdown of its matches.
pub fn approved_constraint_match_breakdowns(
    matches: &Vec<(String, BuildVerificationReceiptView)>,
) -> (r: Vec<(String, ApprovedConstraintMatchBreakdown)>)
    ensures
        strictly_ascending(breakdown_keys(r@)),
        forall|k: Seq<char>|
            occurrences(matched_ids(matches@), k) > 0 ==> #[trigger] breakdown_keys(r@).contains(k),
        forall|i: int|
            0 <= i < r@.len() ==> is_breakdown_of((#[trigger] r@[i]).1, matches@, r@[i].0@)
                && r@[i].1.total_matches > 0,
{
    let counts = approved_constraint_match_counts(matches);
    let mut out: Vec<(String, ApprovedConstraintMatchBreakdown)> = Vec::new();
    let mut i: usize = 0;
    while i < counts.len()
        invariant
            i <= counts.len(),
            is_tally_of(counts@, matched_ids(matches@)),
            out@.len() == i,
            forall|q: int|
                0 <= q < i ==> (#[trigger] out@[q]).0@ == counts@[q].0@ && is_breakdown_of(
                    out@[q].1,
                    matches@,
                    out@[q].0@,
                ) && out@[q].1.total_matches > 0,
        decreases counts.len() - i,
    {
        let k = counts[i].0.as_str();
        let total = counts[i].1;
        assert(counts@[i as int].1 as nat == occurrences(matched_ids(matches@), counts@[i as int].0@));
        let modes = column_values_for(matches, k, 0);
        let families = column_values_for(matches, k, 1);
        let tools = column_values_for(matches, k, 2);
        let b = ApprovedConstraintMatchBreakdown {
            total_matches: total,
            by_failure_mode: tally_texts(&modes),
            by_family_id: tally_texts(&families),
            by_tool_kind: tally_texts(&tools),
        };
        out.push((counts[i].0.clone(), b));
        i = i + 1;
    }
    assert(breakdown_keys(out@) =~= tally_keys(counts@));
    out
}

/// The projects of the receipts that overrode the recommended starter.
pub open spec fn override_projects(rs: Seq<BuildReceiptView>) -> Seq<Seq<char>>
    decreases rs.len(),
{
    if rs.len() == 0 {
        Seq::empty()
    } else {
        let p = override_projects(rs.drop_last());
        if is_text(rs.last().starter_recommendation_comparison, "overrode_normal_routing"@) {
            p.push(rs.last().project_name@)
        } else {
            p
        }
    }
}

/// At most the first twenty receipts.
pub open spec fn recent_receipts(rs: Seq<BuildReceiptView>) -> Seq<BuildReceiptView> {
    if rs.len() > 20 {
        rs.subrange(0, 20)
    } else {
        rs
    }
}

/// How often each project overrode the recommended starter among the twenty
/// most recent build receipts (the receipts come newest first).
pub fn project_starter_override_counts(receipts: &Vec<BuildReceiptView>) -> (r: Vec<(String, usize)>)
    ensures
        is_tally_of(r@, override_projects(recent_receipts(receipts@))),
{
    let mut projects: Vec<String> = Vec::new();
    let mut i: usize = 0;
    assert(receipts@.subrange(0, 0) =~= Seq::<BuildReceiptView>::empty());
    while i < receipts.len() && i < RECENT_RECEIPTS
        invariant
            i <= receipts.len(),
            i <= 20,
            views(projects@) == override_projects(receipts@.subrange(0, i as int)),
        decreases receipts.len() - i,
    {
        assert(receipts@.subrange(0, i + 1).drop_last() =~= receipts@.subrange(0, i as int));
        assert(receipts@.subrange(0, i + 1).last() == receipts@[i as int]);
        if opt_is(&receipts[i].starter_recommendation_comparison, "overrode_normal_routing") {
            let ghost before = views(projects@);
            let p = receipts[i].project_name.clone();
            projects.push(p);
            assert(views(projects@) =~= before.push(p@));
        }
        i = i + 1;
    }
    assert(receipts@.subrange(0, i as int) =~= recent_receipts(receipts@));
    tally_texts(&projects)
}

/// A receipt of `project` that overrode the recommended starter.
pub open spec fn overrode_for(project: Seq<char>) -> spec_fn(BuildReceiptView) -> bool {
    |r: BuildReceiptView| r.project_name@ == project && is_text(
        r.starter_recommendation_comparison,
        "overrode_normal_routing"@,
    )
}

/// The position of the newest receipt (receipts come newest first) in which
/// `project_name` overrode the recommended starter.
pub fn latest_project_starter_override_receipt(
    receipts: &Vec<BuildReceiptView>,
    project_name: &str,
) -> (r: Option<usize>)
    ensures
        match r {
            Some(i) => i < receipts@.len() && first_where(receipts@, overrode_for(project_name@))
                == Some(i as int),
            None => first_where(receipts@, overrode_for(project_name@)) is None,
        },
{
    let mut i: usize = 0;
    while i < receipts.len()
        invariant
            i <= receipts.len(),
            first_where(receipts@, overrode_for(project_name@)) == first_from(
                receipts@,
                overrode_for(project_name@),
                i as int,
            ),
        decreases receipts.len() - i,
    {
        if text_eq(receipts[i].project_name.as_str(), project_name) && opt_is(
            &receipts[i].starter_recommendation_comparison,
            "overrode_normal_routing",
        ) {
            return Some(i);
        }
        i = i + 1;
    }
    None
}

// ---------------------------------------------------------------------------
// The breakdowns agree with the counts
// ---------------------------------------------------------------------------

/// The sum of a tally's counts.
pub open spec fn tally_total(t: Seq<(String, usize)>) -> nat
    decreases t.len(),
{
    if t.len() == 0 {
        0
    } else {
        tally_total(t.drop_last()) + t.last().1 as nat
    }
}

/// How often the texts of `keys` occur in `s`, added up.
spec fn occurrence_sum(keys: Seq<Seq<char>>, s: Seq<Seq<char>>) -> nat
    decreases keys.len(),
{
    if keys.len() == 0 {
        0
    } else {
        occurrence_sum(keys.drop_last(), s) + occurrences(s, keys.last())
    }
}

proof fn lemma_occurrence_sum_empty(keys: Seq<Seq<char>>)
    ensures
        occurrence_sum(keys, Seq::empty()) == 0,
    decreases keys.len(),
{
    if keys.len() > 0 {
        lemma_occurrence_sum_empty(keys.drop_last());
    }
}

proof fn lemma_occurrence_sum_push(keys: Seq<Seq<char>>, s: Seq<Seq<char>>, x: Seq<char>)
    ensures
        occurrence_sum(keys, s.push(x)) == occurrence_sum(keys, s) + occurrences(keys, x),
    decreases keys.len(),
{
    assert(s.push(x).drop_last() =~= s);
    if keys.len() > 0 {
        lemma_occurrence_sum_push(keys.drop_last(), s, x);
    }
}

proof fn lemma_occurrences_distinct(keys: Seq<Seq<char>>, y: Seq<char>)
    requires
        forall|i: int, j: int| 0 <= i < j < keys.len() ==> keys[i] != keys[j],
    ensures
        occurrences(keys, y) == if keys.contains(y) {
            1nat
        } else {
            0nat
        },
    decreases keys.len(),
{
    if keys.len() > 0 {
        let p = keys.drop_last();
        lemma_occurrences_distinct(p, y);
        if keys.last() == y {
            if p.contains(y) {
                let w = choose|w: int| 0 <= w < p.len() && p[w] == y;
                assert(keys[w] == keys[keys.len() - 1]);
            }
        }
        if keys.contains(y) && keys.last() != y {
            let w = choose|w: int| 0 <= w < keys.len() && keys[w] == y;
            assert(p[w] == y);
        }
        if p.contains(y) {
            let w = choose|w: int| 0 <= w < p.len() && p[w] == y;
            assert(keys[w] == y);
        }
    }
}

proof fn lemma_contains_occurs(s: Seq<Seq<char>>, y: Seq<char>)
    requires
        s.contains(y),
    ensures
        occurrences(s, y) > 0,
    decreases s.len(),
{
    if s.last() != y {
        let w = choose|w: int| 0 <= w < s.len() && s[w] == y;
        assert(s.drop_last()[w] == y);
        lemma_contains_occurs(s.drop_last(), y);
    }
}

proof fn lemma_occurrence_sum_total(keys: Seq<Seq<char>>, s: Seq<Seq<char>>)
    requires
        forall|i: int, j: int| 0 <= i < j < keys.len() ==> keys[i] != keys[j],
        forall|y: Seq<char>| occurrences(s, y) > 0 ==> #[trigger] keys.contains(y),
    ensures
        occurrence_sum(keys, s) == s.len(),
    decreases s.len(),
{
    if s.len() == 0 {
        lemma_occurrence_sum_empty(keys);
        assert(s =~= Seq::<Seq<char>>::empty());
    } else {
        let p = s.drop_last();
        let x = s.last();
        assert(s =~= p.push(x));
        assert forall|y: Seq<char>| occurrences(p, y) > 0 implies #[trigger] keys.contains(y) by {
            assert(occurrences(s, y) >= occurrences(p, y));
        }
        lemma_occurrence_sum_total(keys, p);
        lemma_occurrence_sum_push(keys, p, x);
        assert(occurrences(s, x) > 0);
        lemma_occurrences_distinct(keys, x);
    }
}

proof fn lemma_tally_total_is_sum(t: Seq<(String, usize)>, s: Seq<Seq<char>>)
    requires
        forall|i: int| 0 <= i < t.len() ==> (#[trigger] t[i]).1 as nat == occurrences(s, t[i].0@),
    ensures
        tally_total(t) == occurrence_sum(tally_keys(t), s),
    decreases t.len(),
{
    if t.len() > 0 {
        let p = t.drop_last();
        assert(tally_keys(p) =~= tally_keys(t).drop_last());
        assert forall|i: int| 0 <= i < p.len() implies (#[trigger] p[i]).1 as nat == occurrences(
            s,
            p[i].0@,
        ) by {
            assert(p[i] == t[i]);
        }
        lemma_tally_total_is_sum(p, s);
        assert(t[t.len() - 1].1 as nat == occurrences(s, t[t.len() - 1].0@));
    }
}

/// A tally's counts add up to the length of what it counts.
pub proof fn lemma_tally_total(t: Seq<(String, usize)>, s: Seq<Seq<char>>)
    requires
        is_tally_of(t, s),
    ensures
        tally_total(t) == s.len(),
{
    let keys = tally_keys(t);
    assert forall|i: int, j: int| 0 <= i < j < keys.len() implies keys[i] != keys[j] by {
        lemma_text_order_facts(keys[i], keys[j], keys[j]);
    }
    lemma_tally_total_is_sum(t, s);
    lemma_occurrence_sum_total(keys, s);
}

proof fn lemma_occurrences_concat(a: Seq<Seq<char>>, b: Seq<Seq<char>>, k: Seq<char>)
    ensures
        occurrences(a + b, k) == occurrences(a, k) + occurrences(b, k),
    decreases b.len(),
{
    if b.len() == 0 {
        assert(a + b =~= a);
    } else {
        assert((a + b).drop_last() =~= a + b.drop_last());
        lemma_occurrences_concat(a, b.drop_last(), k);
    }
}

proof fn lemma_column_len(ms: Seq<(String, BuildVerificationReceiptView)>, k: Seq<char>, column: int)
    ensures
        column_for(ms, k, column).len() == occurrences(matched_ids(ms), k),
    decreases ms.len(),
{
    if ms.len() > 0 {
        lemma_column_len(ms.drop_last(), k, column);
        lemma_occurrences_concat(
            matched_ids(ms.drop_last()),
            views(ms.last().1.matched_approved_constraint_ids@),
            k,
        );
    }
}

/// Two strictly ascending lists of the same texts are the same list.
pub proof fn lemma_ascending_unique(a: Seq<Seq<char>>, b: Seq<Seq<char>>)
    requires
        strictly_ascending(a),
        strictly_ascending(b),
        forall|y: Seq<char>| a.contains(y) == b.contains(y),
    ensures
        a == b,
    decreases a.len(),
{
    if a.len() == 0 {
        if b.len() > 0 {
            assert(b.contains(b[0]));
        }
        assert(a =~= b);
    } else {
        assert(a.contains(a[0]));
        assert(b.len() > 0);
        assert(b.contains(b[0]));
        let wa = choose|w: int| 0 <= w < b.len() && b[w] == a[0];
        let wb = choose|w: int| 0 <= w < a.len() && a[w] == b[0];
        lemma_text_order_facts(a[0], b[0], b[0]);
        if wa > 0 {
            lemma_text_order_facts(b[0], a[0], a[wb]);
        }
        assert(a[0] == b[0]) by {
            if a[0] != b[0] {
                assert(wa > 0 && wb > 0);
                lemma_text_order_facts(b[0], b[wa], a[0]);
                lemma_text_order_facts(a[0], a[wb], b[0]);
            }
        }
        let a1 = a.drop_first();
        let b1 = b.drop_first();
        assert forall|y: Seq<char>| a1.contains(y) == b1.contains(y) by {
            if a1.contains(y) {
                let w = choose|w: int| 0 <= w < a1.len() && a1[w] == y;
                assert(a[w + 1] == y);
                lemma_text_order_facts(a[0], a[w + 1], a[w + 1]);
                assert(b.contains(y));
                let v = choose|v: int| 0 <= v < b.len() && b[v] == y;
                if v == 0 {
                    assert(false);
                }
                assert(b1[v - 1] == y);
            }
            if b1.contains(y) {
                let w = choose|w: int| 0 <= w < b1.len() && b1[w] == y;
                assert(b[w + 1] == y);
                lemma_text_order_facts(b[0], b[w + 1], b[w + 1]);
                assert(a.contains(y));
                let v = choose|v: int| 0 <= v < a.len() && a[v] == y;
                if v == 0 {
                    assert(false);
                }
                assert(a1[v - 1] == y);
            }
        }
        lemma_ascending_unique(a1, b1);
        assert(a =~= b) by {
            assert forall|i: int| 0 <= i < a.len() implies a[i] == b[i] by {
                if i > 0 {
                    assert(a1[i - 1] == b1[i - 1]);
                }
            }
        }
    }
}

/// The breakdowns and the counts of approved-constraint matches agree: the
/// same constraints in the same order, each with its count as its total,
/// and the failure-mode, family and tool tallies of each add up to that
/// total.
pub proof fn lemma_breakdowns_agree_with_counts(
    ms: Seq<(String, BuildVerificationReceiptView)>,
    b: Seq<(String, ApprovedConstraintMatchBreakdown)>,
    c: Seq<(String, usize)>,
)
    requires
        strictly_ascending(breakdown_keys(b)),
        forall|k: Seq<char>|
            occurrences(matched_ids(ms), k) > 0 ==> #[trigger] breakdown_keys(b).contains(k),
        forall|i: int|
            0 <= i < b.len() ==> is_breakdown_of((#[trigger] b[i]).1, ms, b[i].0@)
                && b[i].1.total_matches > 0,
        is_tally_of(c, matched_ids(ms)),
    ensures
        breakdown_keys(b) == tally_keys(c),
        forall|i: int| 0 <= i < b.len() ==> (#[trigger] b[i]).1.total_matches == c[i].1,
        forall|i: int|
            0 <= i < b.len() ==> tally_total((#[trigger] b[i]).1.by_failure_mode@)
                == b[i].1.total_matches && tally_total(b[i].1.by_family_id@) == b[i].1.total_matches
                && tally_total(b[i].1.by_tool_kind@) == b[i].1.total_matches,
{
    let bk = breakdown_keys(b);
    let ck = tally_keys(c);
    assert forall|y: Seq<char>| bk.contains(y) == ck.contains(y) by {
        if bk.contains(y) {
            let w = choose|w: int| 0 <= w < bk.len() && bk[w] == y;
            assert(is_breakdown_of(b[w].1, ms, b[w].0@));
        }
        if ck.contains(y) {
            let w = choose|w: int| 0 <= w < ck.len() && ck[w] == y;
            assert(c[w].1 > 0);
        }
    }
    lemma_ascending_unique(bk, ck);
    assert forall|i: int| 0 <= i < b.len() implies (#[trigger] b[i]).1.total_matches == c[i].1 by {
        assert(bk[i] == ck[i]);
        assert(is_breakdown_of(b[i].1, ms, b[i].0@));
    }
    assert forall|i: int|
        0 <= i < b.len() implies tally_total((#[trigger] b[i]).1.by_failure_mode@)
            == b[i].1.total_matches && tally_total(b[i].1.by_family_id@) == b[i].1.total_matches
            && tally_total(b[i].1.by_tool_kind@) == b[i].1.total_matches by {
        let k = b[i].0@;
        assert(is_breakdown_of(b[i].1, ms, k));
        lemma_tally_total(b[i].1.by_failure_mode@, column_for(ms, k, 0));
        lemma_tally_total(b[i].1.by_family_id@, column_for(ms, k, 1));
        lemma_tally_total(b[i].1.by_tool_kind@, column_for(ms, k, 2));
        lemma_column_len(ms, k, 0);
        lemma_column_len(ms, k, 1);
        lemma_column_len(ms, k, 2);
    }
}

} // verus!
