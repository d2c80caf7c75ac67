//! Sorting lists of text in `String`'s order, with or without repeats.
use vstd::prelude::*;

use crate::order::{compare_text, lemma_text_order_facts, text_order};
use crate::proofs::{list_includes, lists};
use crate::text::views;

verus! {

/// `x` placed before the first element that is not smaller than it.
pub open spec fn insert_in_order(s: Seq<Seq<char>>, x: Seq<char>) -> Seq<Seq<char>>
    decreases s.len(),
{
    if s.len() == 0 {
        seq![x]
    } else if text_order(x, s[0]) <= 0 {
        seq![x] + s
    } else {
        seq![s[0]] + insert_in_order(s.drop_first(), x)
    }
}

/// The texts in ascending order, repeats kept.
pub open spec fn sorted_texts(s: Seq<Seq<char>>) -> Seq<Seq<char>>
    decreases s.len(),
{
    if s.len() == 0 {
        Seq::empty()
    } else {
        insert_in_order(sorted_texts(s.drop_last()), s.last())
    }
}

/// The distinct texts in ascending order.
pub open spec fn sorted_distinct(s: Seq<Seq<char>>) -> Seq<Seq<char>>
    decreases s.len(),
{
    if s.len() == 0 {
        Seq::empty()
    } else {
        let t = sorted_distinct(s.drop_last());
        if t.contains(s.last()) {
            t
        } else {
            insert_in_order(t, s.last())
        }
    }
}

/// Ascending, ties allowed.
pub open spec fn ascending(s: Seq<Seq<char>>) -> bool {
    forall|i: int, j: int| 0 <= i < j < s.len() ==> text_order(#[trigger] s[i], #[trigger] s[j]) <= 0
}

/// Strictly ascending: no text twice.
pub open spec fn strictly_ascending(s: Seq<Seq<char>>) -> bool {
    forall|i: int, j: int| 0 <= i < j < s.len() ==> text_order(#[trigger] s[i], #[trigger] s[j]) < 0
}

/// Inserting keeps every element, adds `x`, and keeps the order.
pub proof fn lemma_insert_in_order(s: Seq<Seq<char>>, x: Seq<char>)
    ensures
        insert_in_order(s, x).len() == s.len() + 1,
        forall|y: Seq<char>| #[trigger]
            insert_in_order(s, x).contains(y) == (s.contains(y) || y == x),
        ascending(s) ==> ascending(insert_in_order(s, x)),
        strictly_ascending(s) && !s.contains(x) ==> strictly_ascending(insert_in_order(s, x)),
    decreases s.len(),
{
    let r = insert_in_order(s, x);
    if s.len() == 0 {
        assert forall|y: Seq<char>| #[trigger] r.contains(y) == (s.contains(y) || y == x) by {
            if r.contains(y) {
                let k = choose|k: int| 0 <= k < r.len() && r[k] == y;
                assert(k == 0);
            }
            if y == x {
                assert(r[0] == x);
            }
        }
    } else if text_order(x, s[0]) <= 0 {
        assert(r == seq![x] + s);
        assert forall|y: Seq<char>| #[trigger] r.contains(y) == (s.contains(y) || y == x) by {
            if r.contains(y) {
                let k = choose|k: int| 0 <= k < r.len() && r[k] == y;
                if k > 0 {
                    assert(s[k - 1] == y);
                }
            }
            if s.contains(y) {
                let k = choose|k: int| 0 <= k < s.len() && s[k] == y;
                assert(r[k + 1] == y);
            }
            if y == x {
                assert(r[0] == x);
            }
        }
        if ascending(s) {
            assert forall|i: int, j: int| 0 <= i < j < r.len() implies text_order(
                #[trigger] r[i],
                #[trigger] r[j],
            ) <= 0 by {
                if i == 0 {
                    lemma_text_order_facts(x, s[0], s[j - 1]);
                    if j - 1 > 0 {
                        assert(text_order(s[0], s[j - 1]) <= 0);
                    }
                } else {
                    assert(r[i] == s[i - 1] && r[j] == s[j - 1]);
                }
            }
        }
        if strictly_ascending(s) && !s.contains(x) {
            assert forall|i: int, j: int| 0 <= i < j < r.len() implies text_order(
                #[trigger] r[i],
                #[trigger] r[j],
            ) < 0 by {
                if i == 0 {
                    lemma_text_order_facts(x, s[0], s[j - 1]);
                    assert(s.contains(s[0]));
                    assert(s.contains(s[j - 1]));
                    if j - 1 > 0 {
                        assert(text_order(s[0], s[j - 1]) < 0);
                    }
                } else {
                    assert(r[i] == s[i - 1] && r[j] == s[j - 1]);
                }
            }
        }
    } else {
        let t = s.drop_first();
        let rt = insert_in_order(t, x);
        lemma_insert_in_order(t, x);
        assert(r == seq![s[0]] + rt);
        assert forall|y: Seq<char>| #[trigger] r.contains(y) == (s.contains(y) || y == x) by {
            if r.contains(y) {
                let k = choose|k: int| 0 <= k < r.len() && r[k] == y;
                if k > 0 {
                    assert(rt[k - 1] == y);
                    assert(rt.contains(y));
                    if t.contains(y) {
                        let m = choose|m: int| 0 <= m < t.len() && t[m] == y;
                        assert(s[m + 1] == y);
                    }
                } else {
                    assert(s[0] == y);
                }
            }
            if s.contains(y) {
                let k = choose|k: int| 0 <= k < s.len() && s[k] == y;
                if k == 0 {
                    assert(r[0] == y);
                } else {
                    assert(t[k - 1] == y);
                    assert(rt.contains(y));
                    let m = choose|m: int| 0 <= m < rt.len() && rt[m] == y;
                    assert(r[m + 1] == y);
                }
            }
            if y == x {
                assert(rt.contains(x));
                let m = choose|m: int| 0 <= m < rt.len() && rt[m] == x;
                assert(r[m + 1] == x);
            }
        }
        if ascending(s) {
            assert(ascending(t)) by {
                assert forall|i: int, j: int| 0 <= i < j < t.len() implies text_order(
                    #[trigger] t[i],
                    #[trigger] t[j],
                ) <= 0 by {
                    assert(t[i] == s[i + 1] && t[j] == s[j + 1]);
                }
            }
            assert forall|i: int, j: int| 0 <= i < j < r.len() implies text_order(
                #[trigger] r[i],
                #[trigger] r[j],
            ) <= 0 by {
                if i == 0 {
                    let y = rt[j - 1];
                    assert(rt.contains(y));
                    if y == x {
                        lemma_text_order_facts(x, s[0], x);
                    } else {
                        let m = choose|m: int| 0 <= m < t.len() && t[m] == y;
                        assert(s[m + 1] == y);
                    }
                } else {
                    assert(r[i] == rt[i - 1] && r[j] == rt[j - 1]);
                }
            }
        }
        if strictly_ascending(s) && !s.contains(x) {
            assert(!t.contains(x)) by {
                if t.contains(x) {
                    let m = choose|m: int| 0 <= m < t.len() && t[m] == x;
                    assert(s[m + 1] == x);
                }
            }
            assert(strictly_ascending(t)) by {
                assert forall|i: int, j: int| 0 <= i < j < t.len() implies text_order(
                    #[trigger] t[i],
                    #[trigger] t[j],
                ) < 0 by {
                    assert(t[i] == s[i + 1] && t[j] == s[j + 1]);
                }
            }
            assert forall|i: int, j: int| 0 <= i < j < r.len() implies text_order(
                #[trigger] r[i],
                #[trigger] r[j],
            ) < 0 by {
                if i == 0 {
                    let y = rt[j - 1];
                    assert(rt.contains(y));
                    if y == x {
                        lemma_text_order_facts(x, s[0], x);
                    } else {
                        let m = choose|m: int| 0 <= m < t.len() && t[m] == y;
                        assert(s[m + 1] == y);
                    }
                } else {
                    assert(r[i] == rt[i - 1] && r[j] == rt[j - 1]);
                }
            }
        }
    }
}

/// `insert_in_order` splits the list at the first element not smaller than `x`.
proof fn lemma_insert_at(s: Seq<Seq<char>>, x: Seq<char>, j: int)
    requires
        0 <= j <= s.len(),
        forall|k: int| 0 <= k < j ==> text_order(x, #[trigger] s[k]) > 0,
        j < s.len() ==> text_order(x, s[j]) <= 0,
    ensures
        insert_in_order(s, x) == s.insert(j, x),
    decreases s.len(),
{
    if s.len() == 0 {
        assert(s.insert(j, x) =~= seq![x]);
    } else if j == 0 {
        assert(s.insert(j, x) =~= seq![x] + s);
    } else {
        let t = s.drop_first();
        assert forall|k: int| 0 <= k < j - 1 implies text_order(x, #[trigger] t[k]) > 0 by {
            assert(t[k] == s[k + 1]);
        }
        if j - 1 < t.len() {
            assert(t[j - 1] == s[j]);
        }
        lemma_insert_at(t, x, j - 1);
        assert(s.insert(j, x) =~= seq![s[0]] + t.insert(j - 1, x));
    }
}

/// Inserts `x` before the first element of `out` that is not smaller than it.
pub fn insert_text(out: &mut Vec<String>, x: String)
    ensures
        views(final(out)@) == insert_in_order(views(old(out)@), x@),
{
    let ghost s = views(out@);
    let mut j: usize = 0;
    while j < out.len() && compare_text(x.as_str(), out[j].as_str()) > 0
        invariant
            j <= out.len(),
            s == views(out@),
            forall|k: int| 0 <= k < j ==> text_order(x@, #[trigger] s[k]) > 0,
        decreases out.len() - j,
    {
        j = j + 1;
    }
    proof {
        lemma_insert_at(s, x@, j as int);
    }
    let ghost before = out@;
    out.insert(j, x);
    assert(views(out@) =~= s.insert(j as int, x@));
}

/// The texts in ascending order, repeats kept.
pub fn sort_texts(items: Vec<String>) -> (r: Vec<String>)
    ensures
        views(r@) == sorted_texts(views(items@)),
{
    let ghost s = views(items@);
    let mut out: Vec<String> = Vec::new();
    let mut i: usize = 0;
    let n = items.len();
    assert(s.subrange(0, 0) =~= Seq::<Seq<char>>::empty());
    while i < n
        invariant
            n == s.len(),
            i <= n,
            views(items@) == s,
            views(out@) == sorted_texts(s.subrange(0, i as int)),
        decreases n - i,
    {
        let x = items[i].clone();
        assert(x@ == s[i as int]);
        insert_text(&mut out, x);
        assert(s.subrange(0, i + 1).drop_last() =~= s.subrange(0, i as int));
        i = i + 1;
    }
    assert(s.subrange(0, n as int) =~= s);
    out
}

/// The distinct texts in ascending order.
pub fn sort_distinct_texts(items: Vec<String>) -> (r: Vec<String>)
    ensures
        views(r@) == sorted_distinct(views(items@)),
{
    let ghost s = views(items@);
    let mut out: Vec<String> = Vec::new();
    let mut i: usize = 0;
    let n = items.len();
    assert(s.subrange(0, 0) =~= Seq::<Seq<char>>::empty());
    while i < n
        invariant
            n == s.len(),
            i <= n,
            views(items@) == s,
            views(out@) == sorted_distinct(s.subrange(0, i as int)),
        decreases n - i,
    {
        let x = items[i].clone();
        assert(x@ == s[i as int]);
        assert(s.subrange(0, i + 1).drop_last() =~= s.subrange(0, i as int));
        let present = list_includes(&out, x.as_str());
        proof {
            let t = views(out@);
            if present {
                let k = choose|k: int| 0 <= k < out@.len() && (#[trigger] out@[k])@ == x@;
                assert(t[k] == x@);
            } else {
                assert forall|k: int| 0 <= k < t.len() implies t[k] != x@ by {
                    assert(t[k] == out@[k]@);
                }
            }
            assert(present == t.contains(x@));
        }
        if !present {
            insert_text(&mut out, x);
        }
        i = i + 1;
    }
    assert(s.subrange(0, n as int) =~= s);
    out
}

/// The sorted list holds the same texts as the input, as many of them, in
/// ascending order.
pub proof fn lemma_sorted_texts(s: Seq<Seq<char>>)
    ensures
        sorted_texts(s).len() == s.len(),
        ascending(sorted_texts(s)),
        forall|y: Seq<char>| #[trigger] sorted_texts(s).contains(y) == s.contains(y),
    decreases s.len(),
{
    if s.len() > 0 {
        let p = s.drop_last();
        lemma_sorted_texts(p);
        lemma_insert_in_order(sorted_texts(p), s.last());
        assert forall|y: Seq<char>| #[trigger] sorted_texts(s).contains(y) == s.contains(y) by {
            assert(sorted_texts(s).contains(y) == (sorted_texts(p).contains(y) || y == s.last()));
            if s.contains(y) && y != s.last() {
                let k = choose|k: int| 0 <= k < s.len() && s[k] == y;
                assert(p[k] == y);
            }
            if p.contains(y) {
                let k = choose|k: int| 0 <= k < p.len() && p[k] == y;
                assert(s[k] == y);
            }
            if y == s.last() {
                assert(s[s.len() - 1] == y);
            }
        }
    } else {
        assert(sorted_texts(s) =~= Seq::<Seq<char>>::empty());
    }
}

/// The distinct list holds exactly the texts of the input, each once, in
/// strictly ascending order.
pub proof fn lemma_sorted_distinct(s: Seq<Seq<char>>)
    ensures
        strictly_ascending(sorted_distinct(s)),
        forall|y: Seq<char>| #[trigger] sorted_distinct(s).contains(y) == s.contains(y),
    decreases s.len(),
{
    if s.len() > 0 {
        let p = s.drop_last();
        lemma_sorted_distinct(p);
        let t = sorted_distinct(p);
        lemma_insert_in_order(t, s.last());
        assert forall|y: Seq<char>| #[trigger] sorted_distinct(s).contains(y) == s.contains(y) by {
            if s.contains(y) && y != s.last() {
                let k = choose|k: int| 0 <= k < s.len() && s[k] == y;
                assert(p[k] == y);
            }
            if p.contains(y) {
                let k = choose|k: int| 0 <= k < p.len() && p[k] == y;
                assert(s[k] == y);
            }
            if y == s.last() {
                assert(s[s.len() - 1] == y);
            }
        }
    } else {
        assert(sorted_distinct(s) =~= Seq::<Seq<char>>::empty());
    }
}

} // verus!
