//! Counting texts: how often each distinct text occurs, listed in ascending
//! order of the text (what a `BTreeMap<String, usize>` of counts holds).
use vstd::prelude::*;

use crate::order::{compare_text, lemma_text_order_facts, text_order};
use crate::text::{owned, text_eq, views};
use crate::text_sort::strictly_ascending;

verus! {

/// How often `k` occurs in `s`.
pub open spec fn occurrences(s: Seq<Seq<char>>, k: Seq<char>) -> nat
    decreases s.len(),
{
    if s.len() == 0 {
        0
    } else {
        occurrences(s.drop_last(), k) + if s.last() == k {
            1nat
        } else {
            0nat
        }
    }
}

/// The texts counted by a tally, in its order.
pub open spec fn tally_keys(t: Seq<(String, usize)>) -> Seq<Seq<char>> {
    Seq::new(t.len(), |i: int| t[i].0@)
}

/// `t` counts `s`: its texts ascend strictly, each is counted as often as it
/// occurs in `s` (at least once), and every text of `s` is among them.
pub open spec fn is_tally_of(t: Seq<(String, usize)>, s: Seq<Seq<char>>) -> bool {
    &&& strictly_ascending(tally_keys(t))
    &&& forall|i: int|
        0 <= i < t.len() ==> (#[trigger] t[i]).1 as nat == occurrences(s, t[i].0@) && t[i].1 > 0
    &&& forall|k: Seq<char>| occurrences(s, k) > 0 ==> #[trigger] tally_keys(t).contains(k)
}

/// A text occurs at most as often as the list is long.
pub proof fn lemma_occurrences_bound(s: Seq<Seq<char>>, k: Seq<char>)
    ensures
        occurrences(s, k) <= s.len(),
    decreases s.len(),
{
    if s.len() > 0 {
        lemma_occurrences_bound(s.drop_last(), k);
    }
}

proof fn lemma_occurrences_push(s: Seq<Seq<char>>, x: Seq<char>)
    ensures
        forall|k: Seq<char>| #[trigger]
            occurrences(s.push(x), k) == occurrences(s, k) + if x == k {
                1nat
            } else {
                0nat
            },
{
    assert forall|k: Seq<char>| #[trigger]
        occurrences(s.push(x), k) == occurrences(s, k) + if x == k {
            1nat
        } else {
            0nat
        } by {
        assert(s.push(x).drop_last() =~= s);
    }
}

/// Counts one more occurrence of `x`.
fn tally_add(t: &mut Vec<(String, usize)>, x: &str, Ghost(p): Ghost<Seq<Seq<char>>>)
    requires
        is_tally_of(old(t)@, p),
        p.len() < usize::MAX,
    ensures
        is_tally_of(final(t)@, p.push(x@)),
{
    proof {
        lemma_occurrences_push(p, x@);
    }
    let ghost keys = tally_keys(t@);
    let mut j: usize = 0;
    while j < t.len() && compare_text(x, t[j].0.as_str()) > 0
        invariant
            j <= t.len(),
            keys == tally_keys(t@),
            forall|k: int| 0 <= k < j ==> text_order(x@, #[trigger] keys[k]) > 0,
        decreases t.len() - j,
    {
        j = j + 1;
    }
    if j < t.len() && text_eq(t[j].0.as_str(), x) {
        let ghost before = t@;
        proof {
            lemma_occurrences_bound(p, x@);
            assert(before[j as int].1 as nat == occurrences(p, before[j as int].0@));
        }
        let key = t[j].0.clone();
        let c = t[j].1 + 1;
        t.set(j, (key, c));
        proof {
            assert(tally_keys(t@) =~= keys);
            assert forall|i: int| 0 <= i < t@.len() implies (#[trigger] t@[i]).1 as nat
                == occurrences(p.push(x@), t@[i].0@) && t@[i].1 > 0 by {
                if i != j {
                    assert(t@[i] == before[i]);
                    if i < j {
                        assert(text_order(keys[i], keys[j as int]) < 0);
                    } else {
                        assert(text_order(keys[j as int], keys[i]) < 0);
                    }
                    lemma_text_order_facts(keys[i], keys[j as int], keys[i]);
                    assert(keys[i] != x@);
                }
            }
            assert forall|k: Seq<char>| occurrences(p.push(x@), k) > 0 implies #[trigger] tally_keys(
                t@,
            ).contains(k) by {
                if k == x@ {
                    assert(tally_keys(t@)[j as int] == x@);
                } else {
                    assert(tally_keys(before).contains(k));
                }
            }
        }
    } else {
        let ghost before = t@;
        proof {
            if j < t@.len() {
                lemma_text_order_facts(x@, keys[j as int], x@);
                assert(text_order(x@, keys[j as int]) < 0);
            }
            assert forall|i: int| 0 <= i < keys.len() implies #[trigger] keys[i] != x@ by {
                if i < j {
                    lemma_text_order_facts(x@, keys[i], x@);
                } else {
                    if i > j {
                        assert(text_order(keys[j as int], keys[i]) < 0);
                    }
                    lemma_text_order_facts(x@, keys[j as int], keys[i]);
                }
            }
            if occurrences(p, x@) > 0 {
                assert(keys.contains(x@));
                let m = choose|m: int| 0 <= m < keys.len() && keys[m] == x@;
                assert(keys[m] != x@);
            }
        }
        t.insert(j, (owned(x), 1));
        proof {
            let nk = tally_keys(t@);
            assert(nk =~= keys.insert(j as int, x@));
            assert forall|a: int, b: int| 0 <= a < b < nk.len() implies text_order(
                #[trigger] nk[a],
                #[trigger] nk[b],
            ) < 0 by {
                if a < j && b < j {
                    assert(nk[a] == keys[a] && nk[b] == keys[b]);
                } else if a < j && b == j {
                    lemma_text_order_facts(x@, keys[a], x@);
                } else if a < j && b > j {
                    assert(nk[a] == keys[a] && nk[b] == keys[b - 1]);
                } else if a == j {
                    assert(nk[b] == keys[b - 1]);
                    if b - 1 > j {
                        assert(text_order(keys[j as int], keys[b - 1]) < 0);
                    }
                    lemma_text_order_facts(x@, keys[j as int], keys[b - 1]);
                } else {
                    assert(nk[a] == keys[a - 1] && nk[b] == keys[b - 1]);
                }
            }
            assert forall|i: int| 0 <= i < t@.len() implies (#[trigger] t@[i]).1 as nat
                == occurrences(p.push(x@), t@[i].0@) && t@[i].1 > 0 by {
                if i < j {
                    assert(t@[i] == before[i]);
                } else if i > j {
                    assert(t@[i] == before[i - 1]);
                }
            }
            assert forall|k: Seq<char>| occurrences(p.push(x@), k) > 0 implies #[trigger] nk.contains(
                k,
            ) by {
                if k == x@ {
                    assert(nk[j as int] == x@);
                } else {
                    assert(keys.contains(k));
                    let m = choose|m: int| 0 <= m < keys.len() && keys[m] == k;
                    if m < j {
                        assert(nk[m] == k);
                    } else {
                        assert(nk[m + 1] == k);
                    }
                }
            }
        }
    }
}

/// How often each distinct text occurs, in ascending order of the text.
pub fn tally_texts(items: &Vec<String>) -> (r: Vec<(String, usize)>)
    ensures
        is_tally_of(r@, views(items@)),
{
    let ghost s = views(items@);
    let mut t: Vec<(String, usize)> = Vec::new();
    let mut i: usize = 0;
    assert(s.subrange(0, 0) =~= Seq::<Seq<char>>::empty());
    assert(tally_keys(t@) =~= Seq::<Seq<char>>::empty());
    while i < items.len()
        invariant
            i <= items.len(),
            s == views(items@),
            is_tally_of(t@, s.subrange(0, i as int)),
        decreases items.len() - i,
    {
        let ghost pre = s.subrange(0, i as int);
        assert(s.subrange(0, i + 1) =~= pre.push(items@[i as int]@));
        tally_add(&mut t, items[i].as_str(), Ghost(pre));
        i = i + 1;
    }
    assert(s.subrange(0, items.len() as int) =~= s);
    t
}

} // verus!
