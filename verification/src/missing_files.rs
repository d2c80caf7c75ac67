//! The failure of an `exists` acceptance check is classified as missing
//! files, unless the check's identity or target names something that an
//! earlier classification rule looks for.
use vstd::prelude::*;

use crate::acceptance::exists_result;
use crate::failure::{failure_class_of, lemma_lowercase_concat, FailureClass};
use crate::text::{has_sub, lowercase, occurs_at};

verus! {

/// The text mentions none of the words the classifier's earlier rules look
/// for (schema and metadata, helper checks, ChattyCog and ChattyEdu
/// contracts, policy).
pub open spec fn clear_of_earlier_rules(s: Seq<char>) -> bool {
    let l = lowercase(s);
    &&& !has_sub(l, "schema"@)
    &&& !has_sub(l, "metadata"@)
    &&& !has_sub(l, "helper"@)
    &&& !has_sub(l, "chattycog"@)
    &&& !has_sub(l, "chattyedu"@)
    &&& !has_sub(l, "policy"@)
    &&& !has_sub(l, "outside output root"@)
    &&& !has_sub(l, "safe relative path"@)
}

/// An occurrence inside a piece of text.
proof fn lemma_sub_within(l: Seq<char>, k: Seq<char>, r: Seq<char>)
    requires
        has_sub(l, k),
        has_sub(k, r),
    ensures
        has_sub(l, r),
{
    let i = choose|i: int| occurs_at(l, k, i);
    let j = choose|j: int| occurs_at(k, r, j);
    assert(l.subrange(i + j, i + j + r.len()) =~= k.subrange(j, j + r.len()));
    assert(occurs_at(l, r, i + j));
}

/// With no occurrence in either part and none across the seam, there is none.
proof fn lemma_no_sub_joined(x: Seq<char>, y: Seq<char>, k: Seq<char>)
    requires
        !has_sub(x, k),
        !has_sub(y, k),
        forall|i: int| 0 <= i < x.len() < i + k.len() ==> !#[trigger] occurs_at(x + y, k, i),
    ensures
        !has_sub(x + y, k),
{
    if has_sub(x + y, k) {
        let i = choose|i: int| occurs_at(x + y, k, i);
        if i + k.len() <= x.len() {
            assert((x + y).subrange(i, i + k.len()) =~= x.subrange(i, i + k.len()));
            assert(occurs_at(x, k, i));
        } else if i >= x.len() {
            assert((x + y).subrange(i, i + k.len()) =~= y.subrange(i - x.len(), i - x.len() + k.len()));
            assert(occurs_at(y, k, i - x.len()));
        }
    }
}

/// A seam at a character that `k` does not hold: on the left's end or the right's start.
proof fn lemma_no_cross_at(x: Seq<char>, y: Seq<char>, k: Seq<char>, c: char)
    requires
        (x.len() > 0 && x.last() == c) || (y.len() > 0 && y[0] == c),
        forall|t: int| 0 <= t < k.len() ==> k[t] != c,
    ensures
        forall|i: int| 0 <= i < x.len() < i + k.len() ==> !#[trigger] occurs_at(x + y, k, i),
{
    assert forall|i: int| 0 <= i < x.len() < i + k.len() implies !#[trigger] occurs_at(x + y, k, i) by {
        if occurs_at(x + y, k, i) {
            if x.len() > 0 && x.last() == c {
                assert((x + y).subrange(i, i + k.len())[x.len() - 1 - i] == k[x.len() - 1 - i]);
            } else {
                assert((x + y).subrange(i, i + k.len())[x.len() - i] == k[x.len() - i]);
            }
        }
    }
}

/// The message's pieces between the identity and the target.
pub open spec fn head() -> Seq<char> {
    "acceptance check '"@
}

pub open spec fn middle() -> Seq<char> {
    "' failed: missing "@
}

/// `r` holds neither a quote nor the pieces around it, and no proper suffix
/// of the middle piece starts it.
proof fn lemma_root_absent(li: Seq<char>, lt: Seq<char>, r: Seq<char>)
    requires
        !has_sub(li, r),
        !has_sub(lt, r),
        !has_sub(head(), r),
        !has_sub(middle(), r),
        r.len() > 0,
        forall|t: int| 0 <= t < r.len() ==> r[t] != '\'',
        forall|j: int|
            1 <= j < middle().len() && middle().len() - j <= r.len() ==> middle().subrange(
                j,
                middle().len() as int,
            ) != #[trigger] r.subrange(0, middle().len() - j),
    ensures
        !has_sub(head() + li + middle() + lt, r),
{
    reveal_strlit("acceptance check '");
    reveal_strlit("' failed: missing ");
    let x = head() + li;
    lemma_no_cross_at(head(), li, r, '\'');
    lemma_no_sub_joined(head(), li, r);
    let y = x + middle();
    lemma_no_cross_at(x, middle(), r, '\'');
    lemma_no_sub_joined(x, middle(), r);
    let q = middle();
    assert forall|i: int| 0 <= i < y.len() < i + r.len() implies !#[trigger] occurs_at(y + lt, r, i) by {
        if occurs_at(y + lt, r, i) {
            let w = (y + lt).subrange(i, i + r.len());
            if i <= x.len() {
                assert(w[x.len() - i] == (y + lt)[x.len() as int]);
                assert((y + lt)[x.len() as int] == q[0]);
            } else {
                let j = i - x.len();
                assert(q.subrange(j, q.len() as int) =~= r.subrange(0, q.len() - j)) by {
                    assert forall|t: int| 0 <= t < q.len() - j implies q.subrange(j, q.len() as int)[t]
                        == r.subrange(0, q.len() - j)[t] by {
                        assert(w[t] == (y + lt)[i + t]);
                        assert((y + lt)[i + t] == q[j + t]);
                    }
                }
            }
        }
    }
    lemma_no_sub_joined(y, lt, r);
}

/// The failure message of an `exists` check whose target is missing is
/// classified as missing expected files, unless the check's identity or its
/// target mentions something an earlier classification rule looks for.
pub proof fn lemma_missing_target_classifies_as_missing_files(check_id: Seq<char>, target: Seq<char>)
    requires
        clear_of_earlier_rules(check_id),
        clear_of_earlier_rules(target),
    ensures
        match exists_result(check_id, target, false) {
            Err(m) => failure_class_of(lowercase(m)) == FailureClass::MissingExpectedFiles,
            Ok(_) => false,
        },
{
    reveal_strlit("acceptance check '");
    reveal_strlit("' failed: missing ");
    reveal_strlit("schema");
    reveal_strlit("metadata");
    reveal_strlit("helper");
    reveal_strlit("chattycog");
    reveal_strlit("chattyedu");
    reveal_strlit("policy");
    reveal_strlit("outside output root");
    reveal_strlit("safe relative path");
    reveal_strlit("helper summary surface contract failed");
    reveal_strlit("helper processed");
    reveal_strlit("helper service spec");
    reveal_strlit("helper status snapshot");
    reveal_strlit("helper summary snapshot");
    reveal_strlit("chattycog module contract failed");
    reveal_strlit("chattycog visual load contract failed");
    reveal_strlit("chattycog bridge contract failed");
    reveal_strlit("chattyedu module contract failed");
    reveal_strlit("chattyedu visual load contract failed");
    reveal_strlit("acceptance check");
    reveal_strlit("missing");
    let m = head() + check_id + middle() + target;
    assert("acceptance check '"@ + check_id + "' failed: missing "@ + target == m);
    let li = lowercase(check_id);
    let lt = lowercase(target);
    lemma_lowercase_concat(head(), check_id);
    lemma_lowercase_concat(head() + check_id, middle());
    lemma_lowercase_concat(head() + check_id + middle(), target);
    assert(lowercase(head()) =~= head());
    assert(lowercase(middle()) =~= middle());
    let l = head() + li + middle() + lt;
    assert(lowercase(m) == l);
    let q = middle();
    let p = head();
    // Each root word is absent.
    let roots = seq![
        "schema"@,
        "metadata"@,
        "helper"@,
        "chattycog"@,
        "chattyedu"@,
        "policy"@,
        "outside output root"@,
        "safe relative path"@,
    ];
    assert forall|n: int| 0 <= n < roots.len() implies !has_sub(l, #[trigger] roots[n]) by {
        let r = roots[n];
        assert(forall|t: int| 0 <= t < r.len() ==> r[t] != '\'');
        assert(!has_sub(p, r)) by {
            if has_sub(p, r) {
                let i = choose|i: int| occurs_at(p, r, i);
                assert(p.subrange(i, i + r.len())[0] == p[i]);
                assert(p.subrange(i, i + r.len())[1] == p[i + 1]);
                assert(p.subrange(i, i + r.len())[2] == p[i + 2]);
            }
        }
        assert(!has_sub(q, r)) by {
            if has_sub(q, r) {
                let i = choose|i: int| occurs_at(q, r, i);
                assert(q.subrange(i, i + r.len())[0] == q[i]);
                assert(q.subrange(i, i + r.len())[1] == q[i + 1]);
                assert(q.subrange(i, i + r.len())[2] == q[i + 2]);
            }
        }
        assert forall|j: int|
            1 <= j < q.len() && q.len() - j <= r.len() implies q.subrange(j, q.len() as int)
            != #[trigger] r.subrange(0, q.len() - j) by {
            assert(q.subrange(j, q.len() as int)[0] == q[j]);
            assert(r.subrange(0, q.len() - j)[0] == r[0]);
            if q.len() - j >= 2 {
                assert(q.subrange(j, q.len() as int)[1] == q[j + 1]);
                assert(r.subrange(0, q.len() - j)[1] == r[1]);
            }
        }
        lemma_root_absent(li, lt, r);
    }
    assert(!has_sub(l, "schema"@)) by { assert(roots[0] == "schema"@); }
    assert(!has_sub(l, "metadata"@)) by { assert(roots[1] == "metadata"@); }
    assert(!has_sub(l, "policy"@)) by { assert(roots[5] == "policy"@); }
    assert(!has_sub(l, "outside output root"@)) by { assert(roots[6] == "outside output root"@); }
    assert(!has_sub(l, "safe relative path"@)) by { assert(roots[7] == "safe relative path"@); }
    let helper_keys = seq![
        "helper summary surface contract failed"@,
        "helper processed"@,
        "helper service spec"@,
        "helper status snapshot"@,
        "helper summary snapshot"@,
    ];
    assert forall|n: int| 0 <= n < helper_keys.len() implies !has_sub(l, #[trigger] helper_keys[n]) by {
        let k = helper_keys[n];
        assert(k.subrange(0, 6) =~= "helper"@);
        assert(occurs_at(k, "helper"@, 0));
        assert(!has_sub(l, roots[2]));
        if has_sub(l, k) {
            lemma_sub_within(l, k, "helper"@);
        }
    }
    let cog_keys = seq![
        "chattycog module contract failed"@,
        "chattycog visual load contract failed"@,
        "chattycog bridge contract failed"@,
    ];
    assert forall|n: int| 0 <= n < cog_keys.len() implies !has_sub(l, #[trigger] cog_keys[n]) by {
        let k = cog_keys[n];
        assert(k.subrange(0, 9) =~= "chattycog"@);
        assert(occurs_at(k, "chattycog"@, 0));
        assert(!has_sub(l, roots[3]));
        if has_sub(l, k) {
            lemma_sub_within(l, k, "chattycog"@);
        }
    }
    let edu_keys = seq!["chattyedu module contract failed"@, "chattyedu visual load contract failed"@];
    assert forall|n: int| 0 <= n < edu_keys.len() implies !has_sub(l, #[trigger] edu_keys[n]) by {
        let k = edu_keys[n];
        assert(k.subrange(0, 9) =~= "chattyedu"@);
        assert(occurs_at(k, "chattyedu"@, 0));
        assert(!has_sub(l, roots[4]));
        if has_sub(l, k) {
            lemma_sub_within(l, k, "chattyedu"@);
        }
    }
    assert(!has_sub(l, helper_keys[0]) && !has_sub(l, helper_keys[1]) && !has_sub(l, helper_keys[2])
        && !has_sub(l, helper_keys[3]) && !has_sub(l, helper_keys[4]));
    assert(!has_sub(l, cog_keys[0]) && !has_sub(l, cog_keys[1]) && !has_sub(l, cog_keys[2]));
    assert(!has_sub(l, edu_keys[0]) && !has_sub(l, edu_keys[1]));
    // The missing-file rule's own words are there.
    assert(l.subrange(0, 16) =~= "acceptance check"@);
    assert(occurs_at(l, "acceptance check"@, 0));
    let at: int = (p.len() + li.len() + 10) as int;
    assert(l.subrange(at, at + 7) =~= "missing"@);
    assert(occurs_at(l, "missing"@, at));
}

} // verus!
