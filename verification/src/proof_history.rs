//! The paired-proof results: which receipts the template filter keeps, the
//! favorites among them, the eight recent ones, the thirty of the history,
//! and the line shown when none matches.
use vstd::prelude::*;

use crate::proofs::{
    history_filter_label, proof_history_filter_label, proof_receipt_matches_filter,
    CrossFamilyPairedProofReceiptSummary, PrimitiveProofTemplate,
};
use crate::text::{owned, push_str, text_eq, views};
use crate::xray::first_n;

verus! {

/// What the proof results show, by position in the receipt list.
pub struct ProofHistoryView {
    pub matching: Vec<usize>,
    pub favorites: Vec<usize>,
    pub recent: Vec<usize>,
    pub history: Vec<usize>,
    pub empty_message: Option<String>,
}

/// How many receipts the recent list and the history show at most.
pub const RECENT_PROOFS_LIMIT: usize = 8;

pub const PROOF_HISTORY_LIMIT: usize = 30;

/// A receipt passes the template filter: all templates, or its own template.
pub open spec fn receipt_passes(r: CrossFamilyPairedProofReceiptSummary, filter: Seq<char>) -> bool {
    filter == "all"@ || match r.proof_template_id {
        Some(t) => t@ == filter,
        None => false,
    }
}

/// The positions among the first `n` receipts that satisfy `keep`, in order.
pub open spec fn positions_where(
    rs: Seq<CrossFamilyPairedProofReceiptSummary>,
    keep: spec_fn(CrossFamilyPairedProofReceiptSummary) -> bool,
    n: nat,
) -> Seq<usize>
    decreases n,
{
    if n == 0 {
        Seq::empty()
    } else {
        let before = positions_where(rs, keep, (n - 1) as nat);
        if keep(rs[n - 1]) {
            before.push((n - 1) as usize)
        } else {
            before
        }
    }
}

pub open spec fn matching_filter(filter: Seq<char>) -> spec_fn(CrossFamilyPairedProofReceiptSummary) -> bool {
    |r: CrossFamilyPairedProofReceiptSummary| receipt_passes(r, filter)
}

pub open spec fn favorite_matching(filter: Seq<char>, favorites: Seq<Seq<char>>) -> spec_fn(
    CrossFamilyPairedProofReceiptSummary,
) -> bool {
    |r: CrossFamilyPairedProofReceiptSummary| receipt_passes(r, filter) && favorites.contains(r.receipt_id@)
}

fn is_favorite(favorites: &Vec<String>, id: &str) -> (b: bool)
    ensures
        b == views(favorites@).contains(id@),
{
    let mut i: usize = 0;
    while i < favorites.len()
        invariant
            i <= favorites.len(),
            forall|k: int| 0 <= k < i ==> views(favorites@)[k] != id@,
        decreases favorites.len() - i,
    {
        if text_eq(favorites[i].as_str(), id) {
            assert(views(favorites@)[i as int] == id@);
            return true;
        }
        i = i + 1;
    }
    proof {
        if views(favorites@).contains(id@) {
            let w = choose|w: int| 0 <= w < views(favorites@).len() && views(favorites@)[w] == id@;
        }
    }
    false
}

fn first_of(v: &Vec<usize>, n: usize) -> (r: Vec<usize>)
    ensures
        r@ == first_n(v@, n as nat),
{
    let mut r: Vec<usize> = Vec::new();
    let mut i: usize = 0;
    while i < v.len() && i < n
        invariant
            i <= v.len(),
            i <= n,
            r@ == v@.subrange(0, i as int),
        decreases v.len() - i,
    {
        r.push(v[i]);
        i = i + 1;
        assert(r@ =~= v@.subrange(0, i as int));
    }
    assert(v@.len() <= n ==> v@.subrange(0, v@.len() as int) =~= v@);
    r
}

/// The proof results for a template filter and the pinned favorites.
pub fn proof_history_view(
    receipts: &Vec<CrossFamilyPairedProofReceiptSummary>,
    filter: &str,
    favorites: &Vec<String>,
    templates: &Vec<PrimitiveProofTemplate>,
) -> (r: ProofHistoryView)
    ensures
        r.matching@ == positions_where(receipts@, matching_filter(filter@), receipts@.len()),
        r.favorites@ == positions_where(
            receipts@,
            favorite_matching(filter@, views(favorites@)),
            receipts@.len(),
        ),
        r.recent@ == first_n(r.matching@, RECENT_PROOFS_LIMIT as nat),
        r.history@ == first_n(r.matching@, PROOF_HISTORY_LIMIT as nat),
        match r.empty_message {
            Some(m) => r.matching@.len() == 0 && m@ == "No proof receipts match the "@
                + history_filter_label(filter@, templates@) + " filter."@,
            None => r.matching@.len() > 0,
        },
{
    proof {
        reveal_strlit("all");
    }
    let ghost keep = matching_filter(filter@);
    let ghost fav = favorite_matching(filter@, views(favorites@));
    let mut matching: Vec<usize> = Vec::new();
    let mut favs: Vec<usize> = Vec::new();
    let mut i: usize = 0;
    while i < receipts.len()
        invariant
            i <= receipts.len(),
            keep == matching_filter(filter@),
            fav == favorite_matching(filter@, views(favorites@)),
            matching@ == positions_where(receipts@, keep, i as nat),
            favs@ == positions_where(receipts@, fav, i as nat),
        decreases receipts.len() - i,
    {
        let r = &receipts[i];
        if proof_receipt_matches_filter(r, filter) {
            matching.push(i);
            if is_favorite(favorites, r.receipt_id.as_str()) {
                favs.push(i);
            }
        }
        i = i + 1;
    }
    let recent = first_of(&matching, RECENT_PROOFS_LIMIT);
    let history = first_of(&matching, PROOF_HISTORY_LIMIT);
    let empty_message = if matching.len() == 0 {
        let mut m = owned("No proof receipts match the ");
        let label = proof_history_filter_label(filter, templates);
        push_str(&mut m, label.as_str());
        push_str(&mut m, " filter.");
        Some(m)
    } else {
        None
    };
    ProofHistoryView { matching, favorites: favs, recent, history, empty_message }
}

} // verus!
