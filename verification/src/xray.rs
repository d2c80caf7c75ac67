//! Patch x-rays: what became of a diagnosed patch request (applied, blocked
//! on anchors, or skipped as a duplicate) and why.
use vstd::prelude::*;

use crate::patchability::{tone, Tone};
use crate::proofs::list_includes;
use crate::text::{join_strings, joined, owned, push_str, text_eq, views};

verus! {

/// What an x-ray reads of a patch diagnosis.
pub struct PatchDiagnosisFacts {
    pub project_name: String,
    pub request_id: String,
    pub present_conflicting_anchor_markers: Vec<String>,
}

/// What an x-ray reads of a patch intent freeze: the anchors the patch
/// needs and those it confirmed.
pub struct AnchorFreeze {
    pub required_anchor_markers: Vec<String>,
    pub confirmed_anchor_markers: Vec<String>,
}

/// A diagnosed patch request with the receipts found beside it.
pub struct ProjectPatchXrayView {
    pub diagnosis_path: String,
    pub diagnosis: PatchDiagnosisFacts,
    pub freeze_path: Option<String>,
    pub freeze: Option<AnchorFreeze>,
    pub postcheck_path: Option<String>,
}

/// The freeze needs anchors and confirmed fewer than it needs.
pub open spec fn anchors_unconfirmed(f: AnchorFreeze) -> bool {
    f.required_anchor_markers@.len() > 0 && f.confirmed_anchor_markers@.len()
        < f.required_anchor_markers@.len()
}

/// The freeze exists and its anchors are unconfirmed.
pub open spec fn freeze_blocks(x: ProjectPatchXrayView) -> bool {
    match x.freeze {
        Some(f) => anchors_unconfirmed(f),
        None => false,
    }
}

/// The outcome of a patch request: applied when a postcheck exists, blocked
/// on anchors when conflicting anchors are present or required anchors went
/// unconfirmed, and otherwise skipped as a duplicate.
pub open spec fn xray_outcome(x: ProjectPatchXrayView) -> Seq<char> {
    if x.postcheck_path is Some {
        "applied"@
    } else if x.diagnosis.present_conflicting_anchor_markers@.len() > 0 {
        "anchor-blocked"@
    } else if freeze_blocks(x) {
        "anchor-blocked"@
    } else {
        "duplicate-skip"@
    }
}

fn freeze_blocks_exec(x: &ProjectPatchXrayView) -> (r: bool)
    ensures
        r == freeze_blocks(*x),
{
    match &x.freeze {
        Some(f) => f.required_anchor_markers.len() > 0 && f.confirmed_anchor_markers.len()
            < f.required_anchor_markers.len(),
        None => false,
    }
}

/// The outcome of a patch request.
pub fn project_patch_xray_outcome(xray: &ProjectPatchXrayView) -> (r: &'static str)
    ensures
        r@ == xray_outcome(*xray),
{
    if xray.postcheck_path.is_some() {
        return "applied";
    }
    if xray.diagnosis.present_conflicting_anchor_markers.len() > 0 {
        return "anchor-blocked";
    }
    if freeze_blocks_exec(xray) {
        return "anchor-blocked";
    }
    "duplicate-skip"
}

/// The label and colour of an outcome badge (`[label]` in the UI); an
/// unknown outcome shows itself in grey.
pub open spec fn outcome_badge(outcome: Seq<char>) -> (Seq<char>, Tone) {
    if outcome == "applied"@ {
        ("applied"@, Tone { r: 70, g: 140, b: 90 })
    } else if outcome == "anchor-blocked"@ {
        ("anchor-blocked"@, Tone { r: 160, g: 90, b: 70 })
    } else if outcome == "duplicate-skip"@ {
        ("duplicate-skip"@, Tone { r: 140, g: 120, b: 70 })
    } else {
        (outcome, Tone { r: 160, g: 160, b: 160 })
    }
}

/// The label and colour of an outcome badge.
pub fn project_patch_xray_outcome_badge(outcome: &str) -> (r: (String, Tone))
    ensures
        (r.0@, r.1) == outcome_badge(outcome@),
{
    if text_eq(outcome, "applied") {
        (owned("applied"), tone(70, 140, 90))
    } else if text_eq(outcome, "anchor-blocked") {
        (owned("anchor-blocked"), tone(160, 90, 70))
    } else if text_eq(outcome, "duplicate-skip") {
        (owned("duplicate-skip"), tone(140, 120, 70))
    } else {
        (owned(outcome), tone(160, 160, 160))
    }
}

/// At most the first `n` items.
pub open spec fn first_n<T>(s: Seq<T>, n: nat) -> Seq<T> {
    if s.len() > n {
        s.subrange(0, n as int)
    } else {
        s
    }
}

/// A marker the confirmed list does not hold.
pub open spec fn not_confirmed(confirmed: Seq<Seq<char>>) -> spec_fn(Seq<char>) -> bool {
    |m: Seq<char>| !confirmed.contains(m)
}

/// The required anchors that were not confirmed, in order.
pub open spec fn missing_anchors(f: AnchorFreeze) -> Seq<Seq<char>> {
    views(f.required_anchor_markers@).filter(not_confirmed(views(f.confirmed_anchor_markers@)))
}

/// Why a patch request ended as it did, naming at most two anchors.
pub open spec fn xray_reason(x: ProjectPatchXrayView) -> Seq<char> {
    if x.postcheck_path is Some {
        "postcheck passed and invariants held"@
    } else if x.diagnosis.present_conflicting_anchor_markers@.len() > 0 {
        "conflicting evolved anchors already present: "@ + joined(
            first_n(views(x.diagnosis.present_conflicting_anchor_markers@), 2),
            ", "@,
        )
    } else if freeze_blocks(x) {
        let missing = first_n(missing_anchors(x.freeze->0), 2);
        if missing.len() > 0 {
            "required anchors missing: "@ + joined(missing, ", "@)
        } else {
            "required insertion anchors were not confirmed"@
        }
    } else {
        "surface already present, so duplicate insertion was skipped"@
    }
}

/// A copy of the first `n` strings of `v`.
fn first_strings(v: &Vec<String>, n: usize) -> (r: Vec<String>)
    ensures
        views(r@) == first_n(views(v@), n as nat),
{
    let mut out: Vec<String> = Vec::new();
    let mut i: usize = 0;
    while i < v.len() && i < n
        invariant
            i <= v.len(),
            i <= n,
            views(out@) == views(v@).subrange(0, i as int),
        decreases v.len() - i,
    {
        let ghost before = views(out@);
        let s = v[i].clone();
        out.push(s);
        assert(views(out@) =~= before.push(s@));
        assert(views(out@) =~= views(v@).subrange(0, i + 1));
        i = i + 1;
    }
    assert(views(v@).len() <= n ==> views(v@).subrange(0, i as int) =~= views(v@));
    out
}

/// The required anchors the freeze did not confirm.
fn unconfirmed_anchors(f: &AnchorFreeze) -> (r: Vec<String>)
    ensures
        views(r@) == missing_anchors(*f),
{
    let ghost req = views(f.required_anchor_markers@);
    let ghost keep = not_confirmed(views(f.confirmed_anchor_markers@));
    let mut out: Vec<String> = Vec::new();
    let mut i: usize = 0;
    assert(req.subrange(0, 0) =~= Seq::<Seq<char>>::empty());
    while i < f.required_anchor_markers.len()
        invariant
            i <= f.required_anchor_markers.len(),
            req == views(f.required_anchor_markers@),
            keep == not_confirmed(views(f.confirmed_anchor_markers@)),
            views(out@) == req.subrange(0, i as int).filter(keep),
        decreases f.required_anchor_markers.len() - i,
    {
        let m = &f.required_anchor_markers[i];
        let confirmed = list_includes(&f.confirmed_anchor_markers, m.as_str());
        proof {
            assert(req.subrange(0, i + 1) =~= req.subrange(0, i as int).push(m@));
            req.subrange(0, i as int).lemma_filter_push(m@, keep);
            let c = views(f.confirmed_anchor_markers@);
            if confirmed {
                let k = choose|k: int|
                    0 <= k < f.confirmed_anchor_markers@.len()
                        && (#[trigger] f.confirmed_anchor_markers@[k])@ == m@;
                assert(c[k] == m@);
            } else {
                assert forall|k: int| 0 <= k < c.len() implies c[k] != m@ by {
                    assert(c[k] == f.confirmed_anchor_markers@[k]@);
                }
            }
            assert(keep(m@) == !confirmed);
        }
        if !confirmed {
            let ghost before = views(out@);
            out.push(m.clone());
            assert(views(out@) =~= before.push(m@));
        }
        i = i + 1;
    }
    assert(req.subrange(0, req.len() as int) =~= req);
    out
}

/// Why a patch request ended as it did.
pub fn project_patch_xray_outcome_reason(xray: &ProjectPatchXrayView) -> (r: String)
    ensures
        r@ == xray_reason(*xray),
{
    if xray.postcheck_path.is_some() {
        return owned("postcheck passed and invariants held");
    }
    if xray.diagnosis.present_conflicting_anchor_markers.len() > 0 {
        let shown = first_strings(&xray.diagnosis.present_conflicting_anchor_markers, 2);
        let mut m = owned("conflicting evolved anchors already present: ");
        let list = join_strings(&shown, ", ");
        push_str(&mut m, list.as_str());
        return m;
    }
    if freeze_blocks_exec(xray) {
        match &xray.freeze {
            Some(f) => {
                let missing = first_strings(&unconfirmed_anchors(f), 2);
                if missing.len() > 0 {
                    let mut m = owned("required anchors missing: ");
                    let list = join_strings(&missing, ", ");
                    push_str(&mut m, list.as_str());
                    return m;
                }
                return owned("required insertion anchors were not confirmed");
            },
            None => {},
        }
    }
    owned("surface already present, so duplicate insertion was skipped")
}

/// The file names of the freeze and postcheck receipts of a request.
pub fn xray_companion_file_names(request_id: &str) -> (r: (String, String))
    ensures
        r.0@ == request_id@ + "-freeze.json"@,
        r.1@ == request_id@ + "-postcheck.json"@,
{
    let mut freeze = owned(request_id);
    push_str(&mut freeze, "-freeze.json");
    let mut postcheck = owned(request_id);
    push_str(&mut postcheck, "-postcheck.json");
    (freeze, postcheck)
}

} // verus!
