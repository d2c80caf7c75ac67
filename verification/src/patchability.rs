//! Patch readiness of a generated project: the per-lane preflight summary,
//! the patchability badge and risk rank of the project browser, and the
//! superseded-lane and maturity lookups.
use vstd::prelude::*;

use crate::extensions::opt_view;
use crate::text::{is_blank, joined, owned, text_eq, trim_text, trimmed, views};

verus! {

/// One declared patch lane of a project and its preflight readiness.
pub struct PatchLaneStatus {
    pub patch_kind: String,
    pub effective_preflight_readiness: String,
    pub preflight_readiness_reason: String,
    pub surgical_maturity: String,
    pub superseded_by_patch_kinds: Vec<String>,
}

/// The parts of a project spec the patch views read.
pub struct ProjectSpec {
    pub project_name: String,
    pub family_id: String,
    pub patch_lanes: Vec<PatchLaneStatus>,
}

/// Counts of a project's patch lanes by preflight readiness, and the first
/// reason given for a blocked lane.
pub struct ProjectPatchReadinessSummary {
    pub ready_count: usize,
    pub already_present_count: usize,
    pub dependency_blocked_count: usize,
    pub structurally_blocked_count: usize,
    pub surface_mismatch_count: usize,
    pub unknown_count: usize,
    pub first_blocked_reason: Option<String>,
}

/// The project's patchability receipt, as far as the browser reads it.
pub struct ProjectPatchReadinessReceiptView {
    pub family_display_name: Option<String>,
    pub family_ecosystem: Option<String>,
    /// Blocked lanes that newer lanes supersede, with their replacements, in key order.
    pub superseded_blocked_lane_replacements: Vec<(String, Vec<String>)>,
    pub risky_blocked_lane_count: usize,
    pub historical_blocked_lane_count: usize,
    pub decomposable_historical_blocker_count: usize,
    pub change_since_patchability_baseline_status: String,
    pub change_since_patchability_baseline_notes: Vec<String>,
}

/// An RGB colour of a badge.
#[derive(Debug, Clone, Copy, PartialEq, Eq, Structural)]
pub struct Tone {
    pub r: u8,
    pub g: u8,
    pub b: u8,
}

/// The readiness buckets: 0 ready, 1 already present, 2 dependency blocked,
/// 3 structurally blocked, 4 surface mismatch, 5 anything else.
pub open spec fn readiness_bucket(r: Seq<char>) -> nat {
    if r == "ready"@ {
        0
    } else if r == "already_present"@ {
        1
    } else if r == "dependency_blocked"@ {
        2
    } else if r == "structurally_blocked"@ {
        3
    } else if r == "surface_mismatch"@ {
        4
    } else {
        5
    }
}

/// How many lanes fall into bucket `b`.
pub open spec fn bucket_count(lanes: Seq<PatchLaneStatus>, b: nat) -> nat
    decreases lanes.len(),
{
    if lanes.len() == 0 {
        0
    } else {
        bucket_count(lanes.drop_last(), b) + if readiness_bucket(
            lanes.last().effective_preflight_readiness@,
        ) == b {
            1nat
        } else {
            0nat
        }
    }
}

/// The trimmed reason of the first blocked lane (dependency, structure or
/// surface) whose reason is not blank.
pub open spec fn first_blocked_reason(lanes: Seq<PatchLaneStatus>) -> Option<Seq<char>>
    decreases lanes.len(),
{
    if lanes.len() == 0 {
        None
    } else {
        let b = readiness_bucket(lanes[0].effective_preflight_readiness@);
        if 2 <= b <= 4 && trimmed(lanes[0].preflight_readiness_reason@).len() > 0 {
            Some(trimmed(lanes[0].preflight_readiness_reason@))
        } else {
            first_blocked_reason(lanes.drop_first())
        }
    }
}

/// The summary says what the lanes hold.
pub open spec fn summarizes(s: ProjectPatchReadinessSummary, lanes: Seq<PatchLaneStatus>) -> bool {
    &&& s.ready_count == bucket_count(lanes, 0)
    &&& s.already_present_count == bucket_count(lanes, 1)
    &&& s.dependency_blocked_count == bucket_count(lanes, 2)
    &&& s.structurally_blocked_count == bucket_count(lanes, 3)
    &&& s.surface_mismatch_count == bucket_count(lanes, 4)
    &&& s.unknown_count == bucket_count(lanes, 5)
    &&& opt_view(s.first_blocked_reason) == first_blocked_reason(lanes)
}

proof fn lemma_first_reason_extend(lanes: Seq<PatchLaneStatus>, i: int)
    requires
        0 <= i < lanes.len(),
        first_blocked_reason(lanes.subrange(0, i)) is None,
    ensures
        first_blocked_reason(lanes.subrange(0, i + 1)) == ({
            let b = readiness_bucket(lanes[i].effective_preflight_readiness@);
            if 2 <= b <= 4 && trimmed(lanes[i].preflight_readiness_reason@).len() > 0 {
                Some(trimmed(lanes[i].preflight_readiness_reason@))
            } else {
                None::<Seq<char>>
            }
        }),
    decreases i,
{
    let s = lanes.subrange(0, i + 1);
    assert(s[0] == lanes[0]);
    if i > 0 {
        let b = readiness_bucket(lanes[0].effective_preflight_readiness@);
        assert(lanes.subrange(0, i)[0] == lanes[0]);
        assert(!(2 <= b <= 4 && trimmed(lanes[0].preflight_readiness_reason@).len() > 0));
        let tail = lanes.drop_first();
        assert(lanes.subrange(0, i).drop_first() =~= tail.subrange(0, i - 1));
        lemma_first_reason_extend(tail, i - 1);
        assert(tail[i - 1] == lanes[i]);
        assert(s.drop_first() =~= tail.subrange(0, i));
        assert(first_blocked_reason(s) == first_blocked_reason(s.drop_first()));
        assert(first_blocked_reason(tail.subrange(0, i)) == first_blocked_reason(tail.subrange(0, (i - 1) + 1)));
    } else {
        assert(s.drop_first() =~= Seq::<PatchLaneStatus>::empty());
        assert(first_blocked_reason(s.drop_first()) is None);
    }
}

proof fn lemma_first_reason_keeps(lanes: Seq<PatchLaneStatus>, i: int)
    requires
        0 <= i < lanes.len(),
        first_blocked_reason(lanes.subrange(0, i)) is Some,
    ensures
        first_blocked_reason(lanes.subrange(0, i + 1)) == first_blocked_reason(
            lanes.subrange(0, i),
        ),
    decreases i,
{
    let b = readiness_bucket(lanes[0].effective_preflight_readiness@);
    assert(i > 0);
    assert(lanes.subrange(0, i)[0] == lanes[0]);
    assert(lanes.subrange(0, i + 1)[0] == lanes[0]);
    if !(2 <= b <= 4 && trimmed(lanes[0].preflight_readiness_reason@).len() > 0) {
        let tail = lanes.drop_first();
        assert(lanes.subrange(0, i).drop_first() =~= tail.subrange(0, i - 1));
        assert(lanes.subrange(0, i + 1).drop_first() =~= tail.subrange(0, i));
        lemma_first_reason_keeps(tail, i - 1);
    }
}

fn readiness_bucket_of(r: &str) -> (b: usize)
    ensures
        b == readiness_bucket(r@),
{
    if text_eq(r, "ready") {
        0
    } else if text_eq(r, "already_present") {
        1
    } else if text_eq(r, "dependency_blocked") {
        2
    } else if text_eq(r, "structurally_blocked") {
        3
    } else if text_eq(r, "surface_mismatch") {
        4
    } else {
        5
    }
}

/// Counts a project's patch lanes by preflight readiness and keeps the first
/// non-blank reason of a blocked lane.
pub fn summarize_project_patch_readiness(spec: &ProjectSpec) -> (s: ProjectPatchReadinessSummary)
    ensures
        summarizes(s, spec.patch_lanes@),
{
    let lanes = &spec.patch_lanes;
    let mut s = ProjectPatchReadinessSummary {
        ready_count: 0,
        already_present_count: 0,
        dependency_blocked_count: 0,
        structurally_blocked_count: 0,
        surface_mismatch_count: 0,
        unknown_count: 0,
        first_blocked_reason: None,
    };
    let mut i: usize = 0;
    assert(lanes@.subrange(0, 0) =~= Seq::<PatchLaneStatus>::empty());
    while i < lanes.len()
        invariant
            i <= lanes.len(),
            summarizes(s, lanes@.subrange(0, i as int)),
            s.ready_count + s.already_present_count + s.dependency_blocked_count
                + s.structurally_blocked_count + s.surface_mismatch_count + s.unknown_count == i,
        decreases lanes.len() - i,
    {
        let ghost pre = lanes@.subrange(0, i as int);
        let ghost post = lanes@.subrange(0, i + 1);
        assert(post.drop_last() =~= pre);
        let lane = &lanes[i];
        let b = readiness_bucket_of(lane.effective_preflight_readiness.as_str());
        proof {
            if first_blocked_reason(pre) is None {
                lemma_first_reason_extend(lanes@, i as int);
            } else {
                lemma_first_reason_keeps(lanes@, i as int);
            }
        }
        if b == 0 {
            s.ready_count = s.ready_count + 1;
        } else if b == 1 {
            s.already_present_count = s.already_present_count + 1;
        } else if b == 5 {
            s.unknown_count = s.unknown_count + 1;
        } else {
            if b == 2 {
                s.dependency_blocked_count = s.dependency_blocked_count + 1;
            } else if b == 3 {
                s.structurally_blocked_count = s.structurally_blocked_count + 1;
            } else {
                s.surface_mismatch_count = s.surface_mismatch_count + 1;
            }
            if s.first_blocked_reason.is_none() {
                if !is_blank(lane.preflight_readiness_reason.as_str()) {
                    s.first_blocked_reason = Some(
                        trim_text(lane.preflight_readiness_reason.as_str()),
                    );
                }
            }
        }
        i = i + 1;
    }
    assert(lanes@.subrange(0, lanes.len() as int) =~= lanes@);
    s
}

/// The lanes in the six buckets add up to all lanes.
pub proof fn lemma_buckets_cover_all_lanes(lanes: Seq<PatchLaneStatus>)
    ensures
        bucket_count(lanes, 0) + bucket_count(lanes, 1) + bucket_count(lanes, 2) + bucket_count(
            lanes,
            3,
        ) + bucket_count(lanes, 4) + bucket_count(lanes, 5) == lanes.len(),
    decreases lanes.len(),
{
    if lanes.len() > 0 {
        lemma_buckets_cover_all_lanes(lanes.drop_last());
    }
}

/// The lanes superseding a lane, joined by `, `, when there are any.
pub open spec fn superseded_summary(lane: PatchLaneStatus) -> Option<Seq<char>> {
    if lane.superseded_by_patch_kinds@.len() == 0 {
        None
    } else {
        Some(joined(views(lane.superseded_by_patch_kinds@), ", "@))
    }
}

/// Which lanes supersede a patch lane.
pub fn patch_lane_superseded_summary(lane: &PatchLaneStatus) -> (r: Option<String>)
    ensures
        opt_view(r) == superseded_summary(*lane),
{
    if lane.superseded_by_patch_kinds.len() == 0 {
        None
    } else {
        let j = crate::text::join_strings(&lane.superseded_by_patch_kinds, ", ");
        Some(j)
    }
}

// ---------------------------------------------------------------------------
// Badge and risk rank
// ---------------------------------------------------------------------------

/// A receipt with no risky blocked lane but decomposable historical blockers.
pub open spec fn decomposable_only(r: ProjectPatchReadinessReceiptView) -> bool {
    r.risky_blocked_lane_count == 0 && r.decomposable_historical_blocker_count > 0
}

/// A receipt with no risky blocked lane but historical blocked lanes.
pub open spec fn historical_only(r: ProjectPatchReadinessReceiptView) -> bool {
    r.risky_blocked_lane_count == 0 && r.historical_blocked_lane_count > 0
}

/// The badge of the project browser's patchability column: its label and colour.
pub open spec fn patchability_badge(
    receipt: Option<ProjectPatchReadinessReceiptView>,
    s: ProjectPatchReadinessSummary,
) -> (Seq<char>, Tone) {
    let blocked = s.structurally_blocked_count + s.surface_mismatch_count
        + s.dependency_blocked_count;
    let ready = ("patch-ready"@, Tone { r: 84, g: 168, b: 108 });
    let decomposable = ("patch-decomposable"@, Tone { r: 114, g: 160, b: 96 });
    let historical = ("patch-historical"@, Tone { r: 184, g: 156, b: 92 });
    let fallback = if s.structurally_blocked_count + s.surface_mismatch_count > 0 {
        ("patch-risk"@, Tone { r: 196, g: 102, b: 72 })
    } else if s.dependency_blocked_count > 0 {
        ("patch-waiting"@, Tone { r: 214, g: 170, b: 72 })
    } else {
        ready
    };
    match receipt {
        Some(r) => {
            let st = r.change_since_patchability_baseline_status@;
            if st == "regressed_since_patchability_baseline"@ {
                ("patch-regressed"@, Tone { r: 190, g: 74, b: 74 })
            } else if st == "changed_since_patchability_baseline"@ {
                ("patch-drifted"@, Tone { r: 214, g: 170, b: 72 })
            } else if st == "improved_since_patchability_baseline"@ {
                ("patch-improved"@, Tone { r: 70, g: 156, b: 140 })
            } else if st == "stable_since_patchability_baseline"@ {
                ("patch-stable"@, Tone { r: 84, g: 168, b: 108 })
            } else if st == "baseline_recorded"@ {
                if decomposable_only(r) {
                    decomposable
                } else if historical_only(r) {
                    historical
                } else if blocked == 0 {
                    ready
                } else {
                    ("patch-baselined"@, Tone { r: 196, g: 150, b: 74 })
                }
            } else if decomposable_only(r) {
                decomposable
            } else if historical_only(r) {
                historical
            } else {
                fallback
            }
        },
        None => fallback,
    }
}

/// A badge colour.
pub fn tone(r: u8, g: u8, b: u8) -> (t: Tone)
    ensures
        t == (Tone { r, g, b }),
{
    Tone { r, g, b }
}

/// The project browser's patchability badge: its label and colour.
pub fn project_patchability_badge(
    receipt: Option<&ProjectPatchReadinessReceiptView>,
    readiness: &ProjectPatchReadinessSummary,
) -> (r: (&'static str, Tone))
    ensures
        (r.0@, r.1) == patchability_badge(
            match receipt {
                Some(x) => Some(*x),
                None => None,
            },
            *readiness,
        ),
{
    if let Some(receipt) = receipt {
        let st = receipt.change_since_patchability_baseline_status.as_str();
        if text_eq(st, "regressed_since_patchability_baseline") {
            return ("patch-regressed", tone(190, 74, 74));
        }
        if text_eq(st, "changed_since_patchability_baseline") {
            return ("patch-drifted", tone(214, 170, 72));
        }
        if text_eq(st, "improved_since_patchability_baseline") {
            return ("patch-improved", tone(70, 156, 140));
        }
        if text_eq(st, "stable_since_patchability_baseline") {
            return ("patch-stable", tone(84, 168, 108));
        }
        if text_eq(st, "baseline_recorded") {
            return if receipt.risky_blocked_lane_count == 0
                && receipt.decomposable_historical_blocker_count > 0 {
                ("patch-decomposable", tone(114, 160, 96))
            } else if receipt.risky_blocked_lane_count == 0
                && receipt.historical_blocked_lane_count > 0 {
                ("patch-historical", tone(184, 156, 92))
            } else if readiness.structurally_blocked_count == 0
                && readiness.surface_mismatch_count == 0
                && readiness.dependency_blocked_count == 0 {
                ("patch-ready", tone(84, 168, 108))
            } else {
                ("patch-baselined", tone(196, 150, 74))
            };
        }
        if receipt.risky_blocked_lane_count == 0 && receipt.decomposable_historical_blocker_count
            > 0 {
            return ("patch-decomposable", tone(114, 160, 96));
        }
        if receipt.risky_blocked_lane_count == 0 && receipt.historical_blocked_lane_count > 0 {
            return ("patch-historical", tone(184, 156, 92));
        }
    }
    if readiness.structurally_blocked_count > 0 || readiness.surface_mismatch_count > 0 {
        ("patch-risk", tone(196, 102, 72))
    } else if readiness.dependency_blocked_count > 0 {
        ("patch-waiting", tone(214, 170, 72))
    } else {
        ("patch-ready", tone(84, 168, 108))
    }
}

/// The patchability risk rank used to sort the project browser (higher is riskier).
pub open spec fn patchability_risk(
    receipt: Option<ProjectPatchReadinessReceiptView>,
    s: ProjectPatchReadinessSummary,
) -> nat {
    let fallback: nat = if s.structurally_blocked_count + s.surface_mismatch_count > 0 {
        4
    } else if s.dependency_blocked_count > 0 {
        2
    } else {
        1
    };
    match receipt {
        Some(r) => {
            let st = r.change_since_patchability_baseline_status@;
            if st == "regressed_since_patchability_baseline"@ {
                5
            } else if st == "changed_since_patchability_baseline"@ {
                4
            } else if st == "baseline_recorded"@ {
                if r.risky_blocked_lane_count > 0 {
                    3
                } else if r.decomposable_historical_blocker_count > 0 {
                    2
                } else if r.historical_blocked_lane_count > 0 {
                    1
                } else {
                    0
                }
            } else if st == "stable_since_patchability_baseline"@ {
                1
            } else if st == "improved_since_patchability_baseline"@ {
                0
            } else if historical_only(r) {
                if r.decomposable_historical_blocker_count > 0 {
                    2
                } else {
                    1
                }
            } else {
                fallback
            }
        },
        None => fallback,
    }
}

/// The patchability risk rank of a project.
pub fn project_patchability_risk_rank(
    receipt: Option<&ProjectPatchReadinessReceiptView>,
    readiness: &ProjectPatchReadinessSummary,
) -> (r: usize)
    ensures
        r == patchability_risk(
            match receipt {
                Some(x) => Some(*x),
                None => None,
            },
            *readiness,
        ),
{
    if let Some(receipt) = receipt {
        let st = receipt.change_since_patchability_baseline_status.as_str();
        if text_eq(st, "regressed_since_patchability_baseline") {
            return 5;
        }
        if text_eq(st, "changed_since_patchability_baseline") {
            return 4;
        }
        if text_eq(st, "baseline_recorded") {
            if receipt.risky_blocked_lane_count > 0 {
                return 3;
            }
            if receipt.decomposable_historical_blocker_count > 0 {
                return 2;
            }
            if receipt.historical_blocked_lane_count > 0 {
                return 1;
            }
            return 0;
        }
        if text_eq(st, "stable_since_patchability_baseline") {
            return 1;
        }
        if text_eq(st, "improved_since_patchability_baseline") {
            return 0;
        }
        if receipt.risky_blocked_lane_count == 0 && receipt.historical_blocked_lane_count > 0 {
            if receipt.decomposable_historical_blocker_count > 0 {
                return 2;
            }
            return 1;
        }
    }
    if readiness.structurally_blocked_count > 0 || readiness.surface_mismatch_count > 0 {
        4
    } else if readiness.dependency_blocked_count > 0 {
        2
    } else {
        1
    }
}

/// A regression since the patchability baseline is the highest risk there
/// is, and the rank never exceeds it.
pub proof fn lemma_regression_ranks_highest(
    receipt: Option<ProjectPatchReadinessReceiptView>,
    s: ProjectPatchReadinessSummary,
    regressed: ProjectPatchReadinessReceiptView,
)
    requires
        regressed.change_since_patchability_baseline_status@
            == "regressed_since_patchability_baseline"@,
    ensures
        patchability_risk(receipt, s) <= 5,
        patchability_risk(Some(regressed), s) == 5,
{
}

/// The browser's historical-blocker marker: the receipt records blocked
/// lanes that newer lanes supersede.
pub fn project_has_historical_blockers(receipt: Option<&ProjectPatchReadinessReceiptView>) -> (r:
    bool)
    ensures
        r == match receipt {
            Some(x) => x.superseded_blocked_lane_replacements@.len() > 0,
            None => false,
        },
{
    match receipt {
        Some(x) => x.superseded_blocked_lane_replacements.len() > 0,
        None => false,
    }
}

/// The browser's decomposable-historical marker: the receipt records
/// historical blockers that decompose into ready lanes.
pub fn project_has_decomposable_historical_blockers(
    receipt: Option<&ProjectPatchReadinessReceiptView>,
) -> (r: bool)
    ensures
        r == match receipt {
            Some(x) => x.decomposable_historical_blocker_count > 0,
            None => false,
        },
{
    match receipt {
        Some(x) => x.decomposable_historical_blocker_count > 0,
        None => false,
    }
}

// ---------------------------------------------------------------------------
// Lane lookups
// ---------------------------------------------------------------------------

/// The index of the first lane at or after `i` with kind `kind`, if any.
pub open spec fn first_lane_from(lanes: Seq<PatchLaneStatus>, kind: Seq<char>, i: int) -> Option<int>
    decreases lanes.len() - i,
{
    if i < 0 || i >= lanes.len() {
        None
    } else if lanes[i].patch_kind@ == kind {
        Some(i)
    } else {
        first_lane_from(lanes, kind, i + 1)
    }
}

/// The index of the first lane of `lanes` with kind `kind`, if any.
pub open spec fn first_lane(lanes: Seq<PatchLaneStatus>, kind: Seq<char>) -> Option<int> {
    first_lane_from(lanes, kind, 0)
}

fn find_lane(lanes: &Vec<PatchLaneStatus>, patch_kind: &str) -> (r: Option<usize>)
    ensures
        match r {
            Some(i) => i < lanes@.len() && first_lane(lanes@, patch_kind@) == Some(i as int),
            None => first_lane(lanes@, patch_kind@) is None,
        },
{
    let mut i: usize = 0;
    while i < lanes.len()
        invariant
            i <= lanes.len(),
            first_lane(lanes@, patch_kind@) == first_lane_from(lanes@, patch_kind@, i as int),
        decreases lanes.len() - i,
    {
        if text_eq(lanes[i].patch_kind.as_str(), patch_kind) {
            return Some(i);
        }
        i = i + 1;
    }
    None
}

/// The surgical maturity of the first lane of kind `kind`, when it is not blank.
pub open spec fn lane_maturity(lanes: Seq<PatchLaneStatus>, kind: Seq<char>) -> Option<Seq<char>> {
    match first_lane(lanes, kind) {
        Some(i) => if trimmed(lanes[i].surgical_maturity@).len() > 0 {
            Some(lanes[i].surgical_maturity@)
        } else {
            None
        },
        None => None,
    }
}

/// The lanes superseding the first lane of kind `kind`, joined by `, `, when there are any.
pub open spec fn lane_superseded(lanes: Seq<PatchLaneStatus>, kind: Seq<char>) -> Option<Seq<char>> {
    match first_lane(lanes, kind) {
        Some(i) => superseded_summary(lanes[i]),
        None => None,
    }
}

fn maturity_in(lanes: &Vec<PatchLaneStatus>, patch_kind: &str) -> (r: Option<String>)
    ensures
        opt_view(r) == lane_maturity(lanes@, patch_kind@),
{
    match find_lane(lanes, patch_kind) {
        Some(i) => {
            if is_blank(lanes[i].surgical_maturity.as_str()) {
                None
            } else {
                Some(owned(lanes[i].surgical_maturity.as_str()))
            }
        },
        None => None,
    }
}

fn superseded_in(lanes: &Vec<PatchLaneStatus>, patch_kind: &str) -> (r: Option<String>)
    ensures
        opt_view(r) == lane_superseded(lanes@, patch_kind@),
{
    match find_lane(lanes, patch_kind) {
        Some(i) => patch_lane_superseded_summary(&lanes[i]),
        None => None,
    }
}

/// The selected project's current maturity of a patch lane.
pub fn current_patch_lane_maturity_for_project(
    selected_project_spec: Option<&ProjectSpec>,
    patch_kind: &str,
) -> (r: Option<String>)
    ensures
        opt_view(r) == match selected_project_spec {
            Some(p) => lane_maturity(p.patch_lanes@, patch_kind@),
            None => None,
        },
{
    match selected_project_spec {
        Some(p) => maturity_in(&p.patch_lanes, patch_kind),
        None => None,
    }
}

/// The lanes superseding a patch lane of the selected project.
pub fn current_patch_lane_superseded_for_project(
    selected_project_spec: Option<&ProjectSpec>,
    patch_kind: &str,
) -> (r: Option<String>)
    ensures
        opt_view(r) == match selected_project_spec {
            Some(p) => lane_superseded(p.patch_lanes@, patch_kind@),
            None => None,
        },
{
    match selected_project_spec {
        Some(p) => superseded_in(&p.patch_lanes, patch_kind),
        None => None,
    }
}

/// The maturity of a patch lane among the lanes of the last execution result.
pub fn current_patch_lane_maturity_for_execution(
    patch_lanes: &Vec<PatchLaneStatus>,
    patch_kind: &str,
) -> (r: Option<String>)
    ensures
        opt_view(r) == lane_maturity(patch_lanes@, patch_kind@),
{
    maturity_in(patch_lanes, patch_kind)
}

/// The lanes superseding a patch lane among the lanes of the last execution result.
pub fn current_patch_lane_superseded_for_execution(
    patch_lanes: &Vec<PatchLaneStatus>,
    patch_kind: &str,
) -> (r: Option<String>)
    ensures
        opt_view(r) == lane_superseded(patch_lanes@, patch_kind@),
{
    superseded_in(patch_lanes, patch_kind)
}

// ---------------------------------------------------------------------------
// Maturity and readiness words
// ---------------------------------------------------------------------------

/// What a surgical maturity class means.
pub open spec fn maturity_explanation(m: Seq<char>) -> Seq<char> {
    if m == "narrow_surface_contract"@ {
        "the lane declares a tight surgical surface with specific artifact groups and structural guard checks"@
    } else if m == "broad_surface_contract"@ {
        "the lane declares multiple artifact groups and boundaries, but its allowed surgical surface is still fairly wide"@
    } else if m == "legacy_shape_sensitive"@ {
        "the lane depends on an older structural shape and may be blocked when newer evolved surfaces are already present"@
    } else if m == "anchor_only_contract"@ {
        "the lane confirms insertion anchors, but does not yet declare a fuller surface-group contract"@
    } else if m == "uncontracted"@ {
        "the lane does not yet declare a strong surgical contract, so diagnosis relies more heavily on general heuristics"@
    } else {
        "the lane has a custom maturity classification"@
    }
}

/// The explanation of a surgical maturity class.
pub fn patch_lane_maturity_explanation(maturity: &str) -> (r: &'static str)
    ensures
        r@ == maturity_explanation(maturity@),
{
    if text_eq(maturity, "narrow_surface_contract") {
        "the lane declares a tight surgical surface with specific artifact groups and structural guard checks"
    } else if text_eq(maturity, "broad_surface_contract") {
        "the lane declares multiple artifact groups and boundaries, but its allowed surgical surface is still fairly wide"
    } else if text_eq(maturity, "legacy_shape_sensitive") {
        "the lane depends on an older structural shape and may be blocked when newer evolved surfaces are already present"
    } else if text_eq(maturity, "anchor_only_contract") {
        "the lane confirms insertion anchors, but does not yet declare a fuller surface-group contract"
    } else if text_eq(maturity, "uncontracted") {
        "the lane does not yet declare a strong surgical contract, so diagnosis relies more heavily on general heuristics"
    } else {
        "the lane has a custom maturity classification"
    }
}

/// The short label and colour of a maturity badge; unknown classes show
/// themselves in grey.
pub open spec fn maturity_badge(m: Seq<char>) -> (Seq<char>, Tone) {
    if m == "narrow_surface_contract"@ {
        ("narrow-surface"@, Tone { r: 70, g: 140, b: 90 })
    } else if m == "broad_surface_contract"@ {
        ("broad-surface"@, Tone { r: 90, g: 120, b: 150 })
    } else if m == "legacy_shape_sensitive"@ {
        ("legacy-shape"@, Tone { r: 170, g: 110, b: 70 })
    } else if m == "anchor_only_contract"@ {
        ("anchor-only"@, Tone { r: 140, g: 120, b: 70 })
    } else if m == "uncontracted"@ {
        ("uncontracted"@, Tone { r: 130, g: 130, b: 130 })
    } else {
        (m, Tone { r: 160, g: 160, b: 160 })
    }
}

/// The label and colour of a maturity badge (`[label]` in the UI).
pub fn patch_lane_maturity_badge(maturity: &str) -> (r: (String, Tone))
    ensures
        (r.0@, r.1) == maturity_badge(maturity@),
{
    if text_eq(maturity, "narrow_surface_contract") {
        (owned("narrow-surface"), tone(70, 140, 90))
    } else if text_eq(maturity, "broad_surface_contract") {
        (owned("broad-surface"), tone(90, 120, 150))
    } else if text_eq(maturity, "legacy_shape_sensitive") {
        (owned("legacy-shape"), tone(170, 110, 70))
    } else if text_eq(maturity, "anchor_only_contract") {
        (owned("anchor-only"), tone(140, 120, 70))
    } else if text_eq(maturity, "uncontracted") {
        (owned("uncontracted"), tone(130, 130, 130))
    } else {
        (owned(maturity), tone(160, 160, 160))
    }
}

/// The workbench's readiness tone of a lane.
pub open spec fn readiness_tone(status: Seq<char>, blockers: nat, hints: nat) -> (Seq<char>, Tone) {
    if status == "fully_live"@ && blockers == 0 && hints == 0 {
        ("Ready"@, Tone { r: 84, g: 168, b: 108 })
    } else if status == "archived"@ {
        ("Archived"@, Tone { r: 140, g: 140, b: 140 })
    } else if hints > 0 || status == "host_wired"@ || status == "apply_patch_ready"@ {
        ("Needs review"@, Tone { r: 214, g: 170, b: 72 })
    } else {
        ("In progress"@, Tone { r: 96, g: 156, b: 214 })
    }
}

/// Ready, archived, needs review or in progress, from the lane's status,
/// blockers and compare hints.
pub fn lane_readiness_tone(status: &str, blocker_count: usize, mismatch_hint_count: usize) -> (r: (
    &'static str,
    Tone,
))
    ensures
        (r.0@, r.1) == readiness_tone(status@, blocker_count as nat, mismatch_hint_count as nat),
{
    if text_eq(status, "fully_live") && blocker_count == 0 && mismatch_hint_count == 0 {
        ("Ready", tone(84, 168, 108))
    } else if text_eq(status, "archived") {
        ("Archived", tone(140, 140, 140))
    } else if mismatch_hint_count > 0 || text_eq(status, "host_wired") || text_eq(
        status,
        "apply_patch_ready",
    ) {
        ("Needs review", tone(214, 170, 72))
    } else {
        ("In progress", tone(96, 156, 214))
    }
}

/// The receipt's change since the patchability baseline decides the badge
/// whatever the lanes' readiness: regressed, drifted (changed), improved
/// and stable each have their own badge, no two alike, and the risk rank
/// orders them regressed above drifted above stable above improved.
pub proof fn lemma_baseline_change_decides_badge(
    r: ProjectPatchReadinessReceiptView,
    s: ProjectPatchReadinessSummary,
    s2: ProjectPatchReadinessSummary,
)
    ensures
        r.change_since_patchability_baseline_status@ == "regressed_since_patchability_baseline"@
            ==> patchability_badge(Some(r), s) == ("patch-regressed"@, Tone { r: 190, g: 74, b: 74 }),
        r.change_since_patchability_baseline_status@ == "changed_since_patchability_baseline"@
            ==> patchability_badge(Some(r), s) == ("patch-drifted"@, Tone { r: 214, g: 170, b: 72 }),
        r.change_since_patchability_baseline_status@ == "improved_since_patchability_baseline"@
            ==> patchability_badge(Some(r), s) == ("patch-improved"@, Tone { r: 70, g: 156, b: 140 }),
        r.change_since_patchability_baseline_status@ == "stable_since_patchability_baseline"@
            ==> patchability_badge(Some(r), s) == ("patch-stable"@, Tone { r: 84, g: 168, b: 108 }),
        ({
            let st = r.change_since_patchability_baseline_status@;
            st == "regressed_since_patchability_baseline"@ || st
                == "changed_since_patchability_baseline"@ || st
                == "improved_since_patchability_baseline"@ || st
                == "stable_since_patchability_baseline"@
        }) ==> patchability_badge(Some(r), s) == patchability_badge(Some(r), s2),
        forall|a: ProjectPatchReadinessReceiptView, b: ProjectPatchReadinessReceiptView|
            (#[trigger] baseline_change_rank(a.change_since_patchability_baseline_status@)) > 0
                && (#[trigger] baseline_change_rank(b.change_since_patchability_baseline_status@)) > 0
                && a.change_since_patchability_baseline_status@
                != b.change_since_patchability_baseline_status@ ==> patchability_badge(Some(a), s)
                != patchability_badge(Some(b), s2),
        forall|a: ProjectPatchReadinessReceiptView, b: ProjectPatchReadinessReceiptView|
            (#[trigger] baseline_change_rank(a.change_since_patchability_baseline_status@)) > 0
                && (#[trigger] baseline_change_rank(b.change_since_patchability_baseline_status@))
                > baseline_change_rank(a.change_since_patchability_baseline_status@)
                ==> patchability_risk(Some(b), s2) > patchability_risk(Some(a), s),
{
    reveal_strlit("regressed_since_patchability_baseline");
    reveal_strlit("changed_since_patchability_baseline");
    reveal_strlit("improved_since_patchability_baseline");
    reveal_strlit("stable_since_patchability_baseline");
    reveal_strlit("patch-regressed");
    reveal_strlit("patch-drifted");
    reveal_strlit("patch-improved");
    reveal_strlit("patch-stable");
    assert("changed_since_patchability_baseline"@[0] != "regressed_since_patchability_baseline"@[0]);
    assert("improved_since_patchability_baseline"@[0] != "regressed_since_patchability_baseline"@[0]);
    assert("improved_since_patchability_baseline"@[0] != "changed_since_patchability_baseline"@[0]);
    assert("stable_since_patchability_baseline"@[0] != "regressed_since_patchability_baseline"@[0]);
    assert("stable_since_patchability_baseline"@[0] != "changed_since_patchability_baseline"@[0]);
    assert("stable_since_patchability_baseline"@[0] != "improved_since_patchability_baseline"@[0]);
    reveal_strlit("baseline_recorded");
    assert("baseline_recorded"@[0] != "stable_since_patchability_baseline"@[0]);
    assert("baseline_recorded"@[0] != "improved_since_patchability_baseline"@[0]);
    assert forall|a: ProjectPatchReadinessReceiptView, b: ProjectPatchReadinessReceiptView|
        (#[trigger] baseline_change_rank(a.change_since_patchability_baseline_status@)) > 0
            && (#[trigger] baseline_change_rank(b.change_since_patchability_baseline_status@))
            > baseline_change_rank(a.change_since_patchability_baseline_status@)
            implies patchability_risk(Some(b), s2) > patchability_risk(Some(a), s) by {
        let sa = a.change_since_patchability_baseline_status@;
        let sb = b.change_since_patchability_baseline_status@;
        if sa == "improved_since_patchability_baseline"@ {
            assert(patchability_risk(Some(a), s) == 0);
        } else if sa == "stable_since_patchability_baseline"@ {
            assert(patchability_risk(Some(a), s) == 1);
        } else if sa == "changed_since_patchability_baseline"@ {
            assert(patchability_risk(Some(a), s) == 4);
        }
        if sb == "regressed_since_patchability_baseline"@ {
            assert(patchability_risk(Some(b), s2) == 5);
        } else if sb == "changed_since_patchability_baseline"@ {
            assert(patchability_risk(Some(b), s2) == 4);
        } else if sb == "stable_since_patchability_baseline"@ {
            assert(patchability_risk(Some(b), s2) == 1);
        }
    }
    assert("patch-drifted"@[6] != "patch-regressed"@[6]);
    assert("patch-improved"@[6] != "patch-regressed"@[6]);
    assert("patch-improved"@[6] != "patch-drifted"@[6]);
    assert("patch-stable"@[6] != "patch-regressed"@[6]);
    assert("patch-stable"@[6] != "patch-drifted"@[6]);
    assert("patch-stable"@[6] != "patch-improved"@[6]);
}

/// The four changes since the patchability baseline, by risk: improved 1,
/// stable 2, drifted 3, regressed 4; any other status 0.
pub open spec fn baseline_change_rank(st: Seq<char>) -> nat {
    if st == "improved_since_patchability_baseline"@ {
        1
    } else if st == "stable_since_patchability_baseline"@ {
        2
    } else if st == "changed_since_patchability_baseline"@ {
        3
    } else if st == "regressed_since_patchability_baseline"@ {
        4
    } else {
        0
    }
}

/// Without a receipt the lanes decide: any structurally blocked or
/// surface-mismatched lane gives "patch-risk" (rank 4), else a lane waiting
/// on a dependency gives "patch-waiting" (rank 2), else "patch-ready" (rank 1).
pub proof fn lemma_readiness_decides_without_receipt(s: ProjectPatchReadinessSummary)
    ensures
        s.structurally_blocked_count > 0 || s.surface_mismatch_count > 0 ==> patchability_badge(
            None,
            s,
        ) == ("patch-risk"@, Tone { r: 196, g: 102, b: 72 }) && patchability_risk(None, s) == 4,
        s.structurally_blocked_count == 0 && s.surface_mismatch_count == 0
            && s.dependency_blocked_count > 0 ==> patchability_badge(None, s) == (
            "patch-waiting"@,
            Tone { r: 214, g: 170, b: 72 },
        ) && patchability_risk(None, s) == 2,
        s.structurally_blocked_count == 0 && s.surface_mismatch_count == 0
            && s.dependency_blocked_count == 0 ==> patchability_badge(None, s) == (
            "patch-ready"@,
            Tone { r: 84, g: 168, b: 108 },
        ) && patchability_risk(None, s) == 1,
{
}

} // verus!
