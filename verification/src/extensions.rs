//! Pending extension lanes: the registry entry, the query and baseline
//! filters of the registry browser, the short badges, the status and risk
//! ranks, the lineage label, the blockers of each lifecycle status and the
//! per-status counts.
use vstd::prelude::*;

use crate::text::{
    chars_contain, chars_of, decimal, has_sub, joined, lowercase, lowercase_chars, owned,
    push_str, push_usize, text_eq, trim_chars, trimmed, views,
};

verus! {

/// One lane of the extension registry, as the host reports it.
pub struct PendingExtensionEntry {
    pub entry_id: String,
    pub status: String,
    pub extension_kind: String,
    pub family_id: Option<String>,
    pub tool_kind: Option<String>,
    pub patch_kind: Option<String>,
    pub archived_reason: Option<String>,
    pub scaffold_root: String,
    pub source_stub_path: String,
    pub unresolved_layers: Vec<String>,
    pub missing_family_build_primitive_classes: Vec<String>,
    pub missing_patch_primitive_classes: Vec<String>,
    pub missing_helper_primitive_kinds: Vec<String>,
    pub integrated_paths: Vec<String>,
    pub promotion_artifacts: Vec<String>,
    pub apply_patch_artifacts: Vec<String>,
    pub proof_quality_status: Option<String>,
    pub proof_seed_template_id: Option<String>,
    pub proof_seed_bundle_id: Option<String>,
    pub proof_drift_status: Option<String>,
    pub proof_change_since_last_pass_status: Option<String>,
    pub composition_drift_status: Option<String>,
    pub composition_change_since_last_live_status: Option<String>,
    pub patch_drift_status: Option<String>,
    pub patch_change_since_last_live_status: Option<String>,
    pub helper_drift_status: Option<String>,
    pub helper_change_since_last_live_status: Option<String>,
    pub bridge_drift_status: Option<String>,
    pub bridge_change_since_last_live_status: Option<String>,
}

/// The registry: how many lanes are in each lifecycle status, and the lanes
/// still in progress, those fully live, and the archived ones.
pub struct HostExtensionRegistryView {
    pub pending_count: usize,
    pub implemented_count: usize,
    pub validated_count: usize,
    pub promotion_prepared_count: usize,
    pub apply_patch_ready_count: usize,
    pub host_wired_count: usize,
    pub fully_live_count: usize,
    pub archived_count: usize,
    pub active_entries: Vec<PendingExtensionEntry>,
    pub fully_live_entries: Vec<PendingExtensionEntry>,
    pub archived_entries: Vec<PendingExtensionEntry>,
}

/// The five kinds of governed lanes.
#[derive(Debug, Clone, Copy, PartialEq, Eq, Structural)]
pub enum LaneKind {
    Proof,
    Composition,
    Patch,
    Helper,
    Bridge,
}

/// Filter on a proof harness bundle's quality status.
#[derive(Debug, Clone, Copy, PartialEq, Eq, Structural)]
pub enum ProofQualityFilter {
    All,
    Passing,
    RunnableDiverged,
    CatalogResolved,
    NeedsContractFix,
    Unknown,
}

/// Filter on a lane's change since its last pass or live baseline.
#[derive(Debug, Clone, Copy, PartialEq, Eq, Structural)]
pub enum BaselineFilter {
    All,
    Stable,
    Changed,
    Regressed,
    NoBaseline,
    Unknown,
}

// ---------------------------------------------------------------------------
// Optional text fields
// ---------------------------------------------------------------------------

/// The optional field holds exactly `lit`.
pub open spec fn is_text(o: Option<String>, lit: Seq<char>) -> bool {
    match o {
        Some(s) => s@ == lit,
        None => false,
    }
}

/// The optional field's text, or `d` when it is absent.
pub open spec fn or_text(o: Option<String>, d: Seq<char>) -> Seq<char> {
    match o {
        Some(s) => s@,
        None => d,
    }
}

/// `o.as_deref() == Some(lit)`.
pub fn opt_is(o: &Option<String>, lit: &str) -> (r: bool)
    ensures
        r == is_text(*o, lit@),
{
    match o {
        Some(s) => text_eq(s.as_str(), lit),
        None => false,
    }
}

/// `o.as_deref().unwrap_or(d)`.
pub fn opt_or<'a>(o: &'a Option<String>, d: &'a str) -> (r: &'a str)
    ensures
        r@ == or_text(*o, d@),
{
    match o {
        Some(s) => s.as_str(),
        None => d,
    }
}

// ---------------------------------------------------------------------------
// Lane kinds and their words
// ---------------------------------------------------------------------------

/// The `extension_kind` of a lane kind.
pub open spec fn kind_name(k: LaneKind) -> Seq<char> {
    match k {
        LaneKind::Proof => "proof_harness_bundle"@,
        LaneKind::Composition => "composition_bundle"@,
        LaneKind::Patch => "patch_recipe"@,
        LaneKind::Helper => "helper_lane"@,
        LaneKind::Bridge => "chattycog_bridge_lane"@,
    }
}

/// The badge prefix of a lane kind.
pub open spec fn badge_prefix(k: LaneKind) -> Seq<char> {
    match k {
        LaneKind::Proof => "proof:"@,
        LaneKind::Composition => "composition:"@,
        LaneKind::Patch => "patch:"@,
        LaneKind::Helper => "helper:"@,
        LaneKind::Bridge => "bridge:"@,
    }
}

/// The baseline status word for "stable" of a lane kind.
pub open spec fn stable_word(k: LaneKind) -> Seq<char> {
    if k == LaneKind::Proof {
        "stable_since_last_pass"@
    } else {
        "stable_since_last_live"@
    }
}

/// The baseline status word for "changed" of a lane kind.
pub open spec fn changed_word(k: LaneKind) -> Seq<char> {
    if k == LaneKind::Proof {
        "changed_since_last_pass"@
    } else {
        "changed_since_last_live"@
    }
}

/// The baseline status word for "regressed" of a lane kind.
pub open spec fn regressed_word(k: LaneKind) -> Seq<char> {
    if k == LaneKind::Proof {
        "regressed_since_last_pass"@
    } else {
        "regressed_since_last_live"@
    }
}

/// The baseline status word for "no baseline" of a lane kind.
pub open spec fn no_baseline_word(k: LaneKind) -> Seq<char> {
    if k == LaneKind::Proof {
        "no_passing_baseline"@
    } else {
        "no_live_baseline"@
    }
}

/// The lane's change-since-baseline status for a lane kind.
pub open spec fn baseline_status(e: PendingExtensionEntry, k: LaneKind) -> Option<String> {
    match k {
        LaneKind::Proof => e.proof_change_since_last_pass_status,
        LaneKind::Composition => e.composition_change_since_last_live_status,
        LaneKind::Patch => e.patch_change_since_last_live_status,
        LaneKind::Helper => e.helper_change_since_last_live_status,
        LaneKind::Bridge => e.bridge_change_since_last_live_status,
    }
}

/// The lane's drift status for a lane kind.
pub open spec fn drift_status(e: PendingExtensionEntry, k: LaneKind) -> Option<String> {
    match k {
        LaneKind::Proof => e.proof_drift_status,
        LaneKind::Composition => e.composition_drift_status,
        LaneKind::Patch => e.patch_drift_status,
        LaneKind::Helper => e.helper_drift_status,
        LaneKind::Bridge => e.bridge_drift_status,
    }
}

/// The lane is of kind `k`.
pub open spec fn is_kind(e: PendingExtensionEntry, k: LaneKind) -> bool {
    e.extension_kind@ == kind_name(k)
}

fn kind_name_exec(k: LaneKind) -> (r: &'static str)
    ensures
        r@ == kind_name(k),
{
    match k {
        LaneKind::Proof => "proof_harness_bundle",
        LaneKind::Composition => "composition_bundle",
        LaneKind::Patch => "patch_recipe",
        LaneKind::Helper => "helper_lane",
        LaneKind::Bridge => "chattycog_bridge_lane",
    }
}

fn badge_prefix_exec(k: LaneKind) -> (r: &'static str)
    ensures
        r@ == badge_prefix(k),
{
    match k {
        LaneKind::Proof => "proof:",
        LaneKind::Composition => "composition:",
        LaneKind::Patch => "patch:",
        LaneKind::Helper => "helper:",
        LaneKind::Bridge => "bridge:",
    }
}

fn stable_word_exec(k: LaneKind) -> (r: &'static str)
    ensures
        r@ == stable_word(k),
{
    if k == LaneKind::Proof {
        "stable_since_last_pass"
    } else {
        "stable_since_last_live"
    }
}

fn changed_word_exec(k: LaneKind) -> (r: &'static str)
    ensures
        r@ == changed_word(k),
{
    if k == LaneKind::Proof {
        "changed_since_last_pass"
    } else {
        "changed_since_last_live"
    }
}

fn regressed_word_exec(k: LaneKind) -> (r: &'static str)
    ensures
        r@ == regressed_word(k),
{
    if k == LaneKind::Proof {
        "regressed_since_last_pass"
    } else {
        "regressed_since_last_live"
    }
}

fn no_baseline_word_exec(k: LaneKind) -> (r: &'static str)
    ensures
        r@ == no_baseline_word(k),
{
    if k == LaneKind::Proof {
        "no_passing_baseline"
    } else {
        "no_live_baseline"
    }
}

/// The lane's change-since-baseline status field for a lane kind.
pub fn baseline_status_of(e: &PendingExtensionEntry, k: LaneKind) -> (r: &Option<String>)
    ensures
        *r == baseline_status(*e, k),
{
    match k {
        LaneKind::Proof => &e.proof_change_since_last_pass_status,
        LaneKind::Composition => &e.composition_change_since_last_live_status,
        LaneKind::Patch => &e.patch_change_since_last_live_status,
        LaneKind::Helper => &e.helper_change_since_last_live_status,
        LaneKind::Bridge => &e.bridge_change_since_last_live_status,
    }
}

/// The lane's drift status field for a lane kind.
pub fn drift_status_of(e: &PendingExtensionEntry, k: LaneKind) -> (r: &Option<String>)
    ensures
        *r == drift_status(*e, k),
{
    match k {
        LaneKind::Proof => &e.proof_drift_status,
        LaneKind::Composition => &e.composition_drift_status,
        LaneKind::Patch => &e.patch_drift_status,
        LaneKind::Helper => &e.helper_drift_status,
        LaneKind::Bridge => &e.bridge_drift_status,
    }
}

/// Whether the lane is of kind `k`.
pub fn entry_is_kind(e: &PendingExtensionEntry, k: LaneKind) -> (r: bool)
    ensures
        r == is_kind(*e, k),
{
    text_eq(e.extension_kind.as_str(), kind_name_exec(k))
}

// ---------------------------------------------------------------------------
// Query and filters
// ---------------------------------------------------------------------------

/// The texts a registry query searches: identity, status, kind, family,
/// tool, patch, archive reason, proof quality and seed, then the unresolved
/// layers and missing primitive classes and kinds.
pub open spec fn query_fields(e: PendingExtensionEntry) -> Seq<Seq<char>> {
    seq![
        e.entry_id@,
        e.status@,
        e.extension_kind@,
        or_text(e.family_id, ""@),
        or_text(e.tool_kind, ""@),
        or_text(e.patch_kind, ""@),
        or_text(e.archived_reason, ""@),
        or_text(e.proof_quality_status, ""@),
        or_text(e.proof_seed_template_id, ""@),
        or_text(e.proof_seed_bundle_id, ""@),
    ] + views(e.unresolved_layers@) + views(e.missing_family_build_primitive_classes@) + views(
        e.missing_patch_primitive_classes@,
    ) + views(e.missing_helper_primitive_kinds@)
}

/// A query matches when, trimmed and lowercased, it is empty or occurs in
/// the lowercase of one of the searched fields.
pub open spec fn matches_query(e: PendingExtensionEntry, query: Seq<char>) -> bool {
    let q = lowercase(trimmed(query));
    q.len() == 0 || exists|i: int|
        0 <= i < query_fields(e).len() && has_sub(lowercase(#[trigger] query_fields(e)[i]), q)
}

fn push_field<'a>(fields: &mut Vec<&'a str>, s: &'a str)
    ensures
        final(fields)@ == old(fields)@.push(s),
{
    fields.push(s);
}

fn push_all<'a>(fields: &mut Vec<&'a str>, items: &'a Vec<String>)
    ensures
        final(fields)@.len() == old(fields)@.len() + items@.len(),
        forall|i: int| 0 <= i < old(fields)@.len() ==> final(fields)@[i] == old(fields)@[i],
        forall|i: int|
            0 <= i < items@.len() ==> (#[trigger] final(fields)@[old(fields)@.len() + i])@
                == items@[i]@,
{
    let ghost start = fields@;
    let mut i: usize = 0;
    while i < items.len()
        invariant
            i <= items.len(),
            fields@.len() == start.len() + i,
            forall|j: int| 0 <= j < start.len() ==> fields@[j] == start[j],
            forall|j: int| 0 <= j < i ==> (#[trigger] fields@[start.len() + j])@ == items@[j]@,
        decreases items.len() - i,
    {
        fields.push(items[i].as_str());
        i = i + 1;
    }
}

/// Whether a registry lane matches the browser's free-text query.
pub fn extension_entry_matches_query(entry: &PendingExtensionEntry, query: &str) -> (r: bool)
    ensures
        r == matches_query(*entry, query@),
{
    let q = lowercase_chars(&trim_chars(&chars_of(query)));
    if q.len() == 0 {
        return true;
    }
    let mut fields: Vec<&str> = Vec::new();
    push_field(&mut fields, entry.entry_id.as_str());
    push_field(&mut fields, entry.status.as_str());
    push_field(&mut fields, entry.extension_kind.as_str());
    push_field(&mut fields, opt_or(&entry.family_id, ""));
    push_field(&mut fields, opt_or(&entry.tool_kind, ""));
    push_field(&mut fields, opt_or(&entry.patch_kind, ""));
    push_field(&mut fields, opt_or(&entry.archived_reason, ""));
    push_field(&mut fields, opt_or(&entry.proof_quality_status, ""));
    push_field(&mut fields, opt_or(&entry.proof_seed_template_id, ""));
    push_field(&mut fields, opt_or(&entry.proof_seed_bundle_id, ""));
    push_all(&mut fields, &entry.unresolved_layers);
    push_all(&mut fields, &entry.missing_family_build_primitive_classes);
    push_all(&mut fields, &entry.missing_patch_primitive_classes);
    push_all(&mut fields, &entry.missing_helper_primitive_kinds);
    let ghost fs = query_fields(*entry);
    assert(fields@.len() == fs.len());
    assert forall|j: int| 0 <= j < fs.len() implies (#[trigger] fields@[j])@ == fs[j] by {
        let n0 = 10int;
        let n1 = n0 + entry.unresolved_layers@.len();
        let n2 = n1 + entry.missing_family_build_primitive_classes@.len();
        let n3 = n2 + entry.missing_patch_primitive_classes@.len();
        if j >= n3 {
            assert(fields@[n3 + (j - n3)]@ == entry.missing_helper_primitive_kinds@[j - n3]@);
        } else if j >= n2 {
            assert(fields@[n2 + (j - n2)]@ == entry.missing_patch_primitive_classes@[j - n2]@);
        } else if j >= n1 {
            assert(fields@[n1 + (j - n1)]@
                == entry.missing_family_build_primitive_classes@[j - n1]@);
        } else if j >= n0 {
            assert(fields@[n0 + (j - n0)]@ == entry.unresolved_layers@[j - n0]@);
        }
    }
    let mut i: usize = 0;
    while i < fields.len()
        invariant
            i <= fields.len(),
            fs == query_fields(*entry),
            fields@.len() == fs.len(),
            forall|j: int| 0 <= j < fs.len() ==> (#[trigger] fields@[j])@ == fs[j],
            q@ == lowercase(trimmed(query@)),
            forall|j: int| 0 <= j < i ==> !has_sub(lowercase(#[trigger] fs[j]), q@),
        decreases fields.len() - i,
    {
        let field_lower = lowercase_chars(&chars_of(fields[i]));
        if chars_contain(&field_lower, &q) {
            assert(has_sub(lowercase(fs[i as int]), q@));
            assert(0 <= i < query_fields(*entry).len() && has_sub(
                lowercase(query_fields(*entry)[i as int]),
                lowercase(trimmed(query@)),
            ));
            return true;
        }
        i = i + 1;
    }
    false
}

/// Whether a lane passes the proof-quality filter.
pub open spec fn quality_matches(e: PendingExtensionEntry, f: ProofQualityFilter) -> bool {
    match f {
        ProofQualityFilter::All => true,
        ProofQualityFilter::Passing => is_kind(e, LaneKind::Proof) && is_text(
            e.proof_quality_status,
            "passing"@,
        ),
        ProofQualityFilter::RunnableDiverged => is_kind(e, LaneKind::Proof) && is_text(
            e.proof_quality_status,
            "runnable_diverged"@,
        ),
        ProofQualityFilter::CatalogResolved => is_kind(e, LaneKind::Proof) && is_text(
            e.proof_quality_status,
            "catalog_resolved"@,
        ),
        ProofQualityFilter::NeedsContractFix => is_kind(e, LaneKind::Proof) && is_text(
            e.proof_quality_status,
            "needs_contract_fix"@,
        ),
        ProofQualityFilter::Unknown => is_kind(e, LaneKind::Proof) && or_text(
            e.proof_quality_status,
            "unknown"@,
        ) == "unknown"@,
    }
}

/// Whether a lane passes the proof-quality filter.
pub fn proof_quality_matches(entry: &PendingExtensionEntry, filter: ProofQualityFilter) -> (r:
    bool)
    ensures
        r == quality_matches(*entry, filter),
{
    match filter {
        ProofQualityFilter::All => true,
        ProofQualityFilter::Passing => entry_is_kind(entry, LaneKind::Proof) && opt_is(
            &entry.proof_quality_status,
            "passing",
        ),
        ProofQualityFilter::RunnableDiverged => entry_is_kind(entry, LaneKind::Proof) && opt_is(
            &entry.proof_quality_status,
            "runnable_diverged",
        ),
        ProofQualityFilter::CatalogResolved => entry_is_kind(entry, LaneKind::Proof) && opt_is(
            &entry.proof_quality_status,
            "catalog_resolved",
        ),
        ProofQualityFilter::NeedsContractFix => entry_is_kind(entry, LaneKind::Proof) && opt_is(
            &entry.proof_quality_status,
            "needs_contract_fix",
        ),
        ProofQualityFilter::Unknown => entry_is_kind(entry, LaneKind::Proof) && text_eq(
            opt_or(&entry.proof_quality_status, "unknown"),
            "unknown",
        ),
    }
}

/// Whether a lane of kind `k` passes a baseline filter; `All` passes every lane.
pub open spec fn baseline_matches(e: PendingExtensionEntry, k: LaneKind, f: BaselineFilter) -> bool {
    let b = baseline_status(e, k);
    match f {
        BaselineFilter::All => true,
        BaselineFilter::Stable => is_kind(e, k) && is_text(b, stable_word(k)),
        BaselineFilter::Changed => is_kind(e, k) && (is_text(b, changed_word(k)) || is_text(
            b,
            "baseline_recorded"@,
        )),
        BaselineFilter::Regressed => is_kind(e, k) && is_text(b, regressed_word(k)),
        BaselineFilter::NoBaseline => is_kind(e, k) && is_text(b, no_baseline_word(k)),
        BaselineFilter::Unknown => is_kind(e, k) && or_text(b, "unknown"@) == "unknown"@,
    }
}

/// Whether a lane of kind `k` passes a baseline filter.
pub fn lane_baseline_matches(entry: &PendingExtensionEntry, k: LaneKind, filter: BaselineFilter) -> (r:
    bool)
    ensures
        r == baseline_matches(*entry, k, filter),
{
    let b = baseline_status_of(entry, k);
    match filter {
        BaselineFilter::All => true,
        BaselineFilter::Stable => entry_is_kind(entry, k) && opt_is(b, stable_word_exec(k)),
        BaselineFilter::Changed => entry_is_kind(entry, k) && (opt_is(b, changed_word_exec(k))
            || opt_is(b, "baseline_recorded")),
        BaselineFilter::Regressed => entry_is_kind(entry, k) && opt_is(b, regressed_word_exec(k)),
        BaselineFilter::NoBaseline => entry_is_kind(entry, k) && opt_is(
            b,
            no_baseline_word_exec(k),
        ),
        BaselineFilter::Unknown => entry_is_kind(entry, k) && text_eq(
            opt_or(b, "unknown"),
            "unknown",
        ),
    }
}

/// The proof-baseline filter (change since the last passing run).
pub fn proof_baseline_matches(entry: &PendingExtensionEntry, filter: BaselineFilter) -> (r: bool)
    ensures
        r == baseline_matches(*entry, LaneKind::Proof, filter),
{
    lane_baseline_matches(entry, LaneKind::Proof, filter)
}

/// The composition-baseline filter (change since the last live run).
pub fn composition_baseline_matches(entry: &PendingExtensionEntry, filter: BaselineFilter) -> (r:
    bool)
    ensures
        r == baseline_matches(*entry, LaneKind::Composition, filter),
{
    lane_baseline_matches(entry, LaneKind::Composition, filter)
}

/// The patch-baseline filter.
pub fn patch_baseline_matches(entry: &PendingExtensionEntry, filter: BaselineFilter) -> (r: bool)
    ensures
        r == baseline_matches(*entry, LaneKind::Patch, filter),
{
    lane_baseline_matches(entry, LaneKind::Patch, filter)
}

/// The helper-baseline filter.
pub fn helper_baseline_matches(entry: &PendingExtensionEntry, filter: BaselineFilter) -> (r: bool)
    ensures
        r == baseline_matches(*entry, LaneKind::Helper, filter),
{
    lane_baseline_matches(entry, LaneKind::Helper, filter)
}

/// The bridge-baseline filter.
pub fn bridge_baseline_matches(entry: &PendingExtensionEntry, filter: BaselineFilter) -> (r: bool)
    ensures
        r == baseline_matches(*entry, LaneKind::Bridge, filter),
{
    lane_baseline_matches(entry, LaneKind::Bridge, filter)
}

/// A lane is shown when it matches the query and every filter.
pub open spec fn matches_filters(
    e: PendingExtensionEntry,
    query: Seq<char>,
    quality: ProofQualityFilter,
    proof: BaselineFilter,
    composition: BaselineFilter,
    patch: BaselineFilter,
    helper: BaselineFilter,
    bridge: BaselineFilter,
) -> bool {
    &&& matches_query(e, query)
    &&& quality_matches(e, quality)
    &&& baseline_matches(e, LaneKind::Proof, proof)
    &&& baseline_matches(e, LaneKind::Composition, composition)
    &&& baseline_matches(e, LaneKind::Patch, patch)
    &&& baseline_matches(e, LaneKind::Helper, helper)
    &&& baseline_matches(e, LaneKind::Bridge, bridge)
}

/// Whether a lane passes the query and all the browser's filters.
pub fn extension_entry_matches_filters(
    entry: &PendingExtensionEntry,
    query: &str,
    proof_quality_filter: ProofQualityFilter,
    proof_baseline_filter: BaselineFilter,
    composition_baseline_filter: BaselineFilter,
    patch_baseline_filter: BaselineFilter,
    helper_baseline_filter: BaselineFilter,
    bridge_baseline_filter: BaselineFilter,
) -> (r: bool)
    ensures
        r == matches_filters(
            *entry,
            query@,
            proof_quality_filter,
            proof_baseline_filter,
            composition_baseline_filter,
            patch_baseline_filter,
            helper_baseline_filter,
            bridge_baseline_filter,
        ),
{
    extension_entry_matches_query(entry, query) && proof_quality_matches(
        entry,
        proof_quality_filter,
    ) && proof_baseline_matches(entry, proof_baseline_filter) && composition_baseline_matches(
        entry,
        composition_baseline_filter,
    ) && patch_baseline_matches(entry, patch_baseline_filter) && helper_baseline_matches(
        entry,
        helper_baseline_filter,
    ) && bridge_baseline_matches(entry, bridge_baseline_filter)
}

/// The `All` settings of every filter and an empty query show every lane.
pub proof fn lemma_unfiltered_shows_everything(e: PendingExtensionEntry, query: Seq<char>)
    requires
        trimmed(query).len() == 0,
    ensures
        matches_filters(
            e,
            query,
            ProofQualityFilter::All,
            BaselineFilter::All,
            BaselineFilter::All,
            BaselineFilter::All,
            BaselineFilter::All,
            BaselineFilter::All,
        ),
{
}

// ---------------------------------------------------------------------------
// Badges
// ---------------------------------------------------------------------------

/// Some(text) built from a literal.
pub open spec fn some_text(t: Seq<char>) -> Option<Seq<char>> {
    Some(t)
}

/// The view of an optional string.
pub open spec fn opt_view(o: Option<String>) -> Option<Seq<char>> {
    match o {
        Some(s) => Some(s@),
        None => None,
    }
}

/// The short quality label of a proof lane's quality status.
pub open spec fn quality_badge_text(q: Seq<char>) -> Seq<char> {
    if q == "passing"@ {
        "proof:passing"@
    } else if q == "runnable_diverged"@ {
        "proof:diverged"@
    } else if q == "catalog_resolved"@ {
        "proof:catalog"@
    } else if q == "needs_contract_fix"@ {
        "proof:fix"@
    } else {
        "proof:"@ + q
    }
}

/// The quality badge: proof lanes only.
pub fn proof_quality_badge(entry: &PendingExtensionEntry) -> (r: Option<String>)
    ensures
        opt_view(r) == if is_kind(*entry, LaneKind::Proof) {
            Some(quality_badge_text(or_text(entry.proof_quality_status, "unknown"@)))
        } else {
            None
        },
{
    if !entry_is_kind(entry, LaneKind::Proof) {
        return None;
    }
    let q = opt_or(&entry.proof_quality_status, "unknown");
    if text_eq(q, "passing") {
        Some(owned("proof:passing"))
    } else if text_eq(q, "runnable_diverged") {
        Some(owned("proof:diverged"))
    } else if text_eq(q, "catalog_resolved") {
        Some(owned("proof:catalog"))
    } else if text_eq(q, "needs_contract_fix") {
        Some(owned("proof:fix"))
    } else {
        let mut s = owned("proof:");
        push_str(&mut s, q);
        Some(s)
    }
}

/// The short baseline label of a lane kind's change-since-baseline status.
pub open spec fn baseline_badge_text(k: LaneKind, b: Seq<char>) -> Seq<char> {
    if b == stable_word(k) {
        badge_prefix(k) + "stable"@
    } else if b == changed_word(k) {
        badge_prefix(k) + "changed"@
    } else if b == regressed_word(k) {
        badge_prefix(k) + "regressed"@
    } else if b == "baseline_recorded"@ {
        badge_prefix(k) + "baseline"@
    } else if b == no_baseline_word(k) {
        badge_prefix(k) + "no-baseline"@
    } else {
        badge_prefix(k) + "baseline:"@ + b
    }
}

/// The baseline badge of a lane of kind `k`; other lanes get none.
pub open spec fn baseline_badge(e: PendingExtensionEntry, k: LaneKind) -> Option<Seq<char>> {
    if is_kind(e, k) {
        Some(baseline_badge_text(k, or_text(baseline_status(e, k), "unknown"@)))
    } else {
        None
    }
}

/// The baseline badge of a lane of kind `k`.
pub fn lane_baseline_badge(entry: &PendingExtensionEntry, k: LaneKind) -> (r: Option<String>)
    ensures
        opt_view(r) == baseline_badge(*entry, k),
{
    if !entry_is_kind(entry, k) {
        return None;
    }
    let b = opt_or(baseline_status_of(entry, k), "unknown");
    let mut s = owned(badge_prefix_exec(k));
    if text_eq(b, stable_word_exec(k)) {
        push_str(&mut s, "stable");
    } else if text_eq(b, changed_word_exec(k)) {
        push_str(&mut s, "changed");
    } else if text_eq(b, regressed_word_exec(k)) {
        push_str(&mut s, "regressed");
    } else if text_eq(b, "baseline_recorded") {
        push_str(&mut s, "baseline");
    } else if text_eq(b, no_baseline_word_exec(k)) {
        push_str(&mut s, "no-baseline");
    } else {
        push_str(&mut s, "baseline:");
        push_str(&mut s, b);
    }
    Some(s)
}

/// The short drift label of a lane kind's drift status. Composition lanes
/// know no "lightly customized" state and call structural customization "custom".
pub open spec fn drift_badge_text(k: LaneKind, d: Seq<char>) -> Seq<char> {
    if d == "seed_aligned"@ {
        badge_prefix(k) + "aligned"@
    } else if k != LaneKind::Composition && d == "lightly_customized"@ {
        badge_prefix(k) + "custom"@
    } else if d == "structurally_customized"@ {
        if k == LaneKind::Composition {
            badge_prefix(k) + "custom"@
        } else {
            badge_prefix(k) + "structural"@
        }
    } else if d == "drifted_risky"@ {
        badge_prefix(k) + "risky"@
    } else if d == "unseeded"@ {
        badge_prefix(k) + "unseeded"@
    } else {
        badge_prefix(k) + d
    }
}

/// The drift badge of a lane of kind `k`; other lanes get none.
pub open spec fn drift_badge(e: PendingExtensionEntry, k: LaneKind) -> Option<Seq<char>> {
    if is_kind(e, k) {
        Some(drift_badge_text(k, or_text(drift_status(e, k), "unknown"@)))
    } else {
        None
    }
}

/// The drift badge of a lane of kind `k`.
pub fn lane_drift_badge(entry: &PendingExtensionEntry, k: LaneKind) -> (r: Option<String>)
    ensures
        opt_view(r) == drift_badge(*entry, k),
{
    if !entry_is_kind(entry, k) {
        return None;
    }
    let d = opt_or(drift_status_of(entry, k), "unknown");
    let mut s = owned(badge_prefix_exec(k));
    if text_eq(d, "seed_aligned") {
        push_str(&mut s, "aligned");
    } else if k != LaneKind::Composition && text_eq(d, "lightly_customized") {
        push_str(&mut s, "custom");
    } else if text_eq(d, "structurally_customized") {
        if k == LaneKind::Composition {
            push_str(&mut s, "custom");
        } else {
            push_str(&mut s, "structural");
        }
    } else if text_eq(d, "drifted_risky") {
        push_str(&mut s, "risky");
    } else if text_eq(d, "unseeded") {
        push_str(&mut s, "unseeded");
    } else {
        push_str(&mut s, d);
    }
    Some(s)
}

/// The proof lane's baseline badge.
pub fn proof_baseline_badge(entry: &PendingExtensionEntry) -> (r: Option<String>)
    ensures
        opt_view(r) == baseline_badge(*entry, LaneKind::Proof),
{
    lane_baseline_badge(entry, LaneKind::Proof)
}

/// The composition lane's drift badge.
pub fn composition_drift_badge(entry: &PendingExtensionEntry) -> (r: Option<String>)
    ensures
        opt_view(r) == drift_badge(*entry, LaneKind::Composition),
{
    lane_drift_badge(entry, LaneKind::Composition)
}

/// The composition lane's baseline badge.
pub fn composition_baseline_badge(entry: &PendingExtensionEntry) -> (r: Option<String>)
    ensures
        opt_view(r) == baseline_badge(*entry, LaneKind::Composition),
{
    lane_baseline_badge(entry, LaneKind::Composition)
}

/// The patch lane's drift badge.
pub fn patch_drift_badge(entry: &PendingExtensionEntry) -> (r: Option<String>)
    ensures
        opt_view(r) == drift_badge(*entry, LaneKind::Patch),
{
    lane_drift_badge(entry, LaneKind::Patch)
}

/// The patch lane's baseline badge.
pub fn patch_baseline_badge(entry: &PendingExtensionEntry) -> (r: Option<String>)
    ensures
        opt_view(r) == baseline_badge(*entry, LaneKind::Patch),
{
    lane_baseline_badge(entry, LaneKind::Patch)
}

/// The helper lane's drift badge.
pub fn helper_drift_badge(entry: &PendingExtensionEntry) -> (r: Option<String>)
    ensures
        opt_view(r) == drift_badge(*entry, LaneKind::Helper),
{
    lane_drift_badge(entry, LaneKind::Helper)
}

/// The helper lane's baseline badge.
pub fn helper_baseline_badge(entry: &PendingExtensionEntry) -> (r: Option<String>)
    ensures
        opt_view(r) == baseline_badge(*entry, LaneKind::Helper),
{
    lane_baseline_badge(entry, LaneKind::Helper)
}

/// The bridge lane's drift badge.
pub fn bridge_drift_badge(entry: &PendingExtensionEntry) -> (r: Option<String>)
    ensures
        opt_view(r) == drift_badge(*entry, LaneKind::Bridge),
{
    lane_drift_badge(entry, LaneKind::Bridge)
}

/// The bridge lane's baseline badge.
pub fn bridge_baseline_badge(entry: &PendingExtensionEntry) -> (r: Option<String>)
    ensures
        opt_view(r) == baseline_badge(*entry, LaneKind::Bridge),
{
    lane_baseline_badge(entry, LaneKind::Bridge)
}

// ---------------------------------------------------------------------------
// Ranks
// ---------------------------------------------------------------------------

/// Position of a lifecycle status in the lane pipeline; unknown statuses last (99).
pub open spec fn status_rank(s: Seq<char>) -> nat {
    if s == "pending_implementation"@ {
        0
    } else if s == "implemented"@ {
        1
    } else if s == "validated_ready"@ {
        2
    } else if s == "promotion_prepared"@ {
        3
    } else if s == "apply_patch_ready"@ {
        4
    } else if s == "host_wired"@ {
        5
    } else if s == "fully_live"@ {
        6
    } else if s == "archived"@ {
        7
    } else {
        99
    }
}

/// The pipeline position of a lifecycle status.
pub fn extension_status_rank(status: &str) -> (r: usize)
    ensures
        r == status_rank(status@),
{
    if text_eq(status, "pending_implementation") {
        0
    } else if text_eq(status, "implemented") {
        1
    } else if text_eq(status, "validated_ready") {
        2
    } else if text_eq(status, "promotion_prepared") {
        3
    } else if text_eq(status, "apply_patch_ready") {
        4
    } else if text_eq(status, "host_wired") {
        5
    } else if text_eq(status, "fully_live") {
        6
    } else if text_eq(status, "archived") {
        7
    } else {
        99
    }
}

/// Risk of a change-since-baseline status for a lane kind: regressed first
/// (0), then changed, missing baseline, freshly recorded, stable, anything else (5).
pub open spec fn baseline_risk(k: LaneKind, b: Seq<char>) -> nat {
    if b == regressed_word(k) {
        0
    } else if b == changed_word(k) {
        1
    } else if b == no_baseline_word(k) {
        2
    } else if b == "baseline_recorded"@ {
        3
    } else if b == stable_word(k) {
        4
    } else {
        5
    }
}

/// Risk of a drift status for a lane kind: risky drift first (0), then
/// structural and light customization, seed-aligned, unseeded, anything else
/// (5). Composition lanes know no light customization.
pub open spec fn drift_risk(k: LaneKind, d: Seq<char>) -> nat {
    if d == "drifted_risky"@ {
        0
    } else if d == "structurally_customized"@ {
        1
    } else if k != LaneKind::Composition && d == "lightly_customized"@ {
        2
    } else if d == "seed_aligned"@ {
        3
    } else if d == "unseeded"@ {
        4
    } else {
        5
    }
}

/// The baseline risk of a lane of kind `k`.
pub fn lane_baseline_risk(entry: &PendingExtensionEntry, k: LaneKind) -> (r: usize)
    ensures
        r == baseline_risk(k, or_text(baseline_status(*entry, k), "unknown"@)),
{
    let b = opt_or(baseline_status_of(entry, k), "unknown");
    if text_eq(b, regressed_word_exec(k)) {
        0
    } else if text_eq(b, changed_word_exec(k)) {
        1
    } else if text_eq(b, no_baseline_word_exec(k)) {
        2
    } else if text_eq(b, "baseline_recorded") {
        3
    } else if text_eq(b, stable_word_exec(k)) {
        4
    } else {
        5
    }
}

/// The drift risk of a lane of kind `k`.
pub fn lane_drift_risk(entry: &PendingExtensionEntry, k: LaneKind) -> (r: usize)
    ensures
        r == drift_risk(k, or_text(drift_status(*entry, k), "unknown"@)),
{
    let d = opt_or(drift_status_of(entry, k), "unknown");
    if text_eq(d, "drifted_risky") {
        0
    } else if text_eq(d, "structurally_customized") {
        1
    } else if k != LaneKind::Composition && text_eq(d, "lightly_customized") {
        2
    } else if text_eq(d, "seed_aligned") {
        3
    } else if text_eq(d, "unseeded") {
        4
    } else {
        5
    }
}

/// Baseline risk of a proof lane; 99 for other lanes.
pub open spec fn proof_baseline_rank(e: PendingExtensionEntry) -> nat {
    if is_kind(e, LaneKind::Proof) {
        baseline_risk(LaneKind::Proof, or_text(e.proof_change_since_last_pass_status, "unknown"@))
    } else {
        99
    }
}

/// Drift risk of a proof lane; 99 for other lanes.
pub open spec fn proof_drift_rank(e: PendingExtensionEntry) -> nat {
    if is_kind(e, LaneKind::Proof) {
        drift_risk(LaneKind::Proof, or_text(e.proof_drift_status, "unknown"@))
    } else {
        99
    }
}

/// Baseline risk of a proof lane; 99 for other lanes.
pub fn proof_baseline_risk_rank(entry: &PendingExtensionEntry) -> (r: usize)
    ensures
        r == proof_baseline_rank(*entry),
{
    if !entry_is_kind(entry, LaneKind::Proof) {
        return 99;
    }
    lane_baseline_risk(entry, LaneKind::Proof)
}

/// Drift risk of a proof lane; 99 for other lanes.
pub fn proof_drift_risk_rank(entry: &PendingExtensionEntry) -> (r: usize)
    ensures
        r == proof_drift_rank(*entry),
{
    if !entry_is_kind(entry, LaneKind::Proof) {
        return 99;
    }
    lane_drift_risk(entry, LaneKind::Proof)
}

// ---------------------------------------------------------------------------
// Lineage, layers, governed artifacts, blockers
// ---------------------------------------------------------------------------

/// Where a proof lane stands relative to its seed template: the recorded
/// drift status when there is one, else derived from the seed and the patch kind.
pub open spec fn lineage_status(e: PendingExtensionEntry) -> Option<Seq<char>> {
    if !is_kind(e, LaneKind::Proof) {
        None
    } else if e.proof_drift_status is Some {
        opt_view(e.proof_drift_status)
    } else {
        match (e.proof_seed_template_id, e.patch_kind) {
            (Some(seed), Some(template)) => if seed@ == template@ {
                Some("seed-aligned"@)
            } else {
                Some("customized-from-seed"@)
            },
            (Some(_), None) => Some("seeded"@),
            _ => Some("unseeded"@),
        }
    }
}

/// The proof lane's lineage label.
pub fn proof_lineage_status(entry: &PendingExtensionEntry) -> (r: Option<String>)
    ensures
        opt_view(r) == lineage_status(*entry),
{
    if !entry_is_kind(entry, LaneKind::Proof) {
        return None;
    }
    if let Some(d) = &entry.proof_drift_status {
        return Some(owned(d.as_str()));
    }
    match (&entry.proof_seed_template_id, &entry.patch_kind) {
        (Some(seed), Some(template)) => {
            if text_eq(seed.as_str(), template.as_str()) {
                Some(owned("seed-aligned"))
            } else {
                Some(owned("customized-from-seed"))
            }
        },
        (Some(_), None) => Some(owned("seeded")),
        _ => Some(owned("unseeded")),
    }
}

/// `layers:none`, or `layers:` and the unresolved layers joined by `+`.
pub open spec fn layers_summary(e: PendingExtensionEntry) -> Seq<char> {
    if e.unresolved_layers@.len() == 0 {
        "layers:none"@
    } else {
        "layers:"@ + joined(views(e.unresolved_layers@), "+"@)
    }
}

/// The lane's unresolved-layer summary.
pub fn extension_layers_summary(entry: &PendingExtensionEntry) -> (r: String)
    ensures
        r@ == layers_summary(*entry),
{
    if entry.unresolved_layers.len() == 0 {
        owned("layers:none")
    } else {
        let mut s = owned("layers:");
        let j = crate::text::join_strings(&entry.unresolved_layers, "+");
        push_str(&mut s, j.as_str());
        s
    }
}

/// One of the integrated paths belongs to the operator registry's acceptance recipes.
pub open spec fn has_acceptance_path(paths: Seq<String>) -> bool {
    exists|i: int|
        0 <= i < paths.len() && has_sub((#[trigger] paths[i])@, "operator_registry"@) && has_sub(
            paths[i]@,
            "acceptance_recipes"@,
        )
}

/// What a lane's governed artifact set holds, for the four governed lane
/// kinds other than proof bundles.
pub open spec fn governed_artifact_summary(e: PendingExtensionEntry) -> Option<Seq<char>> {
    let n = decimal(e.integrated_paths@.len());
    if e.extension_kind@ == "composition_bundle"@ {
        Some(
            "Governed artifact set: "@ + n + " integrated artifact(s) across unresolved layers"@,
        )
    } else if e.extension_kind@ == "patch_recipe"@ {
        Some(
            "Governed artifact set: patch recipe"@ + if has_acceptance_path(e.integrated_paths@) {
                " plus paired acceptance contract"@
            } else {
                ""@
            },
        )
    } else if e.extension_kind@ == "helper_lane"@ {
        Some("Governed artifact set: "@ + n + " integrated helper artifact(s)"@)
    } else if e.extension_kind@ == "chattycog_bridge_lane"@ {
        Some("Governed artifact set: "@ + n + " integrated bridge artifact(s)"@)
    } else {
        None
    }
}

fn any_acceptance_path(paths: &Vec<String>) -> (r: bool)
    ensures
        r == has_acceptance_path(paths@),
{
    let a = chars_of("operator_registry");
    let b = chars_of("acceptance_recipes");
    let mut i: usize = 0;
    while i < paths.len()
        invariant
            i <= paths.len(),
            a@ == "operator_registry"@,
            b@ == "acceptance_recipes"@,
            forall|j: int|
                0 <= j < i ==> !(has_sub((#[trigger] paths@[j])@, "operator_registry"@)
                    && has_sub(paths@[j]@, "acceptance_recipes"@)),
        decreases paths.len() - i,
    {
        let p = chars_of(paths[i].as_str());
        if chars_contain(&p, &a) && chars_contain(&p, &b) {
            return true;
        }
        i = i + 1;
    }
    false
}

/// The governed artifact set summary of a lane.
pub fn extension_governed_artifact_set_summary(entry: &PendingExtensionEntry) -> (r: Option<
    String,
>)
    ensures
        opt_view(r) == governed_artifact_summary(*entry),
{
    let kind = entry.extension_kind.as_str();
    if text_eq(kind, "composition_bundle") {
        let mut s = owned("Governed artifact set: ");
        push_usize(&mut s, entry.integrated_paths.len());
        push_str(&mut s, " integrated artifact(s) across unresolved layers");
        Some(s)
    } else if text_eq(kind, "patch_recipe") {
        let mut s = owned("Governed artifact set: patch recipe");
        if any_acceptance_path(&entry.integrated_paths) {
            push_str(&mut s, " plus paired acceptance contract");
        } else {
            push_str(&mut s, "");
        }
        Some(s)
    } else if text_eq(kind, "helper_lane") {
        let mut s = owned("Governed artifact set: ");
        push_usize(&mut s, entry.integrated_paths.len());
        push_str(&mut s, " integrated helper artifact(s)");
        Some(s)
    } else if text_eq(kind, "chattycog_bridge_lane") {
        let mut s = owned("Governed artifact set: ");
        push_usize(&mut s, entry.integrated_paths.len());
        push_str(&mut s, " integrated bridge artifact(s)");
        Some(s)
    } else {
        None
    }
}

/// What still blocks a lane in each lifecycle status.
pub open spec fn status_blockers(status: Seq<char>) -> Seq<Seq<char>> {
    if status == "pending_implementation"@ {
        seq![
            "Implementation stub exists, but the lane logic is not marked implemented yet."@,
            "Next step: implement the lane scaffold before validation."@,
        ]
    } else if status == "implemented"@ {
        seq![
            "Implementation is marked in progress, but scaffold files have not been validated."@,
            "Next step: validate the scaffold and integrated files."@,
        ]
    } else if status == "validated_ready"@ {
        seq![
            "Lane files are validated, but promotion artifacts have not been prepared."@,
            "Next step: prepare promotion artifacts."@,
        ]
    } else if status == "promotion_prepared"@ {
        seq![
            "Promotion artifacts exist, but apply-patch templates have not been prepared."@,
            "Next step: prepare apply-patch templates."@,
        ]
    } else if status == "apply_patch_ready"@ {
        seq![
            "Apply-patch templates are ready, but the host has not wired them into the live Rust registry."@,
            "Next step: run host wiring."@,
        ]
    } else if status == "host_wired"@ {
        seq![
            "The host inserted compile-safe wiring, but the lane is not yet validated as fully live."@,
            "Next step: replace any placeholders and validate live."@,
        ]
    } else if status == "archived"@ {
        seq!["This lane is archived and no longer considered active work."@]
    } else if status == "fully_live"@ {
        seq!["No blockers. This lane is shipped."@]
    } else {
        seq!["Unknown lane status `"@ + status + "`. Inspect scaffold and notes."@]
    }
}

fn two_lines(a: &str, b: &str) -> (r: Vec<String>)
    ensures
        views(r@) == seq![a@, b@],
{
    let mut r: Vec<String> = Vec::new();
    r.push(owned(a));
    r.push(owned(b));
    assert(views(r@) =~= seq![a@, b@]);
    r
}

fn one_line(s: String) -> (r: Vec<String>)
    ensures
        views(r@) == seq![s@],
{
    let mut r: Vec<String> = Vec::new();
    r.push(s);
    assert(views(r@) =~= seq![s@]);
    r
}

/// The blockers shown for a lane's lifecycle status.
pub fn extension_status_blockers(entry: &PendingExtensionEntry) -> (r: Vec<String>)
    ensures
        views(r@) == status_blockers(entry.status@),
{
    let s = entry.status.as_str();
    if text_eq(s, "pending_implementation") {
        two_lines(
            "Implementation stub exists, but the lane logic is not marked implemented yet.",
            "Next step: implement the lane scaffold before validation.",
        )
    } else if text_eq(s, "implemented") {
        two_lines(
            "Implementation is marked in progress, but scaffold files have not been validated.",
            "Next step: validate the scaffold and integrated files.",
        )
    } else if text_eq(s, "validated_ready") {
        two_lines(
            "Lane files are validated, but promotion artifacts have not been prepared.",
            "Next step: prepare promotion artifacts.",
        )
    } else if text_eq(s, "promotion_prepared") {
        two_lines(
            "Promotion artifacts exist, but apply-patch templates have not been prepared.",
            "Next step: prepare apply-patch templates.",
        )
    } else if text_eq(s, "apply_patch_ready") {
        two_lines(
            "Apply-patch templates are ready, but the host has not wired them into the live Rust registry.",
            "Next step: run host wiring.",
        )
    } else if text_eq(s, "host_wired") {
        two_lines(
            "The host inserted compile-safe wiring, but the lane is not yet validated as fully live.",
            "Next step: replace any placeholders and validate live.",
        )
    } else if text_eq(s, "archived") {
        one_line(owned("This lane is archived and no longer considered active work."))
    } else if text_eq(s, "fully_live") {
        one_line(owned("No blockers. This lane is shipped."))
    } else {
        let mut m = owned("Unknown lane status `");
        push_str(&mut m, s);
        push_str(&mut m, "`. Inspect scaffold and notes.");
        one_line(m)
    }
}

// ---------------------------------------------------------------------------
// Registry-wide lookups and counts
// ---------------------------------------------------------------------------

/// Every lane of the registry: active, then fully live, then archived.
pub open spec fn all_entries(reg: HostExtensionRegistryView) -> Seq<PendingExtensionEntry> {
    reg.active_entries@ + reg.fully_live_entries@ + reg.archived_entries@
}

/// How many lanes of `s` are of kind `k` with change-since-baseline status `expected`.
pub open spec fn count_status(s: Seq<PendingExtensionEntry>, k: LaneKind, expected: Seq<char>) -> nat
    decreases s.len(),
{
    if s.len() == 0 {
        0
    } else {
        count_status(s.drop_last(), k, expected) + if is_kind(s.last(), k) && is_text(
            baseline_status(s.last(), k),
            expected,
        ) {
            1nat
        } else {
            0nat
        }
    }
}

proof fn lemma_count_status_append(
    a: Seq<PendingExtensionEntry>,
    b: Seq<PendingExtensionEntry>,
    k: LaneKind,
    expected: Seq<char>,
)
    ensures
        count_status(a + b, k, expected) == count_status(a, k, expected) + count_status(
            b,
            k,
            expected,
        ),
    decreases b.len(),
{
    if b.len() == 0 {
        assert(a + b =~= a);
    } else {
        lemma_count_status_append(a, b.drop_last(), k, expected);
        assert((a + b).drop_last() =~= a + b.drop_last());
    }
}

fn count_in(entries: &Vec<PendingExtensionEntry>, k: LaneKind, expected: &str) -> (r: usize)
    ensures
        r == count_status(entries@, k, expected@),
        r <= entries@.len(),
{
    let mut n: usize = 0;
    let mut i: usize = 0;
    while i < entries.len()
        invariant
            i <= entries.len(),
            n == count_status(entries@.subrange(0, i as int), k, expected@),
            n <= i,
        decreases entries.len() - i,
    {
        assert(entries@.subrange(0, i + 1).drop_last() =~= entries@.subrange(0, i as int));
        let e = &entries[i];
        if entry_is_kind(e, k) && opt_is(baseline_status_of(e, k), expected) {
            n = n + 1;
        }
        i = i + 1;
    }
    assert(entries@.subrange(0, entries.len() as int) =~= entries@);
    n
}

/// How many lanes of the whole registry are of kind `k` with change-since-baseline status `expected`.
pub fn count_lane_baseline_status(
    registry: &HostExtensionRegistryView,
    k: LaneKind,
    expected_status: &str,
) -> (r: usize)
    requires
        registry.active_entries@.len() + registry.fully_live_entries@.len()
            + registry.archived_entries@.len() <= usize::MAX,
    ensures
        r == count_status(all_entries(*registry), k, expected_status@),
{
    let a = count_in(&registry.active_entries, k, expected_status);
    let b = count_in(&registry.fully_live_entries, k, expected_status);
    let c = count_in(&registry.archived_entries, k, expected_status);
    proof {
        lemma_count_status_append(
            registry.active_entries@,
            registry.fully_live_entries@,
            k,
            expected_status@,
        );
        lemma_count_status_append(
            registry.active_entries@ + registry.fully_live_entries@,
            registry.archived_entries@,
            k,
            expected_status@,
        );
    }
    a + b + c
}

/// Proof lanes of the registry whose change since the last pass is `expected_status`.
pub fn count_proof_baseline_status(registry: &HostExtensionRegistryView, expected_status: &str) -> (r:
    usize)
    requires
        registry.active_entries@.len() + registry.fully_live_entries@.len()
            + registry.archived_entries@.len() <= usize::MAX,
    ensures
        r == count_status(all_entries(*registry), LaneKind::Proof, expected_status@),
{
    count_lane_baseline_status(registry, LaneKind::Proof, expected_status)
}

/// Composition lanes whose change since the last live run is `expected_status`.
pub fn count_composition_baseline_status(
    registry: &HostExtensionRegistryView,
    expected_status: &str,
) -> (r: usize)
    requires
        registry.active_entries@.len() + registry.fully_live_entries@.len()
            + registry.archived_entries@.len() <= usize::MAX,
    ensures
        r == count_status(all_entries(*registry), LaneKind::Composition, expected_status@),
{
    count_lane_baseline_status(registry, LaneKind::Composition, expected_status)
}

/// Patch lanes whose change since the last live run is `expected_status`.
pub fn count_patch_baseline_status(registry: &HostExtensionRegistryView, expected_status: &str) -> (r:
    usize)
    requires
        registry.active_entries@.len() + registry.fully_live_entries@.len()
            + registry.archived_entries@.len() <= usize::MAX,
    ensures
        r == count_status(all_entries(*registry), LaneKind::Patch, expected_status@),
{
    count_lane_baseline_status(registry, LaneKind::Patch, expected_status)
}

/// Helper lanes whose change since the last live run is `expected_status`.
pub fn count_helper_baseline_status(registry: &HostExtensionRegistryView, expected_status: &str) -> (r:
    usize)
    requires
        registry.active_entries@.len() + registry.fully_live_entries@.len()
            + registry.archived_entries@.len() <= usize::MAX,
    ensures
        r == count_status(all_entries(*registry), LaneKind::Helper, expected_status@),
{
    count_lane_baseline_status(registry, LaneKind::Helper, expected_status)
}

/// Bridge lanes whose change since the last live run is `expected_status`.
pub fn count_bridge_baseline_status(registry: &HostExtensionRegistryView, expected_status: &str) -> (r:
    usize)
    requires
        registry.active_entries@.len() + registry.fully_live_entries@.len()
            + registry.archived_entries@.len() <= usize::MAX,
    ensures
        r == count_status(all_entries(*registry), LaneKind::Bridge, expected_status@),
{
    count_lane_baseline_status(registry, LaneKind::Bridge, expected_status)
}

/// The index of the first lane of `s` with identity `id`, if any.
pub open spec fn first_with_id(s: Seq<PendingExtensionEntry>, id: Seq<char>, i: int) -> bool {
    0 <= i < s.len() && s[i].entry_id@ == id && forall|j: int|
        0 <= j < i ==> (#[trigger] s[j]).entry_id@ != id
}

/// The registry lane with identity `selected_id`: the first match among
/// active, then fully live, then archived lanes.
pub fn find_extension_entry<'a>(registry: &'a HostExtensionRegistryView, selected_id: &str) -> (r:
    Option<&'a PendingExtensionEntry>)
    ensures
        match r {
            Some(e) => exists|i: int| #[trigger]
                first_with_id(all_entries(*registry), selected_id@, i) && all_entries(
                    *registry,
                )[i] == *e,
            None => forall|i: int|
                0 <= i < all_entries(*registry).len() ==> (#[trigger] all_entries(
                    *registry,
                )[i]).entry_id@ != selected_id@,
        },
{
    let ghost all = all_entries(*registry);
    let ghost na = registry.active_entries@.len();
    let ghost nl = registry.fully_live_entries@.len();
    let mut i: usize = 0;
    while i < registry.active_entries.len()
        invariant
            i <= registry.active_entries.len(),
            all == all_entries(*registry),
            na == registry.active_entries@.len(),
            forall|j: int| 0 <= j < i ==> (#[trigger] all[j]).entry_id@ != selected_id@,
        decreases registry.active_entries.len() - i,
    {
        assert(all[i as int] == registry.active_entries@[i as int]);
        if text_eq(registry.active_entries[i].entry_id.as_str(), selected_id) {
            assert(first_with_id(all, selected_id@, i as int));
            return Some(&registry.active_entries[i]);
        }
        i = i + 1;
    }
    let mut i: usize = 0;
    while i < registry.fully_live_entries.len()
        invariant
            i <= registry.fully_live_entries.len(),
            all == all_entries(*registry),
            na == registry.active_entries@.len(),
            nl == registry.fully_live_entries@.len(),
            forall|j: int| 0 <= j < na + i ==> (#[trigger] all[j]).entry_id@ != selected_id@,
        decreases registry.fully_live_entries.len() - i,
    {
        assert(all[na + i] == registry.fully_live_entries@[i as int]);
        if text_eq(registry.fully_live_entries[i].entry_id.as_str(), selected_id) {
            assert(first_with_id(all, selected_id@, na + i));
            return Some(&registry.fully_live_entries[i]);
        }
        i = i + 1;
    }
    let mut i: usize = 0;
    while i < registry.archived_entries.len()
        invariant
            i <= registry.archived_entries.len(),
            all == all_entries(*registry),
            na == registry.active_entries@.len(),
            nl == registry.fully_live_entries@.len(),
            forall|j: int| 0 <= j < na + nl + i ==> (#[trigger] all[j]).entry_id@ != selected_id@,
        decreases registry.archived_entries.len() - i,
    {
        assert(all[na + nl + i] == registry.archived_entries@[i as int]);
        if text_eq(registry.archived_entries[i].entry_id.as_str(), selected_id) {
            assert(first_with_id(all, selected_id@, na + nl + i));
            return Some(&registry.archived_entries[i]);
        }
        i = i + 1;
    }
    None
}

} // verus!
