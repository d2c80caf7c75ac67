//! Cross-family paired proofs: template labels and history filters, the
//! comparison bundle a receipt is judged against, its required-capability
//! summary, the artifact count, the diff between two runs and the exported
//! Markdown summary.
use vstd::prelude::*;

use crate::extensions::{is_text, opt_is, opt_view, or_text};
use crate::search::{first_from, first_where, last_before, last_where};
use crate::text::{
    bool_text, decimal, is_blank, joined, join_strings, owned, push_bool, push_labeled, push_line,
    push_str, push_usize, text_eq, trimmed, views,
};

verus! {

/// A paired proof receipt: one shared request built by two families and compared.
pub struct CrossFamilyPairedProofReceiptSummary {
    pub receipt_id: String,
    pub proof_template_id: Option<String>,
    pub proof_template_kind: Option<String>,
    pub proof_template_display_label: Option<String>,
    pub capability_comparison_bundle_id: Option<String>,
    pub shared_request: String,
    pub left_request: String,
    pub right_request: String,
    pub left_project_name: String,
    pub left_composable_route_plan_path: Option<String>,
    pub left_primitive_execution_plan_path: Option<String>,
    pub right_project_name: String,
    pub right_composable_route_plan_path: Option<String>,
    pub right_primitive_execution_plan_path: Option<String>,
    pub comparison_receipt_path: String,
    pub equivalent_capability_fulfillment: bool,
    pub notes: Vec<String>,
    pub created_at: Option<String>,
}

/// A primitive proof template, as far as the proof panels read it.
pub struct PrimitiveProofTemplate {
    pub template_id: String,
    pub template_kind: String,
    pub display_label: String,
    pub description: String,
    /// The comparison bundle of the template's execution recipe.
    pub comparison_bundle_id: String,
}

/// A capability comparison bundle: the capability classes both sides must share.
pub struct CapabilityComparisonBundle {
    pub bundle_id: String,
    pub required_shared_capability_classes: Vec<String>,
}

/// The capability classes a comparison found shared by both sides.
pub struct CapabilityComparisonReceiptSummary {
    pub shared_capability_classes: Vec<String>,
}

/// One entry of the lane and proof activity timeline.
pub struct ExtensionActivityItem {
    pub entry_id: Option<String>,
    pub title: String,
    pub detail: String,
    pub success: bool,
    pub timestamp_label: String,
}

// ---------------------------------------------------------------------------
// Filters and labels
// ---------------------------------------------------------------------------

/// The proof history filter `all` shows every receipt; any other value
/// shows the receipts of that template.
pub fn proof_receipt_matches_filter(receipt: &CrossFamilyPairedProofReceiptSummary, filter: &str) -> (r:
    bool)
    ensures
        r == (filter@ == "all"@ || is_text(receipt.proof_template_id, filter@)),
{
    text_eq(filter, "all") || opt_is(&receipt.proof_template_id, filter)
}

/// `Custom` for the unsaved profile, else the profile's own name.
pub fn proof_profile_label(profile_name: &str) -> (r: String)
    ensures
        r@ == if profile_name@ == "custom"@ {
            "Custom"@
        } else {
            profile_name@
        },
{
    if text_eq(profile_name, "custom") {
        owned("Custom")
    } else {
        owned(profile_name)
    }
}

/// A template's display label, or `id (kind)` when the label is blank.
pub open spec fn template_label(t: PrimitiveProofTemplate) -> Seq<char> {
    if trimmed(t.display_label@).len() > 0 {
        t.display_label@
    } else {
        t.template_id@ + " ("@ + t.template_kind@ + ")"@
    }
}

/// The label of a proof template.
pub fn proof_template_label(template: &PrimitiveProofTemplate) -> (r: String)
    ensures
        r@ == template_label(*template),
{
    if !is_blank(template.display_label.as_str()) {
        owned(template.display_label.as_str())
    } else {
        let mut s = owned(template.template_id.as_str());
        push_str(&mut s, " (");
        push_str(&mut s, template.template_kind.as_str());
        push_str(&mut s, ")");
        s
    }
}

/// A template's description, or the generic one when it is blank.
pub fn proof_template_description(template: &PrimitiveProofTemplate) -> (r: &str)
    ensures
        r@ == if trimmed(template.description@).len() == 0 {
            "Runs a generalized primitive proof across the template's declared family pair."@
        } else {
            template.description@
        },
{
    if is_blank(template.description.as_str()) {
        "Runs a generalized primitive proof across the template's declared family pair."
    } else {
        template.description.as_str()
    }
}

/// The template with identity `id`.
pub open spec fn template_with_id(id: Seq<char>) -> spec_fn(PrimitiveProofTemplate) -> bool {
    |t: PrimitiveProofTemplate| t.template_id@ == id
}

/// Finds the first template with identity `id`.
pub fn find_template(templates: &Vec<PrimitiveProofTemplate>, id: &str) -> (r: Option<usize>)
    ensures
        match r {
            Some(i) => i < templates@.len() && first_where(templates@, template_with_id(id@))
                == Some(i as int),
            None => first_where(templates@, template_with_id(id@)) is None,
        },
{
    let mut i: usize = 0;
    while i < templates.len()
        invariant
            i <= templates.len(),
            first_where(templates@, template_with_id(id@)) == first_from(
                templates@,
                template_with_id(id@),
                i as int,
            ),
        decreases templates.len() - i,
    {
        if text_eq(templates[i].template_id.as_str(), id) {
            return Some(i);
        }
        i = i + 1;
    }
    None
}

/// `All Templates` for the filter `all`; else the label of the template the
/// filter names, or the filter itself when no template has that identity.
pub open spec fn history_filter_label(filter: Seq<char>, templates: Seq<PrimitiveProofTemplate>) -> Seq<
    char,
> {
    if filter == "all"@ {
        "All Templates"@
    } else {
        match first_where(templates, template_with_id(filter)) {
            Some(i) => template_label(templates[i]),
            None => filter,
        }
    }
}

/// The label of the proof history filter.
pub fn proof_history_filter_label(filter: &str, templates: &Vec<PrimitiveProofTemplate>) -> (r:
    String)
    ensures
        r@ == history_filter_label(filter@, templates@),
{
    if text_eq(filter, "all") {
        owned("All Templates")
    } else {
        match find_template(templates, filter) {
            Some(i) => proof_template_label(&templates[i]),
            None => owned(filter),
        }
    }
}

/// The template label a receipt shows: its recorded label when not blank;
/// else the label of the built-in template with its template identity;
/// else `id (kind)`, the id or the kind, as far as they are recorded.
pub open spec fn receipt_template_label(
    r: CrossFamilyPairedProofReceiptSummary,
    templates: Seq<PrimitiveProofTemplate>,
) -> Option<Seq<char>> {
    if r.proof_template_display_label is Some && trimmed(
        r.proof_template_display_label->0@,
    ).len() > 0 {
        Some(r.proof_template_display_label->0@)
    } else if r.proof_template_id is Some && first_where(
        templates,
        template_with_id(r.proof_template_id->0@),
    ) is Some {
        Some(
            template_label(
                templates[first_where(templates, template_with_id(r.proof_template_id->0@))->0],
            ),
        )
    } else {
        match (r.proof_template_id, r.proof_template_kind) {
            (Some(id), Some(kind)) => Some(id@ + " ("@ + kind@ + ")"@),
            (Some(id), None) => Some(id@),
            (None, Some(kind)) => Some(kind@),
            (None, None) => None,
        }
    }
}

/// The template label of a paired proof receipt, given the built-in templates.
pub fn proof_receipt_template_label(
    receipt: &CrossFamilyPairedProofReceiptSummary,
    templates: &Vec<PrimitiveProofTemplate>,
) -> (r: Option<String>)
    ensures
        opt_view(r) == receipt_template_label(*receipt, templates@),
{
    if let Some(label) = &receipt.proof_template_display_label {
        if !is_blank(label.as_str()) {
            return Some(owned(label.as_str()));
        }
    }
    if let Some(id) = &receipt.proof_template_id {
        if let Some(i) = find_template(templates, id.as_str()) {
            return Some(proof_template_label(&templates[i]));
        }
    }
    match (&receipt.proof_template_id, &receipt.proof_template_kind) {
        (Some(id), Some(kind)) => {
            let mut s = owned(id.as_str());
            push_str(&mut s, " (");
            push_str(&mut s, kind.as_str());
            push_str(&mut s, ")");
            Some(s)
        },
        (Some(id), None) => Some(owned(id.as_str())),
        (None, Some(kind)) => Some(owned(kind.as_str())),
        (None, None) => None,
    }
}

// ---------------------------------------------------------------------------
// Comparison bundles
// ---------------------------------------------------------------------------

/// The bundle with identity `id`.
pub open spec fn bundle_with_id(id: Seq<char>) -> spec_fn(CapabilityComparisonBundle) -> bool {
    |b: CapabilityComparisonBundle| b.bundle_id@ == id
}

/// Finds the first bundle with identity `id`.
pub fn find_bundle(bundles: &Vec<CapabilityComparisonBundle>, id: &str) -> (r: Option<usize>)
    ensures
        match r {
            Some(i) => i < bundles@.len() && first_where(bundles@, bundle_with_id(id@)) == Some(
                i as int,
            ),
            None => first_where(bundles@, bundle_with_id(id@)) is None,
        },
{
    let mut i: usize = 0;
    while i < bundles.len()
        invariant
            i <= bundles.len(),
            first_where(bundles@, bundle_with_id(id@)) == first_from(
                bundles@,
                bundle_with_id(id@),
                i as int,
            ),
        decreases bundles.len() - i,
    {
        if text_eq(bundles[i].bundle_id.as_str(), id) {
            return Some(i);
        }
        i = i + 1;
    }
    None
}

/// The comparison bundle of a template's execution recipe.
pub fn comparison_bundle_for_template<'a>(
    template: &PrimitiveProofTemplate,
    bundles: &'a Vec<CapabilityComparisonBundle>,
) -> (r: Option<&'a CapabilityComparisonBundle>)
    ensures
        match first_where(bundles@, bundle_with_id(template.comparison_bundle_id@)) {
            Some(i) => r == Some(&bundles@[i]),
            None => r is None,
        },
{
    match find_bundle(bundles, template.comparison_bundle_id.as_str()) {
        Some(i) => Some(&bundles[i]),
        None => None,
    }
}

/// The bundle identity a receipt is judged against: the one it records, else
/// the bundle of the built-in template it names.
pub open spec fn receipt_bundle_id(
    r: CrossFamilyPairedProofReceiptSummary,
    templates: Seq<PrimitiveProofTemplate>,
) -> Option<Seq<char>> {
    match r.capability_comparison_bundle_id {
        Some(b) => Some(b@),
        None => match r.proof_template_id {
            Some(t) => match first_where(templates, template_with_id(t@)) {
                Some(i) => Some(templates[i].comparison_bundle_id@),
                None => None,
            },
            None => None,
        },
    }
}

/// The index of the bundle a receipt is judged against, if any.
pub open spec fn receipt_bundle_index(
    r: CrossFamilyPairedProofReceiptSummary,
    bundles: Seq<CapabilityComparisonBundle>,
    templates: Seq<PrimitiveProofTemplate>,
) -> Option<int> {
    match receipt_bundle_id(r, templates) {
        Some(id) => first_where(bundles, bundle_with_id(id)),
        None => None,
    }
}

/// The comparison bundle of a paired proof receipt.
pub fn proof_receipt_comparison_bundle<'a>(
    receipt: &CrossFamilyPairedProofReceiptSummary,
    bundles: &'a Vec<CapabilityComparisonBundle>,
    templates: &Vec<PrimitiveProofTemplate>,
) -> (r: Option<&'a CapabilityComparisonBundle>)
    ensures
        match receipt_bundle_index(*receipt, bundles@, templates@) {
            Some(i) => r == Some(&bundles@[i]),
            None => r is None,
        },
{
    let id: &str = match &receipt.capability_comparison_bundle_id {
        Some(b) => b.as_str(),
        None => match &receipt.proof_template_id {
            Some(t) => match find_template(templates, t.as_str()) {
                Some(i) => templates[i].comparison_bundle_id.as_str(),
                None => {
                    return None;
                },
            },
            None => {
                return None;
            },
        },
    };
    match find_bundle(bundles, id) {
        Some(i) => Some(&bundles[i]),
        None => None,
    }
}

/// The list `items` includes the text `t`.
pub open spec fn lists(items: Seq<String>, t: Seq<char>) -> bool {
    exists|i: int| 0 <= i < items.len() && (#[trigger] items[i])@ == t
}

/// Whether `items` includes `t`.
pub fn list_includes(items: &Vec<String>, t: &str) -> (r: bool)
    ensures
        r == lists(items@, t@),
{
    let mut i: usize = 0;
    while i < items.len()
        invariant
            i <= items.len(),
            forall|j: int| 0 <= j < i ==> (#[trigger] items@[j])@ != t@,
        decreases items.len() - i,
    {
        if text_eq(items[i].as_str(), t) {
            return true;
        }
        i = i + 1;
    }
    false
}

/// Each required capability class, with whether the comparison found it shared.
pub fn required_bundle_status_lines(
    bundle: &CapabilityComparisonBundle,
    comparison_receipt: &CapabilityComparisonReceiptSummary,
) -> (r: Vec<(String, bool)>)
    ensures
        r@.len() == bundle.required_shared_capability_classes@.len(),
        forall|i: int|
            0 <= i < r@.len() ==> (#[trigger] r@[i]).0@
                == bundle.required_shared_capability_classes@[i]@ && r@[i].1 == lists(
                comparison_receipt.shared_capability_classes@,
                bundle.required_shared_capability_classes@[i]@,
            ),
{
    let req = &bundle.required_shared_capability_classes;
    let mut r: Vec<(String, bool)> = Vec::new();
    let mut i: usize = 0;
    while i < req.len()
        invariant
            i <= req.len(),
            r@.len() == i,
            forall|j: int|
                0 <= j < i ==> (#[trigger] r@[j]).0@ == req@[j]@ && r@[j].1 == lists(
                    comparison_receipt.shared_capability_classes@,
                    req@[j]@,
                ),
        decreases req.len() - i,
    {
        let shared = list_includes(&comparison_receipt.shared_capability_classes, req[i].as_str());
        r.push((owned(req[i].as_str()), shared));
        i = i + 1;
    }
    r
}

/// How many of the required classes are shared.
pub open spec fn satisfied_count(required: Seq<String>, shared: Seq<String>) -> nat
    decreases required.len(),
{
    if required.len() == 0 {
        0
    } else {
        satisfied_count(required.drop_last(), shared) + if lists(shared, required.last()@) {
            1nat
        } else {
            0nat
        }
    }
}

/// The required classes that are not shared, in order.
pub open spec fn missing_classes(required: Seq<String>, shared: Seq<String>) -> Seq<Seq<char>>
    decreases required.len(),
{
    if required.len() == 0 {
        Seq::empty()
    } else if lists(shared, required.last()@) {
        missing_classes(required.drop_last(), shared)
    } else {
        missing_classes(required.drop_last(), shared).push(required.last()@)
    }
}

/// `{satisfied}/{required} satisfied`, with `, missing: ...` when some are missing.
pub open spec fn bundle_summary(required: Seq<String>, shared: Seq<String>) -> Seq<char> {
    let head = decimal(satisfied_count(required, shared)) + "/"@ + decimal(required.len())
        + " satisfied"@;
    if missing_classes(required, shared).len() == 0 {
        head
    } else {
        head + ", missing: "@ + joined(missing_classes(required, shared), ", "@)
    }
}

/// The compact satisfaction summary of a bundle's required capabilities.
pub fn compact_required_bundle_summary(
    bundle: &CapabilityComparisonBundle,
    comparison_receipt: &CapabilityComparisonReceiptSummary,
) -> (r: String)
    ensures
        r@ == bundle_summary(
            bundle.required_shared_capability_classes@,
            comparison_receipt.shared_capability_classes@,
        ),
{
    let req = &bundle.required_shared_capability_classes;
    let shared = &comparison_receipt.shared_capability_classes;
    let mut satisfied: usize = 0;
    let mut missing: Vec<String> = Vec::new();
    let mut i: usize = 0;
    while i < req.len()
        invariant
            i <= req.len(),
            satisfied <= i,
            satisfied == satisfied_count(req@.subrange(0, i as int), shared@),
            views(missing@) == missing_classes(req@.subrange(0, i as int), shared@),
        decreases req.len() - i,
    {
        assert(req@.subrange(0, i + 1).drop_last() =~= req@.subrange(0, i as int));
        if list_includes(shared, req[i].as_str()) {
            satisfied = satisfied + 1;
        } else {
            let ghost before = missing@;
            missing.push(owned(req[i].as_str()));
            assert(views(missing@) =~= views(before).push(req@[i as int]@));
        }
        i = i + 1;
    }
    assert(req@.subrange(0, req.len() as int) =~= req@);
    let mut s = String::new();
    push_usize(&mut s, satisfied);
    push_str(&mut s, "/");
    push_usize(&mut s, req.len());
    push_str(&mut s, " satisfied");
    if missing.len() > 0 {
        push_str(&mut s, ", missing: ");
        let j = join_strings(&missing, ", ");
        push_str(&mut s, j.as_str());
    }
    s
}

/// Everything required is shared exactly when nothing is missing, and then
/// the satisfied count is the required count.
pub proof fn lemma_bundle_counts(required: Seq<String>, shared: Seq<String>)
    ensures
        satisfied_count(required, shared) + missing_classes(required, shared).len()
            == required.len(),
    decreases required.len(),
{
    if required.len() > 0 {
        lemma_bundle_counts(required.drop_last(), shared);
    }
}

/// The required-bundle line of a paired proof: no bundle, no comparison
/// receipt, or the compact summary.
pub fn paired_proof_required_bundle_summary(
    receipt: &CrossFamilyPairedProofReceiptSummary,
    comparison_bundles: &Vec<CapabilityComparisonBundle>,
    templates: &Vec<PrimitiveProofTemplate>,
    comparison_receipt: Option<&CapabilityComparisonReceiptSummary>,
) -> (r: String)
    ensures
        r@ == match receipt_bundle_index(*receipt, comparison_bundles@, templates@) {
            None => "No comparison bundle"@,
            Some(i) => match comparison_receipt {
                None => "Comparison receipt unavailable"@,
                Some(c) => bundle_summary(
                    comparison_bundles@[i].required_shared_capability_classes@,
                    c.shared_capability_classes@,
                ),
            },
        },
{
    match proof_receipt_comparison_bundle(receipt, comparison_bundles, templates) {
        None => owned("No comparison bundle"),
        Some(bundle) => match comparison_receipt {
            None => owned("Comparison receipt unavailable"),
            Some(c) => compact_required_bundle_summary(bundle, c),
        },
    }
}

// ---------------------------------------------------------------------------
// Receipts over time
// ---------------------------------------------------------------------------

/// The receipt (with its path) of template `id`.
pub open spec fn receipt_of_template(id: Seq<char>) -> spec_fn(
    (CrossFamilyPairedProofReceiptSummary, String),
) -> bool {
    |x: (CrossFamilyPairedProofReceiptSummary, String)| is_text(x.0.proof_template_id, id)
}

/// The newest receipt of a template among receipts listed newest first.
pub fn latest_proof_receipt_for_template<'a>(
    receipts: &'a Vec<(CrossFamilyPairedProofReceiptSummary, String)>,
    template_id: &str,
) -> (r: Option<&'a (CrossFamilyPairedProofReceiptSummary, String)>)
    ensures
        match first_where(receipts@, receipt_of_template(template_id@)) {
            Some(i) => r == Some(&receipts@[i]),
            None => r is None,
        },
{
    let mut i: usize = 0;
    while i < receipts.len()
        invariant
            i <= receipts.len(),
            first_where(receipts@, receipt_of_template(template_id@)) == first_from(
                receipts@,
                receipt_of_template(template_id@),
                i as int,
            ),
        decreases receipts.len() - i,
    {
        if opt_is(&receipts[i].0.proof_template_id, template_id) {
            return Some(&receipts[i]);
        }
        i = i + 1;
    }
    None
}

/// The activity item that concerns `id`.
pub open spec fn activity_about(id: Seq<char>) -> spec_fn(ExtensionActivityItem) -> bool {
    |a: ExtensionActivityItem| is_text(a.entry_id, id)
}

/// When a proof (or lane) was last touched: the timestamp of the newest
/// activity item about it.
pub fn latest_proof_last_touched(activity: &Vec<ExtensionActivityItem>, receipt_id: &str) -> (r:
    Option<String>)
    ensures
        opt_view(r) == match last_where(activity@, activity_about(receipt_id@)) {
            Some(i) => Some(activity@[i].timestamp_label@),
            None => None,
        },
{
    let mut n: usize = activity.len();
    while n > 0
        invariant
            n <= activity.len(),
            last_where(activity@, activity_about(receipt_id@)) == last_before(
                activity@,
                activity_about(receipt_id@),
                n as int,
            ),
        decreases n,
    {
        if opt_is(&activity[n - 1].entry_id, receipt_id) {
            return Some(owned(activity[n - 1].timestamp_label.as_str()));
        }
        n = n - 1;
    }
    None
}

/// How many artifacts a paired proof links: its own receipt, the comparison
/// receipt, and each recorded execution and route plan.
pub open spec fn artifact_count(r: CrossFamilyPairedProofReceiptSummary) -> nat {
    2 + (if r.left_primitive_execution_plan_path is Some {
        1nat
    } else {
        0nat
    }) + (if r.right_primitive_execution_plan_path is Some {
        1nat
    } else {
        0nat
    }) + (if r.left_composable_route_plan_path is Some {
        1nat
    } else {
        0nat
    }) + (if r.right_composable_route_plan_path is Some {
        1nat
    } else {
        0nat
    })
}

/// The number of artifacts a paired proof links (the receipt's own path
/// always counts).
pub fn paired_proof_artifact_count(
    receipt: &CrossFamilyPairedProofReceiptSummary,
    receipt_path: &str,
) -> (r: usize)
    ensures
        r == artifact_count(*receipt),
{
    let mut n: usize = 2;
    if receipt.left_primitive_execution_plan_path.is_some() {
        n = n + 1;
    }
    if receipt.right_primitive_execution_plan_path.is_some() {
        n = n + 1;
    }
    if receipt.left_composable_route_plan_path.is_some() {
        n = n + 1;
    }
    if receipt.right_composable_route_plan_path.is_some() {
        n = n + 1;
    }
    n
}

/// One line when `c` holds, none otherwise.
pub open spec fn line_if(c: bool, line: Seq<char>) -> Seq<Seq<char>> {
    if c {
        seq![line]
    } else {
        Seq::empty()
    }
}

/// The high-signal changes between two runs of a paired proof, or a line
/// saying there are none.
pub open spec fn proof_diff_lines(
    latest: CrossFamilyPairedProofReceiptSummary,
    previous: CrossFamilyPairedProofReceiptSummary,
) -> Seq<Seq<char>> {
    let lines = line_if(
        latest.equivalent_capability_fulfillment != previous.equivalent_capability_fulfillment,
        "Outcome changed: "@ + bool_text(previous.equivalent_capability_fulfillment) + " -> "@
            + bool_text(latest.equivalent_capability_fulfillment),
    ) + line_if(latest.shared_request@ != previous.shared_request@, "Shared request changed."@)
        + line_if(latest.left_request@ != previous.left_request@, "Left family request changed."@)
        + line_if(
        latest.right_request@ != previous.right_request@,
        "Right family request changed."@,
    ) + line_if(
        latest.left_project_name@ != previous.left_project_name@ || latest.right_project_name@
            != previous.right_project_name@,
        "Project pair changed: "@ + previous.left_project_name@ + " -> "@
            + latest.left_project_name@ + " / "@ + previous.right_project_name@ + " -> "@
            + latest.right_project_name@,
    ) + line_if(
        artifact_count(latest) != artifact_count(previous),
        "Linked artifact count changed: "@ + decimal(artifact_count(previous)) + " -> "@
            + decimal(artifact_count(latest)),
    ) + line_if(
        joined(views(latest.notes@), " | "@) != joined(views(previous.notes@), " | "@),
        "Proof notes changed."@,
    );
    if lines.len() == 0 {
        seq!["No high-signal proof summary changes detected."@]
    } else {
        lines
    }
}

/// The change lines between the latest and the previous run of a paired proof.
#[verifier::rlimit(40)]
pub fn build_paired_proof_diff_summary(
    latest: &CrossFamilyPairedProofReceiptSummary,
    latest_path: &str,
    previous: &CrossFamilyPairedProofReceiptSummary,
    previous_path: &str,
) -> (r: Vec<String>)
    ensures
        views(r@) == proof_diff_lines(*latest, *previous),
{
    let ghost l = *latest;
    let ghost p = *previous;
    let mut lines: Vec<String> = Vec::new();
    let ghost a0 = views(lines@);
    assert(a0 =~= Seq::<Seq<char>>::empty());
    let c1 = latest.equivalent_capability_fulfillment != previous.equivalent_capability_fulfillment;
    if c1 {
        let mut s = owned("Outcome changed: ");
        push_bool(&mut s, previous.equivalent_capability_fulfillment);
        push_str(&mut s, " -> ");
        push_bool(&mut s, latest.equivalent_capability_fulfillment);
        push_line(&mut lines, s);
    }
    let ghost t1 = "Outcome changed: "@ + bool_text(p.equivalent_capability_fulfillment) + " -> "@
        + bool_text(l.equivalent_capability_fulfillment);
    assert(views(lines@) =~= a0 + line_if(c1, t1));
    let ghost a1 = views(lines@);
    let c2 = !text_eq(latest.shared_request.as_str(), previous.shared_request.as_str());
    if c2 {
        push_line(&mut lines, owned("Shared request changed."));
    }
    assert(views(lines@) =~= a1 + line_if(c2, "Shared request changed."@));
    let ghost a2 = views(lines@);
    let c3 = !text_eq(latest.left_request.as_str(), previous.left_request.as_str());
    if c3 {
        push_line(&mut lines, owned("Left family request changed."));
    }
    assert(views(lines@) =~= a2 + line_if(c3, "Left family request changed."@));
    let ghost a3 = views(lines@);
    let c4 = !text_eq(latest.right_request.as_str(), previous.right_request.as_str());
    if c4 {
        push_line(&mut lines, owned("Right family request changed."));
    }
    assert(views(lines@) =~= a3 + line_if(c4, "Right family request changed."@));
    let ghost a4 = views(lines@);
    let c5 = !text_eq(latest.left_project_name.as_str(), previous.left_project_name.as_str())
        || !text_eq(latest.right_project_name.as_str(), previous.right_project_name.as_str());
    if c5 {
        let mut s = owned("Project pair changed: ");
        push_str(&mut s, previous.left_project_name.as_str());
        push_str(&mut s, " -> ");
        push_str(&mut s, latest.left_project_name.as_str());
        push_str(&mut s, " / ");
        push_str(&mut s, previous.right_project_name.as_str());
        push_str(&mut s, " -> ");
        push_str(&mut s, latest.right_project_name.as_str());
        push_line(&mut lines, s);
    }
    let ghost t5 = "Project pair changed: "@ + p.left_project_name@ + " -> "@
        + l.left_project_name@ + " / "@ + p.right_project_name@ + " -> "@
        + l.right_project_name@;
    assert(views(lines@) =~= a4 + line_if(c5, t5));
    let ghost a5 = views(lines@);
    let latest_artifacts = paired_proof_artifact_count(latest, latest_path);
    let previous_artifacts = paired_proof_artifact_count(previous, previous_path);
    let c6 = latest_artifacts != previous_artifacts;
    if c6 {
        let mut s = owned("Linked artifact count changed: ");
        push_usize(&mut s, previous_artifacts);
        push_str(&mut s, " -> ");
        push_usize(&mut s, latest_artifacts);
        push_line(&mut lines, s);
    }
    let ghost t6 = "Linked artifact count changed: "@ + decimal(artifact_count(p)) + " -> "@
        + decimal(artifact_count(l));
    assert(views(lines@) =~= a5 + line_if(c6, t6));
    let ghost a6 = views(lines@);
    let latest_notes = join_strings(&latest.notes, " | ");
    let previous_notes = join_strings(&previous.notes, " | ");
    let c7 = !text_eq(latest_notes.as_str(), previous_notes.as_str());
    if c7 {
        push_line(&mut lines, owned("Proof notes changed."));
    }
    assert(views(lines@) =~= a6 + line_if(c7, "Proof notes changed."@));
    proof {
        let e = Seq::<Seq<char>>::empty();
        assert(e + line_if(c1, t1) =~= line_if(c1, t1));
    }
    if lines.len() == 0 {
        push_line(&mut lines, owned("No high-signal proof summary changes detected."));
    }
    lines
}

/// Comparing a run with itself reports no change.
pub proof fn lemma_same_run_has_no_diff(r: CrossFamilyPairedProofReceiptSummary)
    ensures
        proof_diff_lines(r, r) == seq!["No high-signal proof summary changes detected."@],
{
    let e = Seq::<Seq<char>>::empty();
    assert(line_if(false, ""@) =~= e);
    assert(e + e + e + e + e + e + e =~= e);
}

// ---------------------------------------------------------------------------
// Markdown export
// ---------------------------------------------------------------------------

/// `prefix` followed by each item, as separate lines.
pub open spec fn prefixed(prefix: Seq<char>, items: Seq<Seq<char>>) -> Seq<Seq<char>> {
    Seq::new(items.len(), |i: int| prefix + items[i])
}

/// A line `label` + value for an optional value.
pub open spec fn line_for(label: Seq<char>, o: Option<String>) -> Seq<Seq<char>> {
    match o {
        Some(v) => seq![label + v@],
        None => Seq::empty(),
    }
}

/// The lines of a paired proof's Markdown summary.
pub open spec fn proof_summary_lines(
    r: CrossFamilyPairedProofReceiptSummary,
    receipt_path: Seq<char>,
    note: Option<String>,
) -> Seq<Seq<char>> {
    seq![
        "# Paired Proof Summary: "@ + r.receipt_id@,
        ""@,
        "- Shared request: "@ + r.shared_request@,
        "- Equivalent capability fulfillment: "@ + bool_text(r.equivalent_capability_fulfillment),
        "- Left project: "@ + r.left_project_name@,
        "- Right project: "@ + r.right_project_name@,
        "- Paired receipt: "@ + receipt_path,
        "- Comparison receipt: "@ + r.comparison_receipt_path@,
    ] + line_for("- Created: "@, r.created_at) + line_for(
        "- Left route plan: "@,
        r.left_composable_route_plan_path,
    ) + line_for("- Right route plan: "@, r.right_composable_route_plan_path) + line_for(
        "- Left primitive execution plan: "@,
        r.left_primitive_execution_plan_path,
    ) + line_for("- Right primitive execution plan: "@, r.right_primitive_execution_plan_path)
        + seq![
        ""@,
        "## Requests"@,
        "- Left request: "@ + r.left_request@,
        "- Right request: "@ + r.right_request@,
    ] + (if r.notes@.len() == 0 {
        Seq::empty()
    } else {
        seq![""@, "## Notes"@] + prefixed("- "@, views(r.notes@))
    }) + seq![""@, "## Proof Note"@, or_text(note, "(no note)"@)]
}

/// Appends `label` + the value as one line when the value is present.
pub fn push_opt_line(lines: &mut Vec<String>, label: &str, o: &Option<String>)
    ensures
        views(final(lines)@) == views(old(lines)@) + line_for(label@, *o),
{
    match o {
        Some(v) => {
            let mut s = owned(label);
            push_str(&mut s, v.as_str());
            push_line(lines, s);
        },
        None => {
            assert(views(lines@) =~= views(lines@) + Seq::<Seq<char>>::empty());
        },
    }
}

/// Appends `prefix` + item for each item.
pub fn push_prefixed(lines: &mut Vec<String>, prefix: &str, items: &Vec<String>)
    ensures
        views(final(lines)@) == views(old(lines)@) + prefixed(prefix@, views(items@)),
{
    let ghost start = views(lines@);
    let mut i: usize = 0;
    while i < items.len()
        invariant
            i <= items.len(),
            views(lines@) == start + prefixed(prefix@, views(items@.subrange(0, i as int))),
        decreases items.len() - i,
    {
        let mut s = owned(prefix);
        push_str(&mut s, items[i].as_str());
        push_line(lines, s);
        i = i + 1;
        assert(prefixed(prefix@, views(items@.subrange(0, i as int))) =~= prefixed(
            prefix@,
            views(items@.subrange(0, i - 1)),
        ).push(prefix@ + items@[i - 1]@));
    }
    assert(items@.subrange(0, items.len() as int) =~= items@);
}

/// The paired proof's Markdown summary, lines joined by newlines.
#[verifier::rlimit(40)]
pub fn build_paired_proof_summary_markdown(
    receipt: &CrossFamilyPairedProofReceiptSummary,
    receipt_path: &str,
    note: Option<String>,
) -> (r: String)
    ensures
        r@ == joined(proof_summary_lines(*receipt, receipt_path@, note), "\n"@),
{
    let ghost rc = *receipt;
    proof {
        reveal_strlit("");
    }
    let mut lines: Vec<String> = Vec::new();
    push_labeled(&mut lines, "# Paired Proof Summary: ", receipt.receipt_id.as_str());
    push_labeled(&mut lines, "", "");
    push_labeled(&mut lines, "- Shared request: ", receipt.shared_request.as_str());
    let mut s = owned("- Equivalent capability fulfillment: ");
    push_bool(&mut s, receipt.equivalent_capability_fulfillment);
    push_line(&mut lines, s);
    push_labeled(&mut lines, "- Left project: ", receipt.left_project_name.as_str());
    push_labeled(&mut lines, "- Right project: ", receipt.right_project_name.as_str());
    push_labeled(&mut lines, "- Paired receipt: ", receipt_path);
    push_labeled(&mut lines, "- Comparison receipt: ", receipt.comparison_receipt_path.as_str());
    let ghost head = views(lines@);
    assert(head =~= seq![
        "# Paired Proof Summary: "@ + rc.receipt_id@,
        ""@ + ""@,
        "- Shared request: "@ + rc.shared_request@,
        "- Equivalent capability fulfillment: "@ + bool_text(rc.equivalent_capability_fulfillment),
        "- Left project: "@ + rc.left_project_name@,
        "- Right project: "@ + rc.right_project_name@,
        "- Paired receipt: "@ + receipt_path@,
        "- Comparison receipt: "@ + rc.comparison_receipt_path@,
    ]);
    assert(""@ + ""@ =~= ""@);
    push_opt_line(&mut lines, "- Created: ", &receipt.created_at);
    push_opt_line(&mut lines, "- Left route plan: ", &receipt.left_composable_route_plan_path);
    push_opt_line(&mut lines, "- Right route plan: ", &receipt.right_composable_route_plan_path);
    push_opt_line(
        &mut lines,
        "- Left primitive execution plan: ",
        &receipt.left_primitive_execution_plan_path,
    );
    push_opt_line(
        &mut lines,
        "- Right primitive execution plan: ",
        &receipt.right_primitive_execution_plan_path,
    );
    let ghost opts = views(lines@);
    push_labeled(&mut lines, "", "");
    push_labeled(&mut lines, "", "## Requests");
    push_labeled(&mut lines, "- Left request: ", receipt.left_request.as_str());
    push_labeled(&mut lines, "- Right request: ", receipt.right_request.as_str());
    let ghost reqs = views(lines@);
    assert(reqs =~= opts + seq![
        ""@,
        "## Requests"@,
        "- Left request: "@ + rc.left_request@,
        "- Right request: "@ + rc.right_request@,
    ]);
    if receipt.notes.len() > 0 {
        push_labeled(&mut lines, "", "");
        push_labeled(&mut lines, "", "## Notes");
        push_prefixed(&mut lines, "- ", &receipt.notes);
        assert(views(lines@) =~= reqs + (seq![""@, "## Notes"@] + prefixed("- "@, views(rc.notes@))));
    } else {
        assert(views(lines@) =~= reqs + Seq::<Seq<char>>::empty());
    }
    let ghost notes = views(lines@);
    push_labeled(&mut lines, "", "");
    push_labeled(&mut lines, "", "## Proof Note");
    match note {
        Some(n) => push_line(&mut lines, n),
        None => push_line(&mut lines, owned("(no note)")),
    }
    assert(views(lines@) =~= notes + seq![""@, "## Proof Note"@, or_text(note, "(no note)"@)]);
    assert(views(lines@) =~= proof_summary_lines(rc, receipt_path@, note));
    join_strings(&lines, "\n")
}

} // verus!
