//! Classification of a verification failure summary into a failure class.
use vstd::prelude::*;

use crate::text::{chars_contain, chars_of, has_prefix, has_sub, lowercase, lowercase_chars, occurs_at};

verus! {

/// The classes a failed build or acceptance check is sorted into.
#[derive(Debug, Clone, Copy, PartialEq, Eq, Structural)]
pub enum FailureClass {
    InvalidMetadata,
    HelperWiringFailure,
    StructuredCodeGenerationMismatch,
    PolicyViolation,
    MissingExpectedFiles,
    SyntaxFailure,
    BuildFailure,
    Unknown,
}

/// The class of a summary, given its ASCII-lowercased text: the first rule
/// that matches decides.
pub open spec fn failure_class_of(lower: Seq<char>) -> FailureClass {
    if has_sub(lower, "schema"@) || has_sub(lower, "metadata"@) {
        FailureClass::InvalidMetadata
    } else if has_sub(lower, "helper summary surface contract failed"@) || has_sub(
        lower,
        "helper processed"@,
    ) || has_sub(lower, "helper service spec"@) || has_sub(lower, "helper status snapshot"@)
        || has_sub(lower, "helper summary snapshot"@) {
        FailureClass::HelperWiringFailure
    } else if has_sub(lower, "chattycog module contract failed"@) || has_sub(
        lower,
        "chattycog visual load contract failed"@,
    ) || has_sub(lower, "chattycog bridge contract failed"@) || has_sub(
        lower,
        "chattyedu module contract failed"@,
    ) || has_sub(lower, "chattyedu visual load contract failed"@) {
        FailureClass::StructuredCodeGenerationMismatch
    } else if has_sub(lower, "policy"@) || has_sub(lower, "outside output root"@) || has_sub(
        lower,
        "safe relative path"@,
    ) {
        FailureClass::PolicyViolation
    } else if (has_sub(lower, "missing"@) && has_sub(lower, "file"@)) || (has_sub(
        lower,
        "acceptance check"@,
    ) && has_sub(lower, "missing"@)) || has_sub(lower, "no such file"@) {
        FailureClass::MissingExpectedFiles
    } else if has_sub(lower, "syntax"@) {
        FailureClass::SyntaxFailure
    } else if has_sub(lower, "build"@) || has_sub(lower, "compile"@) {
        FailureClass::BuildFailure
    } else {
        FailureClass::Unknown
    }
}

/// Whether the lowercased summary contains `needle`.
fn mentions(lower: &Vec<char>, needle: &str) -> (r: bool)
    ensures
        r == has_sub(lower@, needle@),
{
    chars_contain(lower, &chars_of(needle))
}

/// Sorts a failure summary into a class by case-insensitive keyword rules.
pub fn classify_failure(summary: &str) -> (c: FailureClass)
    ensures
        c == failure_class_of(lowercase(summary@)),
{
    let lower = lowercase_chars(&chars_of(summary));
    if mentions(&lower, "schema") || mentions(&lower, "metadata") {
        FailureClass::InvalidMetadata
    } else if mentions(&lower, "helper summary surface contract failed") || mentions(
        &lower,
        "helper processed",
    ) || mentions(&lower, "helper service spec") || mentions(&lower, "helper status snapshot")
        || mentions(&lower, "helper summary snapshot") {
        FailureClass::HelperWiringFailure
    } else if mentions(&lower, "chattycog module contract failed") || mentions(
        &lower,
        "chattycog visual load contract failed",
    ) || mentions(&lower, "chattycog bridge contract failed") || mentions(
        &lower,
        "chattyedu module contract failed",
    ) || mentions(&lower, "chattyedu visual load contract failed") {
        FailureClass::StructuredCodeGenerationMismatch
    } else if mentions(&lower, "policy") || mentions(&lower, "outside output root") || mentions(
        &lower,
        "safe relative path",
    ) {
        FailureClass::PolicyViolation
    } else if (mentions(&lower, "missing") && mentions(&lower, "file")) || (mentions(
        &lower,
        "acceptance check",
    ) && mentions(&lower, "missing")) || mentions(&lower, "no such file") {
        FailureClass::MissingExpectedFiles
    } else if mentions(&lower, "syntax") {
        FailureClass::SyntaxFailure
    } else if mentions(&lower, "build") || mentions(&lower, "compile") {
        FailureClass::BuildFailure
    } else {
        FailureClass::Unknown
    }
}

/// Classification ignores ASCII case: two summaries that agree up to ASCII
/// case fall into the same class.
pub proof fn lemma_classification_ignores_case(a: Seq<char>, b: Seq<char>)
    requires
        lowercase(a) == lowercase(b),
    ensures
        failure_class_of(lowercase(a)) == failure_class_of(lowercase(b)),
{
}

/// Lowercasing works piece by piece.
pub proof fn lemma_lowercase_concat(a: Seq<char>, b: Seq<char>)
    ensures
        lowercase(a + b) == lowercase(a) + lowercase(b),
{
    assert(lowercase(a + b) =~= lowercase(a) + lowercase(b));
}

/// A lowercase heading at the start of a summary is found in the summary's
/// lowercase text.
proof fn lemma_heading_found(heading: Seq<char>, summary: Seq<char>)
    requires
        lowercase(heading) == heading,
        has_prefix(summary, heading),
    ensures
        has_sub(lowercase(summary), heading),
{
    let rest = summary.subrange(heading.len() as int, summary.len() as int);
    assert(summary =~= heading + rest);
    lemma_lowercase_concat(heading, rest);
    let l = lowercase(summary);
    assert(l.subrange(0, heading.len() as int) =~= heading);
    assert(occurs_at(l, heading, 0));
}

/// Mentions that decide a class before the structured-contract rule does.
pub open spec fn mentions_earlier_rule(lower: Seq<char>) -> bool {
    has_sub(lower, "schema"@) || has_sub(lower, "metadata"@) || has_sub(
        lower,
        "helper summary surface contract failed"@,
    ) || has_sub(lower, "helper processed"@) || has_sub(lower, "helper service spec"@) || has_sub(
        lower,
        "helper status snapshot"@,
    ) || has_sub(lower, "helper summary snapshot"@)
}

/// A summary that opens with the failure heading of the helper summary
/// surface check is a helper wiring failure, unless it mentions a schema or
/// metadata.
pub proof fn lemma_helper_surface_failures_classify(summary: Seq<char>)
    requires
        has_prefix(summary, "helper summary surface contract failed"@),
        !has_sub(lowercase(summary), "schema"@),
        !has_sub(lowercase(summary), "metadata"@),
    ensures
        failure_class_of(lowercase(summary)) == FailureClass::HelperWiringFailure,
{
    let h = "helper summary surface contract failed"@;
    reveal_strlit("helper summary surface contract failed");
    assert(lowercase(h) =~= h);
    lemma_heading_found(h, summary);
}

/// The failure headings of the ChattyCog and ChattyEdu contract checks.
pub open spec fn is_structured_heading(h: Seq<char>) -> bool {
    h == "chattycog module contract failed"@ || h == "chattycog visual load contract failed"@
        || h == "chattycog bridge contract failed"@ || h == "chattyedu module contract failed"@
        || h == "chattyedu visual load contract failed"@
}

/// A summary that opens with the failure heading of a ChattyCog or ChattyEdu
/// contract check is a structured code generation mismatch, unless it
/// mentions something an earlier rule looks for (a schema, metadata, or a
/// helper check).
pub proof fn lemma_structured_failures_classify(heading: Seq<char>, summary: Seq<char>)
    requires
        is_structured_heading(heading),
        has_prefix(summary, heading),
        !mentions_earlier_rule(lowercase(summary)),
    ensures
        failure_class_of(lowercase(summary)) == FailureClass::StructuredCodeGenerationMismatch,
{
    reveal_strlit("chattycog module contract failed");
    reveal_strlit("chattycog visual load contract failed");
    reveal_strlit("chattycog bridge contract failed");
    reveal_strlit("chattyedu module contract failed");
    reveal_strlit("chattyedu visual load contract failed");
    assert(lowercase(heading) =~= heading);
    lemma_heading_found(heading, summary);
}

/// A summary that mentions any helper check (the summary surface failure
/// heading, "helper processed", a helper service spec, a helper status
/// snapshot or a helper summary snapshot), in any case, is a helper wiring
/// failure unless it mentions a schema or metadata.
pub proof fn lemma_helper_mentions_are_wiring_failures(summary: Seq<char>)
    requires
        has_sub(lowercase(summary), "helper summary surface contract failed"@)
            || has_sub(lowercase(summary), "helper processed"@)
            || has_sub(lowercase(summary), "helper service spec"@)
            || has_sub(lowercase(summary), "helper status snapshot"@)
            || has_sub(lowercase(summary), "helper summary snapshot"@),
        !has_sub(lowercase(summary), "schema"@),
        !has_sub(lowercase(summary), "metadata"@),
    ensures
        failure_class_of(lowercase(summary)) == FailureClass::HelperWiringFailure,
{
}

/// A summary that opens with "helper processed" (the heading of the
/// processed-files, preview, selection and output checks' failures) is a
/// helper wiring failure unless it mentions a schema or metadata.
pub proof fn lemma_helper_processed_failures_are_wiring_failures(summary: Seq<char>)
    requires
        has_prefix(summary, "helper processed"@),
        !has_sub(lowercase(summary), "schema"@),
        !has_sub(lowercase(summary), "metadata"@),
    ensures
        failure_class_of(lowercase(summary)) == FailureClass::HelperWiringFailure,
{
    let h = "helper processed"@;
    reveal_strlit("helper processed");
    assert(lowercase(h) =~= h);
    lemma_heading_found(h, summary);
    lemma_helper_mentions_are_wiring_failures(summary);
}

/// The classes by the first rule that matches, stated rule by rule: a
/// schema or metadata mention is invalid metadata; a policy, output-root or
/// safe-path mention is a policy violation unless an earlier rule applies;
/// "no such file", or "missing" with "file" or "acceptance check", is a
/// missing-file failure unless an earlier rule applies; then "syntax" is a
/// syntax failure, "build" or "compile" a build failure, and anything else
/// is unknown.
pub proof fn lemma_failure_rules_in_order(summary: Seq<char>)
    ensures
        ({
            let l = lowercase(summary);
            &&& has_sub(l, "schema"@) || has_sub(l, "metadata"@) ==> failure_class_of(l)
                == FailureClass::InvalidMetadata
            &&& !mentions_earlier_rule(l) && !mentions_structured_heading(l) && (has_sub(
                l,
                "policy"@,
            ) || has_sub(l, "outside output root"@) || has_sub(l, "safe relative path"@))
                ==> failure_class_of(l) == FailureClass::PolicyViolation
            &&& !mentions_earlier_rule(l) && !mentions_structured_heading(l) && !mentions_policy(l)
                && (has_sub(l, "no such file"@) || (has_sub(l, "missing"@) && (has_sub(l, "file"@)
                || has_sub(l, "acceptance check"@)))) ==> failure_class_of(l)
                == FailureClass::MissingExpectedFiles
            &&& !mentions_earlier_rule(l) && !mentions_structured_heading(l) && !mentions_policy(l)
                && !mentions_missing(l) && has_sub(l, "syntax"@) ==> failure_class_of(l)
                == FailureClass::SyntaxFailure
            &&& !mentions_earlier_rule(l) && !mentions_structured_heading(l) && !mentions_policy(l)
                && !mentions_missing(l) && !has_sub(l, "syntax"@) && (has_sub(l, "build"@)
                || has_sub(l, "compile"@)) ==> failure_class_of(l) == FailureClass::BuildFailure
            &&& !mentions_earlier_rule(l) && !mentions_structured_heading(l) && !mentions_policy(l)
                && !mentions_missing(l) && !has_sub(l, "syntax"@) && !has_sub(l, "build"@)
                && !has_sub(l, "compile"@) ==> failure_class_of(l) == FailureClass::Unknown
        }),
{
}

/// Mentions of a ChattyCog or ChattyEdu contract failure heading.
pub open spec fn mentions_structured_heading(l: Seq<char>) -> bool {
    has_sub(l, "chattycog module contract failed"@) || has_sub(
        l,
        "chattycog visual load contract failed"@,
    ) || has_sub(l, "chattycog bridge contract failed"@) || has_sub(
        l,
        "chattyedu module contract failed"@,
    ) || has_sub(l, "chattyedu visual load contract failed"@)
}

/// Mentions of a policy breach.
pub open spec fn mentions_policy(l: Seq<char>) -> bool {
    has_sub(l, "policy"@) || has_sub(l, "outside output root"@) || has_sub(l, "safe relative path"@)
}

/// Mentions of a missing file.
pub open spec fn mentions_missing(l: Seq<char>) -> bool {
    has_sub(l, "no such file"@) || (has_sub(l, "missing"@) && (has_sub(l, "file"@) || has_sub(
        l,
        "acceptance check"@,
    )))
}

} // verus!
