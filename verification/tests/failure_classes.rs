use chatty_factory::failure::{classify_failure, FailureClass};

#[test]
fn helper_contract_failures_classify_as_helper_wiring_failure() {
    let summary =
        "helper summary surface contract failed: 'helperSummaryStatusChip' missing from app.js";
    assert_eq!(classify_failure(summary), FailureClass::HelperWiringFailure);
}

#[test]
fn chattycog_contract_failures_classify_as_structured_generation_mismatch() {
    let summary = "chattycog bridge contract failed: missing bridge/status.json";
    assert_eq!(
        classify_failure(summary),
        FailureClass::StructuredCodeGenerationMismatch
    );
}

#[test]
fn chattyedu_contract_failures_classify_as_structured_generation_mismatch() {
    let summary =
        "chattyedu module contract failed: main.rs is missing the bridge env var contract";
    assert_eq!(
        classify_failure(summary),
        FailureClass::StructuredCodeGenerationMismatch
    );
}

#[test]
fn schema_mentions_win_over_every_other_rule() {
    assert_eq!(
        classify_failure("helper summary surface contract failed: SCHEMA mismatch"),
        FailureClass::InvalidMetadata
    );
    assert_eq!(classify_failure("bad Metadata block"), FailureClass::InvalidMetadata);
}

#[test]
fn each_failure_class_has_a_summary_that_selects_it() {
    assert_eq!(
        classify_failure("helper status snapshot at 'x' did not match"),
        FailureClass::HelperWiringFailure
    );
    assert_eq!(
        classify_failure("ChattyCog Visual Load Contract Failed: kind mismatch"),
        FailureClass::StructuredCodeGenerationMismatch
    );
    assert_eq!(
        classify_failure("path outside output root"),
        FailureClass::PolicyViolation
    );
    assert_eq!(
        classify_failure("missing expected file src/main.rs"),
        FailureClass::MissingExpectedFiles
    );
    assert_eq!(
        classify_failure("acceptance check 'x' failed: missing app.js"),
        FailureClass::MissingExpectedFiles
    );
    assert_eq!(
        classify_failure("No such file or directory"),
        FailureClass::MissingExpectedFiles
    );
    assert_eq!(
        classify_failure("python syntax error"),
        FailureClass::SyntaxFailure
    );
    assert_eq!(
        classify_failure("cargo check failed: could not compile"),
        FailureClass::BuildFailure
    );
    assert_eq!(classify_failure("something odd"), FailureClass::Unknown);
}
