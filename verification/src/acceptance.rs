//! Acceptance plans: the checks a generated project must pass, what each
//! kind of check needs, and the messages of the checks on file contents and
//! command output.
use vstd::prelude::*;

use crate::surface::outcome;
use crate::text::{contains_text, has_sub, owned, push_str, text_eq};

verus! {

/// One acceptance check of a plan.
pub struct AcceptanceCheck {
    pub check_id: String,
    pub kind: String,
    pub target: String,
    pub expected: Option<String>,
}

/// The checks a generated project must pass, in order.
pub struct AcceptancePlan {
    pub checks: Vec<AcceptanceCheck>,
}

/// The kinds of acceptance check.
#[derive(Debug, Clone, Copy, PartialEq, Eq, Structural)]
pub enum AcceptanceCheckKind {
    Exists,
    Contains,
    PythonOutputContains,
    CargoCheck,
    CargoRunOutputContains,
    PythonRunSuccess,
    CargoRunSuccess,
    ChattyCogModuleContract,
    ChattyCogVisualLoadContract,
    ChattyCogBridgeContract,
    ChattyEduModuleContract,
    ChattyEduVisualLoadContract,
    HelperServiceSpec,
    HelperStatusSnapshot,
    HelperSummarySnapshot,
    HelperSummaryDiscoveredCount,
    HelperSummaryFilteredCount,
    HelperSummaryObservedLanes,
    HelperSummaryLaneRules,
    HelperSummaryFilteredFiles,
    HelperSummarySurfaceContract,
    HelperProcessedFilesSurfaceContract,
    HelperProcessedPreviewSurfaceContract,
    HelperProcessedSelectionSurfaceContract,
    HelperProcessedOutputContract,
    StaticDashboardHelperMonitoringSurfaceContract,
}

/// The kind a plan names, when it is a kind this library can run.
pub open spec fn kind_named(k: Seq<char>) -> Option<AcceptanceCheckKind> {
    if k == "exists"@ {
        Some(AcceptanceCheckKind::Exists)
    } else if k == "contains"@ {
        Some(AcceptanceCheckKind::Contains)
    } else if k == "python_output_contains"@ {
        Some(AcceptanceCheckKind::PythonOutputContains)
    } else if k == "cargo_check"@ {
        Some(AcceptanceCheckKind::CargoCheck)
    } else if k == "cargo_run_output_contains"@ {
        Some(AcceptanceCheckKind::CargoRunOutputContains)
    } else if k == "python_run_success"@ {
        Some(AcceptanceCheckKind::PythonRunSuccess)
    } else if k == "cargo_run_success"@ {
        Some(AcceptanceCheckKind::CargoRunSuccess)
    } else if k == "chattycog_module_contract"@ {
        Some(AcceptanceCheckKind::ChattyCogModuleContract)
    } else if k == "chattycog_visual_load_contract"@ {
        Some(AcceptanceCheckKind::ChattyCogVisualLoadContract)
    } else if k == "chattycog_bridge_contract"@ {
        Some(AcceptanceCheckKind::ChattyCogBridgeContract)
    } else if k == "chattyedu_module_contract"@ {
        Some(AcceptanceCheckKind::ChattyEduModuleContract)
    } else if k == "chattyedu_visual_load_contract"@ {
        Some(AcceptanceCheckKind::ChattyEduVisualLoadContract)
    } else if k == "helper_service_spec"@ {
        Some(AcceptanceCheckKind::HelperServiceSpec)
    } else if k == "helper_status_snapshot"@ {
        Some(AcceptanceCheckKind::HelperStatusSnapshot)
    } else if k == "helper_summary_snapshot"@ {
        Some(AcceptanceCheckKind::HelperSummarySnapshot)
    } else if k == "helper_summary_discovered_count"@ {
        Some(AcceptanceCheckKind::HelperSummaryDiscoveredCount)
    } else if k == "helper_summary_filtered_count"@ {
        Some(AcceptanceCheckKind::HelperSummaryFilteredCount)
    } else if k == "helper_summary_observed_lanes"@ {
        Some(AcceptanceCheckKind::HelperSummaryObservedLanes)
    } else if k == "helper_summary_lane_rules"@ {
        Some(AcceptanceCheckKind::HelperSummaryLaneRules)
    } else if k == "helper_summary_filtered_files"@ {
        Some(AcceptanceCheckKind::HelperSummaryFilteredFiles)
    } else if k == "helper_summary_surface_contract"@ {
        Some(AcceptanceCheckKind::HelperSummarySurfaceContract)
    } else if k == "helper_processed_files_surface_contract"@ {
        Some(AcceptanceCheckKind::HelperProcessedFilesSurfaceContract)
    } else if k == "helper_processed_preview_surface_contract"@ {
        Some(AcceptanceCheckKind::HelperProcessedPreviewSurfaceContract)
    } else if k == "helper_processed_selection_surface_contract"@ {
        Some(AcceptanceCheckKind::HelperProcessedSelectionSurfaceContract)
    } else if k == "helper_processed_output_contract"@ {
        Some(AcceptanceCheckKind::HelperProcessedOutputContract)
    } else if k == "static_dashboard_helper_monitoring_surface_contract"@ {
        Some(AcceptanceCheckKind::StaticDashboardHelperMonitoringSurfaceContract)
    } else {
        None
    }
}

/// The kinds that compare against an expected value and cannot run without one.
pub open spec fn needs_expected(k: AcceptanceCheckKind) -> bool {
    k == AcceptanceCheckKind::Contains || k == AcceptanceCheckKind::PythonOutputContains || k
        == AcceptanceCheckKind::CargoRunOutputContains
}

/// What a check is, before anything is run: its kind, or why it cannot run.
pub open spec fn planned(check: AcceptanceCheck) -> Result<AcceptanceCheckKind, Seq<char>> {
    match kind_named(check.kind@) {
        None => Err("unsupported acceptance check kind '"@ + check.kind@ + "'"@),
        Some(k) => if needs_expected(k) && check.expected is None {
            Err("check '"@ + check.check_id@ + "' missing expected value"@)
        } else {
            Ok(k)
        },
    }
}

/// Names the kind of a check: an unknown kind is an error, and so is a
/// comparing kind without an expected value.
pub fn plan_acceptance_check(check: &AcceptanceCheck) -> (r: Result<AcceptanceCheckKind, String>)
    ensures
        match r {
            Ok(k) => planned(*check) == Ok::<AcceptanceCheckKind, Seq<char>>(k),
            Err(m) => planned(*check) == Err::<AcceptanceCheckKind, Seq<char>>(m@),
        },
{
    let k = check.kind.as_str();
    let kind = if text_eq(k, "exists") {
        AcceptanceCheckKind::Exists
    } else if text_eq(k, "contains") {
        AcceptanceCheckKind::Contains
    } else if text_eq(k, "python_output_contains") {
        AcceptanceCheckKind::PythonOutputContains
    } else if text_eq(k, "cargo_check") {
        AcceptanceCheckKind::CargoCheck
    } else if text_eq(k, "cargo_run_output_contains") {
        AcceptanceCheckKind::CargoRunOutputContains
    } else if text_eq(k, "python_run_success") {
        AcceptanceCheckKind::PythonRunSuccess
    } else if text_eq(k, "cargo_run_success") {
        AcceptanceCheckKind::CargoRunSuccess
    } else if text_eq(k, "chattycog_module_contract") {
        AcceptanceCheckKind::ChattyCogModuleContract
    } else if text_eq(k, "chattycog_visual_load_contract") {
        AcceptanceCheckKind::ChattyCogVisualLoadContract
    } else if text_eq(k, "chattycog_bridge_contract") {
        AcceptanceCheckKind::ChattyCogBridgeContract
    } else if text_eq(k, "chattyedu_module_contract") {
        AcceptanceCheckKind::ChattyEduModuleContract
    } else if text_eq(k, "chattyedu_visual_load_contract") {
        AcceptanceCheckKind::ChattyEduVisualLoadContract
    } else if text_eq(k, "helper_service_spec") {
        AcceptanceCheckKind::HelperServiceSpec
    } else if text_eq(k, "helper_status_snapshot") {
        AcceptanceCheckKind::HelperStatusSnapshot
    } else if text_eq(k, "helper_summary_snapshot") {
        AcceptanceCheckKind::HelperSummarySnapshot
    } else if text_eq(k, "helper_summary_discovered_count") {
        AcceptanceCheckKind::HelperSummaryDiscoveredCount
    } else if text_eq(k, "helper_summary_filtered_count") {
        AcceptanceCheckKind::HelperSummaryFilteredCount
    } else if text_eq(k, "helper_summary_observed_lanes") {
        AcceptanceCheckKind::HelperSummaryObservedLanes
    } else if text_eq(k, "helper_summary_lane_rules") {
        AcceptanceCheckKind::HelperSummaryLaneRules
    } else if text_eq(k, "helper_summary_filtered_files") {
        AcceptanceCheckKind::HelperSummaryFilteredFiles
    } else if text_eq(k, "helper_summary_surface_contract") {
        AcceptanceCheckKind::HelperSummarySurfaceContract
    } else if text_eq(k, "helper_processed_files_surface_contract") {
        AcceptanceCheckKind::HelperProcessedFilesSurfaceContract
    } else if text_eq(k, "helper_processed_preview_surface_contract") {
        AcceptanceCheckKind::HelperProcessedPreviewSurfaceContract
    } else if text_eq(k, "helper_processed_selection_surface_contract") {
        AcceptanceCheckKind::HelperProcessedSelectionSurfaceContract
    } else if text_eq(k, "helper_processed_output_contract") {
        AcceptanceCheckKind::HelperProcessedOutputContract
    } else if text_eq(k, "static_dashboard_helper_monitoring_surface_contract") {
        AcceptanceCheckKind::StaticDashboardHelperMonitoringSurfaceContract
    } else {
        let mut m = owned("unsupported acceptance check kind '");
        push_str(&mut m, k);
        push_str(&mut m, "'");
        return Err(m);
    };
    let comparing = match kind {
        AcceptanceCheckKind::Contains => true,
        AcceptanceCheckKind::PythonOutputContains => true,
        AcceptanceCheckKind::CargoRunOutputContains => true,
        _ => false,
    };
    if comparing && check.expected.is_none() {
        let mut m = owned("check '");
        push_str(&mut m, check.check_id.as_str());
        push_str(&mut m, "' missing expected value");
        return Err(m);
    }
    Ok(kind)
}

/// An `exists` check: the target must exist.
pub open spec fn exists_result(check_id: Seq<char>, target: Seq<char>, found: bool) -> Result<
    (),
    Seq<char>,
> {
    if found {
        Ok(())
    } else {
        Err("acceptance check '"@ + check_id + "' failed: missing "@ + target)
    }
}

/// The outcome of an `exists` check, given whether the target was found.
pub fn verify_exists_check(check_id: &str, target: &str, found: bool) -> (r: Result<(), String>)
    ensures
        outcome(r) == exists_result(check_id@, target@, found),
{
    if found {
        Ok(())
    } else {
        let mut m = owned("acceptance check '");
        push_str(&mut m, check_id);
        push_str(&mut m, "' failed: missing ");
        push_str(&mut m, target);
        Err(m)
    }
}

/// A containment check: `text` (a file's contents, or a command's output)
/// must contain `expected`; the message names where it was looked for.
pub open spec fn contains_result(
    check_id: Seq<char>,
    expected: Seq<char>,
    text: Seq<char>,
    place: Seq<char>,
) -> Result<(), Seq<char>> {
    if has_sub(text, expected) {
        Ok(())
    } else {
        Err("acceptance check '"@ + check_id + "' failed: '"@ + expected + "' not found in "@ + place)
    }
}

/// The outcome of a containment check. `place` is the target for a file,
/// "python output" or "cargo output" for a command.
pub fn verify_contains_check(check_id: &str, expected: &str, text: &str, place: &str) -> (r: Result<
    (),
    String,
>)
    ensures
        outcome(r) == contains_result(check_id@, expected@, text@, place@),
{
    if contains_text(text, expected) {
        Ok(())
    } else {
        let mut m = owned("acceptance check '");
        push_str(&mut m, check_id);
        push_str(&mut m, "' failed: '");
        push_str(&mut m, expected);
        push_str(&mut m, "' not found in ");
        push_str(&mut m, place);
        Err(m)
    }
}

/// The name a plan writes for each kind of check.
pub open spec fn kind_name(k: AcceptanceCheckKind) -> Seq<char> {
    match k {
        AcceptanceCheckKind::Exists => "exists"@,
        AcceptanceCheckKind::Contains => "contains"@,
        AcceptanceCheckKind::PythonOutputContains => "python_output_contains"@,
        AcceptanceCheckKind::CargoCheck => "cargo_check"@,
        AcceptanceCheckKind::CargoRunOutputContains => "cargo_run_output_contains"@,
        AcceptanceCheckKind::PythonRunSuccess => "python_run_success"@,
        AcceptanceCheckKind::CargoRunSuccess => "cargo_run_success"@,
        AcceptanceCheckKind::ChattyCogModuleContract => "chattycog_module_contract"@,
        AcceptanceCheckKind::ChattyCogVisualLoadContract => "chattycog_visual_load_contract"@,
        AcceptanceCheckKind::ChattyCogBridgeContract => "chattycog_bridge_contract"@,
        AcceptanceCheckKind::ChattyEduModuleContract => "chattyedu_module_contract"@,
        AcceptanceCheckKind::ChattyEduVisualLoadContract => "chattyedu_visual_load_contract"@,
        AcceptanceCheckKind::HelperServiceSpec => "helper_service_spec"@,
        AcceptanceCheckKind::HelperStatusSnapshot => "helper_status_snapshot"@,
        AcceptanceCheckKind::HelperSummarySnapshot => "helper_summary_snapshot"@,
        AcceptanceCheckKind::HelperSummaryDiscoveredCount => "helper_summary_discovered_count"@,
        AcceptanceCheckKind::HelperSummaryFilteredCount => "helper_summary_filtered_count"@,
        AcceptanceCheckKind::HelperSummaryObservedLanes => "helper_summary_observed_lanes"@,
        AcceptanceCheckKind::HelperSummaryLaneRules => "helper_summary_lane_rules"@,
        AcceptanceCheckKind::HelperSummaryFilteredFiles => "helper_summary_filtered_files"@,
        AcceptanceCheckKind::HelperSummarySurfaceContract => "helper_summary_surface_contract"@,
        AcceptanceCheckKind::HelperProcessedFilesSurfaceContract => "helper_processed_files_surface_contract"@,
        AcceptanceCheckKind::HelperProcessedPreviewSurfaceContract => "helper_processed_preview_surface_contract"@,
        AcceptanceCheckKind::HelperProcessedSelectionSurfaceContract => "helper_processed_selection_surface_contract"@,
        AcceptanceCheckKind::HelperProcessedOutputContract => "helper_processed_output_contract"@,
        AcceptanceCheckKind::StaticDashboardHelperMonitoringSurfaceContract => "static_dashboard_helper_monitoring_surface_contract"@,
    }
}


proof fn lemma_name_names_kind(k: AcceptanceCheckKind)
    ensures
        kind_named(kind_name(k)) == Some(k),
{
    match k {
        AcceptanceCheckKind::Exists => {
            reveal_strlit("exists");
        },
        AcceptanceCheckKind::Contains => {
            reveal_strlit("contains");
            reveal_strlit("exists");
            assert("contains"@.len() != "exists"@.len());
        },
        AcceptanceCheckKind::PythonOutputContains => {
            reveal_strlit("python_output_contains");
            reveal_strlit("exists");
            assert("python_output_contains"@.len() != "exists"@.len());
            reveal_strlit("contains");
            assert("python_output_contains"@.len() != "contains"@.len());
        },
        AcceptanceCheckKind::CargoCheck => {
            reveal_strlit("cargo_check");
            reveal_strlit("exists");
            assert("cargo_check"@.len() != "exists"@.len());
            reveal_strlit("contains");
            assert("cargo_check"@.len() != "contains"@.len());
            reveal_strlit("python_output_contains");
            assert("cargo_check"@.len() != "python_output_contains"@.len());
        },
        AcceptanceCheckKind::CargoRunOutputContains => {
            reveal_strlit("cargo_run_output_contains");
            reveal_strlit("exists");
            assert("cargo_run_output_contains"@.len() != "exists"@.len());
            reveal_strlit("contains");
            assert("cargo_run_output_contains"@.len() != "contains"@.len());
            reveal_strlit("python_output_contains");
            assert("cargo_run_output_contains"@.len() != "python_output_contains"@.len());
            reveal_strlit("cargo_check");
            assert("cargo_run_output_contains"@.len() != "cargo_check"@.len());
        },
        AcceptanceCheckKind::PythonRunSuccess => {
            reveal_strlit("python_run_success");
            reveal_strlit("exists");
            assert("python_run_success"@.len() != "exists"@.len());
            reveal_strlit("contains");
            assert("python_run_success"@.len() != "contains"@.len());
            reveal_strlit("python_output_contains");
            assert("python_run_success"@.len() != "python_output_contains"@.len());
            reveal_strlit("cargo_check");
            assert("python_run_success"@.len() != "cargo_check"@.len());
            reveal_strlit("cargo_run_output_contains");
            assert("python_run_success"@.len() != "cargo_run_output_contains"@.len());
        },
        AcceptanceCheckKind::CargoRunSuccess => {
            reveal_strlit("cargo_run_success");
            reveal_strlit("exists");
            assert("cargo_run_success"@.len() != "exists"@.len());
            reveal_strlit("contains");
            assert("cargo_run_success"@.len() != "contains"@.len());
            reveal_strlit("python_output_contains");
            assert("cargo_run_success"@.len() != "python_output_contains"@.len());
            reveal_strlit("cargo_check");
            assert("cargo_run_success"@.len() != "cargo_check"@.len());
            reveal_strlit("cargo_run_output_contains");
            assert("cargo_run_success"@.len() != "cargo_run_output_contains"@.len());
            reveal_strlit("python_run_success");
            assert("cargo_run_success"@.len() != "python_run_success"@.len());
        },
        AcceptanceCheckKind::ChattyCogModuleContract => {
            reveal_strlit("chattycog_module_contract");
            reveal_strlit("exists");
            assert("chattycog_module_contract"@.len() != "exists"@.len());
            reveal_strlit("contains");
            assert("chattycog_module_contract"@.len() != "contains"@.len());
            reveal_strlit("python_output_contains");
            assert("chattycog_module_contract"@.len() != "python_output_contains"@.len());
            reveal_strlit("cargo_check");
            assert("chattycog_module_contract"@.len() != "cargo_check"@.len());
            reveal_strlit("cargo_run_output_contains");
            assert("chattycog_module_contract"@[1] != "cargo_run_output_contains"@[1]);
            reveal_strlit("python_run_success");
            assert("chattycog_module_contract"@.len() != "python_run_success"@.len());
            reveal_strlit("cargo_run_success");
            assert("chattycog_module_contract"@.len() != "cargo_run_success"@.len());
        },
        AcceptanceCheckKind::ChattyCogVisualLoadContract => {
            reveal_strlit("chattycog_visual_load_contract");
            reveal_strlit("exists");
            assert("chattycog_visual_load_contract"@.len() != "exists"@.len());
            reveal_strlit("contains");
            assert("chattycog_visual_load_contract"@.len() != "contains"@.len());
            reveal_strlit("python_output_contains");
            assert("chattycog_visual_load_contract"@.len() != "python_output_contains"@.len());
            reveal_strlit("cargo_check");
            assert("chattycog_visual_load_contract"@.len() != "cargo_check"@.len());
            reveal_strlit("cargo_run_output_contains");
            assert("chattycog_visual_load_contract"@.len() != "cargo_run_output_contains"@.len());
            reveal_strlit("python_run_success");
            assert("chattycog_visual_load_contract"@.len() != "python_run_success"@.len());
            reveal_strlit("cargo_run_success");
            assert("chattycog_visual_load_contract"@.len() != "cargo_run_success"@.len());
            reveal_strlit("chattycog_module_contract");
            assert("chattycog_visual_load_contract"@.len() != "chattycog_module_contract"@.len());
        },
        AcceptanceCheckKind::ChattyCogBridgeContract => {
            reveal_strlit("chattycog_bridge_contract");
            reveal_strlit("exists");
            assert("chattycog_bridge_contract"@.len() != "exists"@.len());
            reveal_strlit("contains");
            assert("chattycog_bridge_contract"@.len() != "contains"@.len());
            reveal_strlit("python_output_contains");
            assert("chattycog_bridge_contract"@.len() != "python_output_contains"@.len());
            reveal_strlit("cargo_check");
            assert("chattycog_bridge_contract"@.len() != "cargo_check"@.len());
            reveal_strlit("cargo_run_output_contains");
            assert("chattycog_bridge_contract"@[1] != "cargo_run_output_contains"@[1]);
            reveal_strlit("python_run_success");
            assert("chattycog_bridge_contract"@.len() != "python_run_success"@.len());
            reveal_strlit("cargo_run_success");
            assert("chattycog_bridge_contract"@.len() != "cargo_run_success"@.len());
            reveal_strlit("chattycog_module_contract");
            assert("chattycog_bridge_contract"@[10] != "chattycog_module_contract"@[10]);
            reveal_strlit("chattycog_visual_load_contract");
            assert("chattycog_bridge_contract"@.len() != "chattycog_visual_load_contract"@.len());
        },
        AcceptanceCheckKind::ChattyEduModuleContract => {
            reveal_strlit("chattyedu_module_contract");
            reveal_strlit("exists");
            assert("chattyedu_module_contract"@.len() != "exists"@.len());
            reveal_strlit("contains");
            assert("chattyedu_module_contract"@.len() != "contains"@.len());
            reveal_strlit("python_output_contains");
            assert("chattyedu_module_contract"@.len() != "python_output_contains"@.len());
            reveal_strlit("cargo_check");
            assert("chattyedu_module_contract"@.len() != "cargo_check"@.len());
            reveal_strlit("cargo_run_output_contains");
            assert("chattyedu_module_contract"@[1] != "cargo_run_output_contains"@[1]);
            reveal_strlit("python_run_success");
            assert("chattyedu_module_contract"@.len() != "python_run_success"@.len());
            reveal_strlit("cargo_run_success");
            assert("chattyedu_module_contract"@.len() != "cargo_run_success"@.len());
            reveal_strlit("chattycog_module_contract");
            assert("chattyedu_module_contract"@[6] != "chattycog_module_contract"@[6]);
            reveal_strlit("chattycog_visual_load_contract");
            assert("chattyedu_module_contract"@.len() != "chattycog_visual_load_contract"@.len());
            reveal_strlit("chattycog_bridge_contract");
            assert("chattyedu_module_contract"@[6] != "chattycog_bridge_contract"@[6]);
        },
        AcceptanceCheckKind::ChattyEduVisualLoadContract => {
            reveal_strlit("chattyedu_visual_load_contract");
            reveal_strlit("exists");
            assert("chattyedu_visual_load_contract"@.len() != "exists"@.len());
            reveal_strlit("contains");
            assert("chattyedu_visual_load_contract"@.len() != "contains"@.len());
            reveal_strlit("python_output_contains");
            assert("chattyedu_visual_load_contract"@.len() != "python_output_contains"@.len());
            reveal_strlit("cargo_check");
            assert("chattyedu_visual_load_contract"@.len() != "cargo_check"@.len());
            reveal_strlit("cargo_run_output_contains");
            assert("chattyedu_visual_load_contract"@.len() != "cargo_run_output_contains"@.len());
            reveal_strlit("python_run_success");
            assert("chattyedu_visual_load_contract"@.len() != "python_run_success"@.len());
            reveal_strlit("cargo_run_success");
            assert("chattyedu_visual_load_contract"@.len() != "cargo_run_success"@.len());
            reveal_strlit("chattycog_module_contract");
            assert("chattyedu_visual_load_contract"@.len() != "chattycog_module_contract"@.len());
            reveal_strlit("chattycog_visual_load_contract");
            assert("chattyedu_visual_load_contract"@[6] != "chattycog_visual_load_contract"@[6]);
            reveal_strlit("chattycog_bridge_contract");
            assert("chattyedu_visual_load_contract"@.len() != "chattycog_bridge_contract"@.len());
            reveal_strlit("chattyedu_module_contract");
            assert("chattyedu_visual_load_contract"@.len() != "chattyedu_module_contract"@.len());
        },
        AcceptanceCheckKind::HelperServiceSpec => {
            reveal_strlit("helper_service_spec");
            reveal_strlit("exists");
            assert("helper_service_spec"@.len() != "exists"@.len());
            reveal_strlit("contains");
            assert("helper_service_spec"@.len() != "contains"@.len());
            reveal_strlit("python_output_contains");
            assert("helper_service_spec"@.len() != "python_output_contains"@.len());
            reveal_strlit("cargo_check");
            assert("helper_service_spec"@.len() != "cargo_check"@.len());
            reveal_strlit("cargo_run_output_contains");
            assert("helper_service_spec"@.len() != "cargo_run_output_contains"@.len());
            reveal_strlit("python_run_success");
            assert("helper_service_spec"@.len() != "python_run_success"@.len());
            reveal_strlit("cargo_run_success");
            assert("helper_service_spec"@.len() != "cargo_run_success"@.len());
            reveal_strlit("chattycog_module_contract");
            assert("helper_service_spec"@.len() != "chattycog_module_contract"@.len());
            reveal_strlit("chattycog_visual_load_contract");
            assert("helper_service_spec"@.len() != "chattycog_visual_load_contract"@.len());
            reveal_strlit("chattycog_bridge_contract");
            assert("helper_service_spec"@.len() != "chattycog_bridge_contract"@.len());
            reveal_strlit("chattyedu_module_contract");
            assert("helper_service_spec"@.len() != "chattyedu_module_contract"@.len());
            reveal_strlit("chattyedu_visual_load_contract");
            assert("helper_service_spec"@.len() != "chattyedu_visual_load_contract"@.len());
        },
        AcceptanceCheckKind::HelperStatusSnapshot => {
            reveal_strlit("helper_status_snapshot");
            reveal_strlit("exists");
            assert("helper_status_snapshot"@.len() != "exists"@.len());
            reveal_strlit("contains");
            assert("helper_status_snapshot"@.len() != "contains"@.len());
            reveal_strlit("python_output_contains");
            assert("helper_status_snapshot"@[0] != "python_output_contains"@[0]);
            reveal_strlit("cargo_check");
            assert("helper_status_snapshot"@.len() != "cargo_check"@.len());
            reveal_strlit("cargo_run_output_contains");
            assert("helper_status_snapshot"@.len() != "cargo_run_output_contains"@.len());
            reveal_strlit("python_run_success");
            assert("helper_status_snapshot"@.len() != "python_run_success"@.len());
            reveal_strlit("cargo_run_success");
            assert("helper_status_snapshot"@.len() != "cargo_run_success"@.len());
            reveal_strlit("chattycog_module_contract");
            assert("helper_status_snapshot"@.len() != "chattycog_module_contract"@.len());
            reveal_strlit("chattycog_visual_load_contract");
            assert("helper_status_snapshot"@.len() != "chattycog_visual_load_contract"@.len());
            reveal_strlit("chattycog_bridge_contract");
            assert("helper_status_snapshot"@.len() != "chattycog_bridge_contract"@.len());
            reveal_strlit("chattyedu_module_contract");
            assert("helper_status_snapshot"@.len() != "chattyedu_module_contract"@.len());
            reveal_strlit("chattyedu_visual_load_contract");
            assert("helper_status_snapshot"@.len() != "chattyedu_visual_load_contract"@.len());
            reveal_strlit("helper_service_spec");
            assert("helper_status_snapshot"@.len() != "helper_service_spec"@.len());
        },
        AcceptanceCheckKind::HelperSummarySnapshot => {
            reveal_strlit("helper_summary_snapshot");
            reveal_strlit("exists");
            assert("helper_summary_snapshot"@.len() != "exists"@.len());
            reveal_strlit("contains");
            assert("helper_summary_snapshot"@.len() != "contains"@.len());
            reveal_strlit("python_output_contains");
            assert("helper_summary_snapshot"@.len() != "python_output_contains"@.len());
            reveal_strlit("cargo_check");
            assert("helper_summary_snapshot"@.len() != "cargo_check"@.len());
            reveal_strlit("cargo_run_output_contains");
            assert("helper_summary_snapshot"@.len() != "cargo_run_output_contains"@.len());
            reveal_strlit("python_run_success");
            assert("helper_summary_snapshot"@.len() != "python_run_success"@.len());
            reveal_strlit("cargo_run_success");
            assert("helper_summary_snapshot"@.len() != "cargo_run_success"@.len());
            reveal_strlit("chattycog_module_contract");
            assert("helper_summary_snapshot"@.len() != "chattycog_module_contract"@.len());
            reveal_strlit("chattycog_visual_load_contract");
            assert("helper_summary_snapshot"@.len() != "chattycog_visual_load_contract"@.len());
            reveal_strlit("chattycog_bridge_contract");
            assert("helper_summary_snapshot"@.len() != "chattycog_bridge_contract"@.len());
            reveal_strlit("chattyedu_module_contract");
            assert("helper_summary_snapshot"@.len() != "chattyedu_module_contract"@.len());
            reveal_strlit("chattyedu_visual_load_contract");
            assert("helper_summary_snapshot"@.len() != "chattyedu_visual_load_contract"@.len());
            reveal_strlit("helper_service_spec");
            assert("helper_summary_snapshot"@.len() != "helper_service_spec"@.len());
            reveal_strlit("helper_status_snapshot");
            assert("helper_summary_snapshot"@.len() != "helper_status_snapshot"@.len());
        },
        AcceptanceCheckKind::HelperSummaryDiscoveredCount => {
            reveal_strlit("helper_summary_discovered_count");
            reveal_strlit("exists");
            assert("helper_summary_discovered_count"@.len() != "exists"@.len());
            reveal_strlit("contains");
            assert("helper_summary_discovered_count"@.len() != "contains"@.len());
            reveal_strlit("python_output_contains");
            assert("helper_summary_discovered_count"@.len() != "python_output_contains"@.len());
            reveal_strlit("cargo_check");
            assert("helper_summary_discovered_count"@.len() != "cargo_check"@.len());
            reveal_strlit("cargo_run_output_contains");
            assert("helper_summary_discovered_count"@.len() != "cargo_run_output_contains"@.len());
            reveal_strlit("python_run_success");
            assert("helper_summary_discovered_count"@.len() != "python_run_success"@.len());
            reveal_strlit("cargo_run_success");
            assert("helper_summary_discovered_count"@.len() != "cargo_run_success"@.len());
            reveal_strlit("chattycog_module_contract");
            assert("helper_summary_discovered_count"@.len() != "chattycog_module_contract"@.len());
            reveal_strlit("chattycog_visual_load_contract");
            assert("helper_summary_discovered_count"@.len() != "chattycog_visual_load_contract"@.len());
            reveal_strlit("chattycog_bridge_contract");
            assert("helper_summary_discovered_count"@.len() != "chattycog_bridge_contract"@.len());
            reveal_strlit("chattyedu_module_contract");
            assert("helper_summary_discovered_count"@.len() != "chattyedu_module_contract"@.len());
            reveal_strlit("chattyedu_visual_load_contract");
            assert("helper_summary_discovered_count"@.len() != "chattyedu_visual_load_contract"@.len());
            reveal_strlit("helper_service_spec");
            assert("helper_summary_discovered_count"@.len() != "helper_service_spec"@.len());
            reveal_strlit("helper_status_snapshot");
            assert("helper_summary_discovered_count"@.len() != "helper_status_snapshot"@.len());
            reveal_strlit("helper_summary_snapshot");
            assert("helper_summary_discovered_count"@.len() != "helper_summary_snapshot"@.len());
        },
        AcceptanceCheckKind::HelperSummaryFilteredCount => {
            reveal_strlit("helper_summary_filtered_count");
            reveal_strlit("exists");
            assert("helper_summary_filtered_count"@.len() != "exists"@.len());
            reveal_strlit("contains");
            assert("helper_summary_filtered_count"@.len() != "contains"@.len());
            reveal_strlit("python_output_contains");
            assert("helper_summary_filtered_count"@.len() != "python_output_contains"@.len());
            reveal_strlit("cargo_check");
            assert("helper_summary_filtered_count"@.len() != "cargo_check"@.len());
            reveal_strlit("cargo_run_output_contains");
            assert("helper_summary_filtered_count"@.len() != "cargo_run_output_contains"@.len());
            reveal_strlit("python_run_success");
            assert("helper_summary_filtered_count"@.len() != "python_run_success"@.len());
            reveal_strlit("cargo_run_success");
            assert("helper_summary_filtered_count"@.len() != "cargo_run_success"@.len());
            reveal_strlit("chattycog_module_contract");
            assert("helper_summary_filtered_count"@.len() != "chattycog_module_contract"@.len());
            reveal_strlit("chattycog_visual_load_contract");
            assert("helper_summary_filtered_count"@.len() != "chattycog_visual_load_contract"@.len());
            reveal_strlit("chattycog_bridge_contract");
            assert("helper_summary_filtered_count"@.len() != "chattycog_bridge_contract"@.len());
            reveal_strlit("chattyedu_module_contract");
            assert("helper_summary_filtered_count"@.len() != "chattyedu_module_contract"@.len());
            reveal_strlit("chattyedu_visual_load_contract");
            assert("helper_summary_filtered_count"@.len() != "chattyedu_visual_load_contract"@.len());
            reveal_strlit("helper_service_spec");
            assert("helper_summary_filtered_count"@.len() != "helper_service_spec"@.len());
            reveal_strlit("helper_status_snapshot");
            assert("helper_summary_filtered_count"@.len() != "helper_status_snapshot"@.len());
            reveal_strlit("helper_summary_snapshot");
            assert("helper_summary_filtered_count"@.len() != "helper_summary_snapshot"@.len());
            reveal_strlit("helper_summary_discovered_count");
            assert("helper_summary_filtered_count"@.len() != "helper_summary_discovered_count"@.len());
        },
        AcceptanceCheckKind::HelperSummaryObservedLanes => {
            reveal_strlit("helper_summary_observed_lanes");
            reveal_strlit("exists");
            assert("helper_summary_observed_lanes"@.len() != "exists"@.len());
            reveal_strlit("contains");
            assert("helper_summary_observed_lanes"@.len() != "contains"@.len());
            reveal_strlit("python_output_contains");
            assert("helper_summary_observed_lanes"@.len() != "python_output_contains"@.len());
            reveal_strlit("cargo_check");
            assert("helper_summary_observed_lanes"@.len() != "cargo_check"@.len());
            reveal_strlit("cargo_run_output_contains");
            assert("helper_summary_observed_lanes"@.len() != "cargo_run_output_contains"@.len());
            reveal_strlit("python_run_success");
            assert("helper_summary_observed_lanes"@.len() != "python_run_success"@.len());
            reveal_strlit("cargo_run_success");
            assert("helper_summary_observed_lanes"@.len() != "cargo_run_success"@.len());
            reveal_strlit("chattycog_module_contract");
            assert("helper_summary_observed_lanes"@.len() != "chattycog_module_contract"@.len());
            reveal_strlit("chattycog_visual_load_contract");
            assert("helper_summary_observed_lanes"@.len() != "chattycog_visual_load_contract"@.len());
            reveal_strlit("chattycog_bridge_contract");
            assert("helper_summary_observed_lanes"@.len() != "chattycog_bridge_contract"@.len());
            reveal_strlit("chattyedu_module_contract");
            assert("helper_summary_observed_lanes"@.len() != "chattyedu_module_contract"@.len());
            reveal_strlit("chattyedu_visual_load_contract");
            assert("helper_summary_observed_lanes"@.len() != "chattyedu_visual_load_contract"@.len());
            reveal_strlit("helper_service_spec");
            assert("helper_summary_observed_lanes"@.len() != "helper_service_spec"@.len());
            reveal_strlit("helper_status_snapshot");
            assert("helper_summary_observed_lanes"@.len() != "helper_status_snapshot"@.len());
            reveal_strlit("helper_summary_snapshot");
            assert("helper_summary_observed_lanes"@.len() != "helper_summary_snapshot"@.len());
            reveal_strlit("helper_summary_discovered_count");
            assert("helper_summary_observed_lanes"@.len() != "helper_summary_discovered_count"@.len());
            reveal_strlit("helper_summary_filtered_count");
            assert("helper_summary_observed_lanes"@[15] != "helper_summary_filtered_count"@[15]);
        },
        AcceptanceCheckKind::HelperSummaryLaneRules => {
            reveal_strlit("helper_summary_lane_rules");
            reveal_strlit("exists");
            assert("helper_summary_lane_rules"@.len() != "exists"@.len());
            reveal_strlit("contains");
            assert("helper_summary_lane_rules"@.len() != "contains"@.len());
            reveal_strlit("python_output_contains");
            assert("helper_summary_lane_rules"@.len() != "python_output_contains"@.len());
            reveal_strlit("cargo_check");
            assert("helper_summary_lane_rules"@.len() != "cargo_check"@.len());
            reveal_strlit("cargo_run_output_contains");
            assert("helper_summary_lane_rules"@[0] != "cargo_run_output_contains"@[0]);
            reveal_strlit("python_run_success");
            assert("helper_summary_lane_rules"@.len() != "python_run_success"@.len());
            reveal_strlit("cargo_run_success");
            assert("helper_summary_lane_rules"@.len() != "cargo_run_success"@.len());
            reveal_strlit("chattycog_module_contract");
            assert("helper_summary_lane_rules"@[0] != "chattycog_module_contract"@[0]);
            reveal_strlit("chattycog_visual_load_contract");
            assert("helper_summary_lane_rules"@.len() != "chattycog_visual_load_contract"@.len());
            reveal_strlit("chattycog_bridge_contract");
            assert("helper_summary_lane_rules"@[0] != "chattycog_bridge_contract"@[0]);
            reveal_strlit("chattyedu_module_contract");
            assert("helper_summary_lane_rules"@[0] != "chattyedu_module_contract"@[0]);
            reveal_strlit("chattyedu_visual_load_contract");
            assert("helper_summary_lane_rules"@.len() != "chattyedu_visual_load_contract"@.len());
            reveal_strlit("helper_service_spec");
            assert("helper_summary_lane_rules"@.len() != "helper_service_spec"@.len());
            reveal_strlit("helper_status_snapshot");
            assert("helper_summary_lane_rules"@.len() != "helper_status_snapshot"@.len());
            reveal_strlit("helper_summary_snapshot");
            assert("helper_summary_lane_rules"@.len() != "helper_summary_snapshot"@.len());
            reveal_strlit("helper_summary_discovered_count");
            assert("helper_summary_lane_rules"@.len() != "helper_summary_discovered_count"@.len());
            reveal_strlit("helper_summary_filtered_count");
            assert("helper_summary_lane_rules"@.len() != "helper_summary_filtered_count"@.len());
            reveal_strlit("helper_summary_observed_lanes");
            assert("helper_summary_lane_rules"@.len() != "helper_summary_observed_lanes"@.len());
        },
        AcceptanceCheckKind::HelperSummaryFilteredFiles => {
            reveal_strlit("helper_summary_filtered_files");
            reveal_strlit("exists");
            assert("helper_summary_filtered_files"@.len() != "exists"@.len());
            reveal_strlit("contains");
            assert("helper_summary_filtered_files"@.len() != "contains"@.len());
            reveal_strlit("python_output_contains");
            assert("helper_summary_filtered_files"@.len() != "python_output_contains"@.len());
            reveal_strlit("cargo_check");
            assert("helper_summary_filtered_files"@.len() != "cargo_check"@.len());
            reveal_strlit("cargo_run_output_contains");
            assert("helper_summary_filtered_files"@.len() != "cargo_run_output_contains"@.len());
            reveal_strlit("python_run_success");
            assert("helper_summary_filtered_files"@.len() != "python_run_success"@.len());
            reveal_strlit("cargo_run_success");
            assert("helper_summary_filtered_files"@.len() != "cargo_run_success"@.len());
            reveal_strlit("chattycog_module_contract");
            assert("helper_summary_filtered_files"@.len() != "chattycog_module_contract"@.len());
            reveal_strlit("chattycog_visual_load_contract");
            assert("helper_summary_filtered_files"@.len() != "chattycog_visual_load_contract"@.len());
            reveal_strlit("chattycog_bridge_contract");
            assert("helper_summary_filtered_files"@.len() != "chattycog_bridge_contract"@.len());
            reveal_strlit("chattyedu_module_contract");
            assert("helper_summary_filtered_files"@.len() != "chattyedu_module_contract"@.len());
            reveal_strlit("chattyedu_visual_load_contract");
            assert("helper_summary_filtered_files"@.len() != "chattyedu_visual_load_contract"@.len());
            reveal_strlit("helper_service_spec");
            assert("helper_summary_filtered_files"@.len() != "helper_service_spec"@.len());
            reveal_strlit("helper_status_snapshot");
            assert("helper_summary_filtered_files"@.len() != "helper_status_snapshot"@.len());
            reveal_strlit("helper_summary_snapshot");
            assert("helper_summary_filtered_files"@.len() != "helper_summary_snapshot"@.len());
            reveal_strlit("helper_summary_discovered_count");
            assert("helper_summary_filtered_files"@.len() != "helper_summary_discovered_count"@.len());
            reveal_strlit("helper_summary_filtered_count");
            assert("helper_summary_filtered_files"@[24] != "helper_summary_filtered_count"@[24]);
            reveal_strlit("helper_summary_observed_lanes");
            assert("helper_summary_filtered_files"@[15] != "helper_summary_observed_lanes"@[15]);
            reveal_strlit("helper_summary_lane_rules");
            assert("helper_summary_filtered_files"@.len() != "helper_summary_lane_rules"@.len());
        },
        AcceptanceCheckKind::HelperSummarySurfaceContract => {
            reveal_strlit("helper_summary_surface_contract");
            reveal_strlit("exists");
            assert("helper_summary_surface_contract"@.len() != "exists"@.len());
            reveal_strlit("contains");
            assert("helper_summary_surface_contract"@.len() != "contains"@.len());
            reveal_strlit("python_output_contains");
            assert("helper_summary_surface_contract"@.len() != "python_output_contains"@.len());
            reveal_strlit("cargo_check");
            assert("helper_summary_surface_contract"@.len() != "cargo_check"@.len());
            reveal_strlit("cargo_run_output_contains");
            assert("helper_summary_surface_contract"@.len() != "cargo_run_output_contains"@.len());
            reveal_strlit("python_run_success");
            assert("helper_summary_surface_contract"@.len() != "python_run_success"@.len());
            reveal_strlit("cargo_run_success");
            assert("helper_summary_surface_contract"@.len() != "cargo_run_success"@.len());
            reveal_strlit("chattycog_module_contract");
            assert("helper_summary_surface_contract"@.len() != "chattycog_module_contract"@.len());
            reveal_strlit("chattycog_visual_load_contract");
            assert("helper_summary_surface_contract"@.len() != "chattycog_visual_load_contract"@.len());
            reveal_strlit("chattycog_bridge_contract");
            assert("helper_summary_surface_contract"@.len() != "chattycog_bridge_contract"@.len());
            reveal_strlit("chattyedu_module_contract");
            assert("helper_summary_surface_contract"@.len() != "chattyedu_module_contract"@.len());
            reveal_strlit("chattyedu_visual_load_contract");
            assert("helper_summary_surface_contract"@.len() != "chattyedu_visual_load_contract"@.len());
            reveal_strlit("helper_service_spec");
            assert("helper_summary_surface_contract"@.len() != "helper_service_spec"@.len());
            reveal_strlit("helper_status_snapshot");
            assert("helper_summary_surface_contract"@.len() != "helper_status_snapshot"@.len());
            reveal_strlit("helper_summary_snapshot");
            assert("helper_summary_surface_contract"@.len() != "helper_summary_snapshot"@.len());
            reveal_strlit("helper_summary_discovered_count");
            assert("helper_summary_surface_contract"@[15] != "helper_summary_discovered_count"@[15]);
            reveal_strlit("helper_summary_filtered_count");
            assert("helper_summary_surface_contract"@.len() != "helper_summary_filtered_count"@.len());
            reveal_strlit("helper_summary_observed_lanes");
            assert("helper_summary_surface_contract"@.len() != "helper_summary_observed_lanes"@.len());
            reveal_strlit("helper_summary_lane_rules");
            assert("helper_summary_surface_contract"@.len() != "helper_summary_lane_rules"@.len());
            reveal_strlit("helper_summary_filtered_files");
            assert("helper_summary_surface_contract"@.len() != "helper_summary_filtered_files"@.len());
        },
        AcceptanceCheckKind::HelperProcessedFilesSurfaceContract => {
            reveal_strlit("helper_processed_files_surface_contract");
            reveal_strlit("exists");
            assert("helper_processed_files_surface_contract"@.len() != "exists"@.len());
            reveal_strlit("contains");
            assert("helper_processed_files_surface_contract"@.len() != "contains"@.len());
            reveal_strlit("python_output_contains");
            assert("helper_processed_files_surface_contract"@.len() != "python_output_contains"@.len());
            reveal_strlit("cargo_check");
            assert("helper_processed_files_surface_contract"@.len() != "cargo_check"@.len());
            reveal_strlit("cargo_run_output_contains");
            assert("helper_processed_files_surface_contract"@.len() != "cargo_run_output_contains"@.len());
            reveal_strlit("python_run_success");
            assert("helper_processed_files_surface_contract"@.len() != "python_run_success"@.len());
            reveal_strlit("cargo_run_success");
            assert("helper_processed_files_surface_contract"@.len() != "cargo_run_success"@.len());
            reveal_strlit("chattycog_module_contract");
            assert("helper_processed_files_surface_contract"@.len() != "chattycog_module_contract"@.len());
            reveal_strlit("chattycog_visual_load_contract");
            assert("helper_processed_files_surface_contract"@.len() != "chattycog_visual_load_contract"@.len());
            reveal_strlit("chattycog_bridge_contract");
            assert("helper_processed_files_surface_contract"@.len() != "chattycog_bridge_contract"@.len());
            reveal_strlit("chattyedu_module_contract");
            assert("helper_processed_files_surface_contract"@.len() != "chattyedu_module_contract"@.len());
            reveal_strlit("chattyedu_visual_load_contract");
            assert("helper_processed_files_surface_contract"@.len() != "chattyedu_visual_load_contract"@.len());
            reveal_strlit("helper_service_spec");
            assert("helper_processed_files_surface_contract"@.len() != "helper_service_spec"@.len());
            reveal_strlit("helper_status_snapshot");
            assert("helper_processed_files_surface_contract"@.len() != "helper_status_snapshot"@.len());
            reveal_strlit("helper_summary_snapshot");
            assert("helper_processed_files_surface_contract"@.len() != "helper_summary_snapshot"@.len());
            reveal_strlit("helper_summary_discovered_count");
            assert("helper_processed_files_surface_contract"@.len() != "helper_summary_discovered_count"@.len());
            reveal_strlit("helper_summary_filtered_count");
            assert("helper_processed_files_surface_contract"@.len() != "helper_summary_filtered_count"@.len());
            reveal_strlit("helper_summary_observed_lanes");
            assert("helper_processed_files_surface_contract"@.len() != "helper_summary_observed_lanes"@.len());
            reveal_strlit("helper_summary_lane_rules");
            assert("helper_processed_files_surface_contract"@.len() != "helper_summary_lane_rules"@.len());
            reveal_strlit("helper_summary_filtered_files");
            assert("helper_processed_files_surface_contract"@.len() != "helper_summary_filtered_files"@.len());
            reveal_strlit("helper_summary_surface_contract");
            assert("helper_processed_files_surface_contract"@.len() != "helper_summary_surface_contract"@.len());
        },
        AcceptanceCheckKind::HelperProcessedPreviewSurfaceContract => {
            reveal_strlit("helper_processed_preview_surface_contract");
            reveal_strlit("exists");
            assert("helper_processed_preview_surface_contract"@.len() != "exists"@.len());
            reveal_strlit("contains");
            assert("helper_processed_preview_surface_contract"@.len() != "contains"@.len());
            reveal_strlit("python_output_contains");
            assert("helper_processed_preview_surface_contract"@.len() != "python_output_contains"@.len());
            reveal_strlit("cargo_check");
            assert("helper_processed_preview_surface_contract"@.len() != "cargo_check"@.len());
            reveal_strlit("cargo_run_output_contains");
            assert("helper_processed_preview_surface_contract"@.len() != "cargo_run_output_contains"@.len());
            reveal_strlit("python_run_success");
            assert("helper_processed_preview_surface_contract"@.len() != "python_run_success"@.len());
            reveal_strlit("cargo_run_success");
            assert("helper_processed_preview_surface_contract"@.len() != "cargo_run_success"@.len());
            reveal_strlit("chattycog_module_contract");
            assert("helper_processed_preview_surface_contract"@.len() != "chattycog_module_contract"@.len());
            reveal_strlit("chattycog_visual_load_contract");
            assert("helper_processed_preview_surface_contract"@.len() != "chattycog_visual_load_contract"@.len());
            reveal_strlit("chattycog_bridge_contract");
            assert("helper_processed_preview_surface_contract"@.len() != "chattycog_bridge_contract"@.len());
            reveal_strlit("chattyedu_module_contract");
            assert("helper_processed_preview_surface_contract"@.len() != "chattyedu_module_contract"@.len());
            reveal_strlit("chattyedu_visual_load_contract");
            assert("helper_processed_preview_surface_contract"@.len() != "chattyedu_visual_load_contract"@.len());
            reveal_strlit("helper_service_spec");
            assert("helper_processed_preview_surface_contract"@.len() != "helper_service_spec"@.len());
            reveal_strlit("helper_status_snapshot");
            assert("helper_processed_preview_surface_contract"@.len() != "helper_status_snapshot"@.len());
            reveal_strlit("helper_summary_snapshot");
            assert("helper_processed_preview_surface_contract"@.len() != "helper_summary_snapshot"@.len());
            reveal_strlit("helper_summary_discovered_count");
            assert("helper_processed_preview_surface_contract"@.len() != "helper_summary_discovered_count"@.len());
            reveal_strlit("helper_summary_filtered_count");
            assert("helper_processed_preview_surface_contract"@.len() != "helper_summary_filtered_count"@.len());
            reveal_strlit("helper_summary_observed_lanes");
            assert("helper_processed_preview_surface_contract"@.len() != "helper_summary_observed_lanes"@.len());
            reveal_strlit("helper_summary_lane_rules");
            assert("helper_processed_preview_surface_contract"@.len() != "helper_summary_lane_rules"@.len());
            reveal_strlit("helper_summary_filtered_files");
            assert("helper_processed_preview_surface_contract"@.len() != "helper_summary_filtered_files"@.len());
            reveal_strlit("helper_summary_surface_contract");
            assert("helper_processed_preview_surface_contract"@.len() != "helper_summary_surface_contract"@.len());
            reveal_strlit("helper_processed_files_surface_contract");
            assert("helper_processed_preview_surface_contract"@.len() != "helper_processed_files_surface_contract"@.len());
        },
        AcceptanceCheckKind::HelperProcessedSelectionSurfaceContract => {
            reveal_strlit("helper_processed_selection_surface_contract");
            reveal_strlit("exists");
            assert("helper_processed_selection_surface_contract"@.len() != "exists"@.len());
            reveal_strlit("contains");
            assert("helper_processed_selection_surface_contract"@.len() != "contains"@.len());
            reveal_strlit("python_output_contains");
            assert("helper_processed_selection_surface_contract"@.len() != "python_output_contains"@.len());
            reveal_strlit("cargo_check");
            assert("helper_processed_selection_surface_contract"@.len() != "cargo_check"@.len());
            reveal_strlit("cargo_run_output_contains");
            assert("helper_processed_selection_surface_contract"@.len() != "cargo_run_output_contains"@.len());
            reveal_strlit("python_run_success");
            assert("helper_processed_selection_surface_contract"@.len() != "python_run_success"@.len());
            reveal_strlit("cargo_run_success");
            assert("helper_processed_selection_surface_contract"@.len() != "cargo_run_success"@.len());
            reveal_strlit("chattycog_module_contract");
            assert("helper_processed_selection_surface_contract"@.len() != "chattycog_module_contract"@.len());
            reveal_strlit("chattycog_visual_load_contract");
            assert("helper_processed_selection_surface_contract"@.len() != "chattycog_visual_load_contract"@.len());
            reveal_strlit("chattycog_bridge_contract");
            assert("helper_processed_selection_surface_contract"@.len() != "chattycog_bridge_contract"@.len());
            reveal_strlit("chattyedu_module_contract");
            assert("helper_processed_selection_surface_contract"@.len() != "chattyedu_module_contract"@.len());
            reveal_strlit("chattyedu_visual_load_contract");
            assert("helper_processed_selection_surface_contract"@.len() != "chattyedu_visual_load_contract"@.len());
            reveal_strlit("helper_service_spec");
            assert("helper_processed_selection_surface_contract"@.len() != "helper_service_spec"@.len());
            reveal_strlit("helper_status_snapshot");
            assert("helper_processed_selection_surface_contract"@.len() != "helper_status_snapshot"@.len());
            reveal_strlit("helper_summary_snapshot");
            assert("helper_processed_selection_surface_contract"@.len() != "helper_summary_snapshot"@.len());
            reveal_strlit("helper_summary_discovered_count");
            assert("helper_processed_selection_surface_contract"@.len() != "helper_summary_discovered_count"@.len());
            reveal_strlit("helper_summary_filtered_count");
            assert("helper_processed_selection_surface_contract"@.len() != "helper_summary_filtered_count"@.len());
            reveal_strlit("helper_summary_observed_lanes");
            assert("helper_processed_selection_surface_contract"@.len() != "helper_summary_observed_lanes"@.len());
            reveal_strlit("helper_summary_lane_rules");
            assert("helper_processed_selection_surface_contract"@.len() != "helper_summary_lane_rules"@.len());
            reveal_strlit("helper_summary_filtered_files");
            assert("helper_processed_selection_surface_contract"@.len() != "helper_summary_filtered_files"@.len());
            reveal_strlit("helper_summary_surface_contract");
            assert("helper_processed_selection_surface_contract"@.len() != "helper_summary_surface_contract"@.len());
            reveal_strlit("helper_processed_files_surface_contract");
            assert("helper_processed_selection_surface_contract"@.len() != "helper_processed_files_surface_contract"@.len());
            reveal_strlit("helper_processed_preview_surface_contract");
            assert("helper_processed_selection_surface_contract"@.len() != "helper_processed_preview_surface_contract"@.len());
        },
        AcceptanceCheckKind::HelperProcessedOutputContract => {
            reveal_strlit("helper_processed_output_contract");
            reveal_strlit("exists");
            assert("helper_processed_output_contract"@.len() != "exists"@.len());
            reveal_strlit("contains");
            assert("helper_processed_output_contract"@.len() != "contains"@.len());
            reveal_strlit("python_output_contains");
            assert("helper_processed_output_contract"@.len() != "python_output_contains"@.len());
            reveal_strlit("cargo_check");
            assert("helper_processed_output_contract"@.len() != "cargo_check"@.len());
            reveal_strlit("cargo_run_output_contains");
            assert("helper_processed_output_contract"@.len() != "cargo_run_output_contains"@.len());
            reveal_strlit("python_run_success");
            assert("helper_processed_output_contract"@.len() != "python_run_success"@.len());
            reveal_strlit("cargo_run_success");
            assert("helper_processed_output_contract"@.len() != "cargo_run_success"@.len());
            reveal_strlit("chattycog_module_contract");
            assert("helper_processed_output_contract"@.len() != "chattycog_module_contract"@.len());
            reveal_strlit("chattycog_visual_load_contract");
            assert("helper_processed_output_contract"@.len() != "chattycog_visual_load_contract"@.len());
            reveal_strlit("chattycog_bridge_contract");
            assert("helper_processed_output_contract"@.len() != "chattycog_bridge_contract"@.len());
            reveal_strlit("chattyedu_module_contract");
            assert("helper_processed_output_contract"@.len() != "chattyedu_module_contract"@.len());
            reveal_strlit("chattyedu_visual_load_contract");
            assert("helper_processed_output_contract"@.len() != "chattyedu_visual_load_contract"@.len());
            reveal_strlit("helper_service_spec");
            assert("helper_processed_output_contract"@.len() != "helper_service_spec"@.len());
            reveal_strlit("helper_status_snapshot");
            assert("helper_processed_output_contract"@.len() != "helper_status_snapshot"@.len());
            reveal_strlit("helper_summary_snapshot");
            assert("helper_processed_output_contract"@.len() != "helper_summary_snapshot"@.len());
            reveal_strlit("helper_summary_discovered_count");
            assert("helper_processed_output_contract"@.len() != "helper_summary_discovered_count"@.len());
            reveal_strlit("helper_summary_filtered_count");
            assert("helper_processed_output_contract"@.len() != "helper_summary_filtered_count"@.len());
            reveal_strlit("helper_summary_observed_lanes");
            assert("helper_processed_output_contract"@.len() != "helper_summary_observed_lanes"@.len());
            reveal_strlit("helper_summary_lane_rules");
            assert("helper_processed_output_contract"@.len() != "helper_summary_lane_rules"@.len());
            reveal_strlit("helper_summary_filtered_files");
            assert("helper_processed_output_contract"@.len() != "helper_summary_filtered_files"@.len());
            reveal_strlit("helper_summary_surface_contract");
            assert("helper_processed_output_contract"@.len() != "helper_summary_surface_contract"@.len());
            reveal_strlit("helper_processed_files_surface_contract");
            assert("helper_processed_output_contract"@.len() != "helper_processed_files_surface_contract"@.len());
            reveal_strlit("helper_processed_preview_surface_contract");
            assert("helper_processed_output_contract"@.len() != "helper_processed_preview_surface_contract"@.len());
            reveal_strlit("helper_processed_selection_surface_contract");
            assert("helper_processed_output_contract"@.len() != "helper_processed_selection_surface_contract"@.len());
        },
        AcceptanceCheckKind::StaticDashboardHelperMonitoringSurfaceContract => {
            reveal_strlit("static_dashboard_helper_monitoring_surface_contract");
            reveal_strlit("exists");
            assert("static_dashboard_helper_monitoring_surface_contract"@.len() != "exists"@.len());
            reveal_strlit("contains");
            assert("static_dashboard_helper_monitoring_surface_contract"@.len() != "contains"@.len());
            reveal_strlit("python_output_contains");
            assert("static_dashboard_helper_monitoring_surface_contract"@.len() != "python_output_contains"@.len());
            reveal_strlit("cargo_check");
            assert("static_dashboard_helper_monitoring_surface_contract"@.len() != "cargo_check"@.len());
            reveal_strlit("cargo_run_output_contains");
            assert("static_dashboard_helper_monitoring_surface_contract"@.len() != "cargo_run_output_contains"@.len());
            reveal_strlit("python_run_success");
            assert("static_dashboard_helper_monitoring_surface_contract"@.len() != "python_run_success"@.len());
            reveal_strlit("cargo_run_success");
            assert("static_dashboard_helper_monitoring_surface_contract"@.len() != "cargo_run_success"@.len());
            reveal_strlit("chattycog_module_contract");
            assert("static_dashboard_helper_monitoring_surface_contract"@.len() != "chattycog_module_contract"@.len());
            reveal_strlit("chattycog_visual_load_contract");
            assert("static_dashboard_helper_monitoring_surface_contract"@.len() != "chattycog_visual_load_contract"@.len());
            reveal_strlit("chattycog_bridge_contract");
            assert("static_dashboard_helper_monitoring_surface_contract"@.len() != "chattycog_bridge_contract"@.len());
            reveal_strlit("chattyedu_module_contract");
            assert("static_dashboard_helper_monitoring_surface_contract"@.len() != "chattyedu_module_contract"@.len());
            reveal_strlit("chattyedu_visual_load_contract");
            assert("static_dashboard_helper_monitoring_surface_contract"@.len() != "chattyedu_visual_load_contract"@.len());
            reveal_strlit("helper_service_spec");
            assert("static_dashboard_helper_monitoring_surface_contract"@.len() != "helper_service_spec"@.len());
            reveal_strlit("helper_status_snapshot");
            assert("static_dashboard_helper_monitoring_surface_contract"@.len() != "helper_status_snapshot"@.len());
            reveal_strlit("helper_summary_snapshot");
            assert("static_dashboard_helper_monitoring_surface_contract"@.len() != "helper_summary_snapshot"@.len());
            reveal_strlit("helper_summary_discovered_count");
            assert("static_dashboard_helper_monitoring_surface_contract"@.len() != "helper_summary_discovered_count"@.len());
            reveal_strlit("helper_summary_filtered_count");
            assert("static_dashboard_helper_monitoring_surface_contract"@.len() != "helper_summary_filtered_count"@.len());
            reveal_strlit("helper_summary_observed_lanes");
            assert("static_dashboard_helper_monitoring_surface_contract"@.len() != "helper_summary_observed_lanes"@.len());
            reveal_strlit("helper_summary_lane_rules");
            assert("static_dashboard_helper_monitoring_surface_contract"@.len() != "helper_summary_lane_rules"@.len());
            reveal_strlit("helper_summary_filtered_files");
            assert("static_dashboard_helper_monitoring_surface_contract"@.len() != "helper_summary_filtered_files"@.len());
            reveal_strlit("helper_summary_surface_contract");
            assert("static_dashboard_helper_monitoring_surface_contract"@.len() != "helper_summary_surface_contract"@.len());
            reveal_strlit("helper_processed_files_surface_contract");
            assert("static_dashboard_helper_monitoring_surface_contract"@.len() != "helper_processed_files_surface_contract"@.len());
            reveal_strlit("helper_processed_preview_surface_contract");
            assert("static_dashboard_helper_monitoring_surface_contract"@.len() != "helper_processed_preview_surface_contract"@.len());
            reveal_strlit("helper_processed_selection_surface_contract");
            assert("static_dashboard_helper_monitoring_surface_contract"@.len() != "helper_processed_selection_surface_contract"@.len());
            reveal_strlit("helper_processed_output_contract");
            assert("static_dashboard_helper_monitoring_surface_contract"@.len() != "helper_processed_output_contract"@.len());
        },
    }
}

/// Every kind is named by its own name, and only by it: a plan's kind text
/// names kind `k` exactly when it is `k`'s name, so distinct names give
/// distinct kinds. A check whose kind text is `k`'s name is planned as `k`
/// (given an expected value when `k` compares against one).
pub proof fn lemma_kind_names_round_trip(k: AcceptanceCheckKind, s: Seq<char>, check: AcceptanceCheck)
    ensures
        kind_named(kind_name(k)) == Some(k),
        kind_named(s) == Some(k) <==> s == kind_name(k),
        forall|t: Seq<char>| kind_named(s) is Some && kind_named(s) == kind_named(t) ==> s == t,
        check.kind@ == kind_name(k) && (!needs_expected(k) || check.expected is Some) ==> planned(
            check,
        ) == Ok::<AcceptanceCheckKind, Seq<char>>(k),
{
    reveal_strlit("exists");
    reveal_strlit("contains");
    reveal_strlit("python_output_contains");
    reveal_strlit("cargo_check");
    reveal_strlit("cargo_run_output_contains");
    reveal_strlit("python_run_success");
    reveal_strlit("cargo_run_success");
    reveal_strlit("chattycog_module_contract");
    reveal_strlit("chattycog_visual_load_contract");
    reveal_strlit("chattycog_bridge_contract");
    reveal_strlit("chattyedu_module_contract");
    reveal_strlit("chattyedu_visual_load_contract");
    reveal_strlit("helper_service_spec");
    reveal_strlit("helper_status_snapshot");
    reveal_strlit("helper_summary_snapshot");
    reveal_strlit("helper_summary_discovered_count");
    reveal_strlit("helper_summary_filtered_count");
    reveal_strlit("helper_summary_observed_lanes");
    reveal_strlit("helper_summary_lane_rules");
    reveal_strlit("helper_summary_filtered_files");
    reveal_strlit("helper_summary_surface_contract");
    reveal_strlit("helper_processed_files_surface_contract");
    reveal_strlit("helper_processed_preview_surface_contract");
    reveal_strlit("helper_processed_selection_surface_contract");
    reveal_strlit("helper_processed_output_contract");
    reveal_strlit("static_dashboard_helper_monitoring_surface_contract");
    lemma_name_names_kind(k);
    assert forall|t: Seq<char>| kind_named(s) is Some && kind_named(s) == kind_named(t) implies s == t by {
        let j = kind_named(s)->0;
        lemma_name_names_kind(j);
    }
}

} // verus!
