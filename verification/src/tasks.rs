//! Background tasks of the control panel: what starting one shows and
//! records, the planner options a task hands the host, and how a host
//! action's result is turned into the panel's summary.
use vstd::prelude::*;

use crate::extensions::opt_view;
use crate::helper_checks::{count_value, parse_count};
use crate::lane_report::{split_lines, text_lines};
use crate::search::first_where;
use crate::text::{is_blank, join_strings, joined, owned, push_str, trim_text, trimmed, views};
use crate::workbench::{first_patch_receipt_path, path_with};

verus! {

/// A task the panel runs in the background.
pub enum UiTask {
    RefreshBrowser,
    RefreshRuntime,
    RefreshProjectPatchReadiness,
    RefreshProofHarnessRegistry,
    RefreshCompositionGovernance,
    RefreshPatchGovernance,
    RefreshHelperGovernance,
    RefreshBridgeGovernance,
    RefreshFamilyGovernance,
    RefreshTemplateGovernance,
    ApproveProposedConstraint { request_id_or_path: String },
    SetApprovedConstraintActive { constraint_id: String, active: bool },
    ArchiveUnmatchedInactiveConstraints,
    DeactivateLowValueActiveConstraints,
    RestoreApprovedConstraint { constraint_id: String },
    SelectProject { project_name: String },
    ClearSelectedProject,
    ImplementExtension { entry_id: String },
    ValidateExtension { entry_id: String },
    PrepareExtensionPromotion { entry_id: String },
    PrepareExtensionApplyPatch { entry_id: String },
    ConsumeExtensionApplyPatch { entry_id: String },
    ValidateLiveExtension { entry_id: String },
    ArchiveExtension { entry_id: String, reason: String },
    RunProofTemplate {
        template_id: String,
        request: String,
        auto_planner: bool,
        port: String,
        model: String,
    },
    RunRetrySearchLadderProof { auto_planner: bool, port: String, model: String },
    BuildRequest {
        request: String,
        starter_override_id: Option<String>,
        auto_planner: bool,
        port: String,
        model: String,
    },
    PatchRequest {
        project_name: String,
        request: String,
        auto_planner: bool,
        port: String,
        model: String,
    },
}

/// The lane a task works on, for the tasks that work on one lane.
pub open spec fn task_lane(task: UiTask) -> Option<Seq<char>> {
    match task {
        UiTask::ImplementExtension { entry_id } => Some(entry_id@),
        UiTask::ValidateExtension { entry_id } => Some(entry_id@),
        UiTask::PrepareExtensionPromotion { entry_id } => Some(entry_id@),
        UiTask::PrepareExtensionApplyPatch { entry_id } => Some(entry_id@),
        UiTask::ConsumeExtensionApplyPatch { entry_id } => Some(entry_id@),
        UiTask::ValidateLiveExtension { entry_id } => Some(entry_id@),
        UiTask::ArchiveExtension { entry_id, .. } => Some(entry_id@),
        _ => None,
    }
}

/// The status line shown while a task runs.
pub open spec fn task_status(task: UiTask) -> Seq<char> {
    match task {
        UiTask::RefreshBrowser => "Refreshing project browser"@,
        UiTask::RefreshRuntime => "Refreshing runtime status"@,
        UiTask::RefreshProjectPatchReadiness => "Refreshing project patch readiness"@,
        UiTask::RefreshProofHarnessRegistry => "Refreshing proof governance registry"@,
        UiTask::RefreshCompositionGovernance => "Refreshing composition governance registry"@,
        UiTask::RefreshPatchGovernance => "Refreshing patch governance registry"@,
        UiTask::RefreshHelperGovernance => "Refreshing helper governance registry"@,
        UiTask::RefreshBridgeGovernance => "Refreshing bridge governance registry"@,
        UiTask::RefreshFamilyGovernance => "Refreshing family governance registry"@,
        UiTask::RefreshTemplateGovernance => "Refreshing template governance registry"@,
        UiTask::ApproveProposedConstraint { .. } => "Approving proposed constraint"@,
        UiTask::SetApprovedConstraintActive { active, .. } => if active {
            "Activating approved constraint"@
        } else {
            "Deactivating approved constraint"@
        },
        UiTask::ArchiveUnmatchedInactiveConstraints => "Archiving unmatched inactive constraints"@,
        UiTask::DeactivateLowValueActiveConstraints => "Deactivating low-value active constraints"@,
        UiTask::RestoreApprovedConstraint { .. } => "Restoring approved constraint from history"@,
        UiTask::SelectProject { project_name } => "Selecting project "@ + project_name@,
        UiTask::ClearSelectedProject => "Clearing selected project"@,
        UiTask::ImplementExtension { entry_id } => "Implementing extension "@ + entry_id@,
        UiTask::ValidateExtension { entry_id } => "Validating extension "@ + entry_id@,
        UiTask::PrepareExtensionPromotion { entry_id } => "Preparing promotion for "@ + entry_id@,
        UiTask::PrepareExtensionApplyPatch { entry_id } => "Preparing apply-patch for "@
            + entry_id@,
        UiTask::ConsumeExtensionApplyPatch { entry_id } => "Host wiring extension "@ + entry_id@,
        UiTask::ValidateLiveExtension { entry_id } => "Validating fully live extension "@
            + entry_id@,
        UiTask::ArchiveExtension { entry_id, .. } => "Archiving extension "@ + entry_id@,
        UiTask::RunProofTemplate { template_id, .. } => "Running proof template "@ + template_id@,
        UiTask::RunRetrySearchLadderProof { .. } => "Running retry-search ladder proof"@,
        UiTask::BuildRequest { .. } => "Running build request"@,
        UiTask::PatchRequest { .. } => "Running patch request"@,
    }
}

/// The lane a task works on, if any.
pub fn task_recent_lane(task: &UiTask) -> (r: Option<String>)
    ensures
        opt_view(r) == task_lane(*task),
{
    match task {
        UiTask::ImplementExtension { entry_id } => Some(entry_id.clone()),
        UiTask::ValidateExtension { entry_id } => Some(entry_id.clone()),
        UiTask::PrepareExtensionPromotion { entry_id } => Some(entry_id.clone()),
        UiTask::PrepareExtensionApplyPatch { entry_id } => Some(entry_id.clone()),
        UiTask::ConsumeExtensionApplyPatch { entry_id } => Some(entry_id.clone()),
        UiTask::ValidateLiveExtension { entry_id } => Some(entry_id.clone()),
        UiTask::ArchiveExtension { entry_id, .. } => Some(entry_id.clone()),
        _ => None,
    }
}

fn labeled(label: &str, value: &str) -> (r: String)
    ensures
        r@ == label@ + value@,
{
    let mut s = owned(label);
    push_str(&mut s, value);
    s
}

/// The status line shown while a task runs.
pub fn task_status_line(task: &UiTask) -> (r: String)
    ensures
        r@ == task_status(*task),
{
    match task {
        UiTask::RefreshBrowser => owned("Refreshing project browser"),
        UiTask::RefreshRuntime => owned("Refreshing runtime status"),
        UiTask::RefreshProjectPatchReadiness => owned("Refreshing project patch readiness"),
        UiTask::RefreshProofHarnessRegistry => owned("Refreshing proof governance registry"),
        UiTask::RefreshCompositionGovernance => owned("Refreshing composition governance registry"),
        UiTask::RefreshPatchGovernance => owned("Refreshing patch governance registry"),
        UiTask::RefreshHelperGovernance => owned("Refreshing helper governance registry"),
        UiTask::RefreshBridgeGovernance => owned("Refreshing bridge governance registry"),
        UiTask::RefreshFamilyGovernance => owned("Refreshing family governance registry"),
        UiTask::RefreshTemplateGovernance => owned("Refreshing template governance registry"),
        UiTask::ApproveProposedConstraint { .. } => owned("Approving proposed constraint"),
        UiTask::SetApprovedConstraintActive { active, .. } => if *active {
            owned("Activating approved constraint")
        } else {
            owned("Deactivating approved constraint")
        },
        UiTask::ArchiveUnmatchedInactiveConstraints => owned(
            "Archiving unmatched inactive constraints",
        ),
        UiTask::DeactivateLowValueActiveConstraints => owned(
            "Deactivating low-value active constraints",
        ),
        UiTask::RestoreApprovedConstraint { .. } => owned(
            "Restoring approved constraint from history",
        ),
        UiTask::SelectProject { project_name } => labeled("Selecting project ", project_name.as_str()),
        UiTask::ClearSelectedProject => owned("Clearing selected project"),
        UiTask::ImplementExtension { entry_id } => labeled(
            "Implementing extension ",
            entry_id.as_str(),
        ),
        UiTask::ValidateExtension { entry_id } => labeled("Validating extension ", entry_id.as_str()),
        UiTask::PrepareExtensionPromotion { entry_id } => labeled(
            "Preparing promotion for ",
            entry_id.as_str(),
        ),
        UiTask::PrepareExtensionApplyPatch { entry_id } => labeled(
            "Preparing apply-patch for ",
            entry_id.as_str(),
        ),
        UiTask::ConsumeExtensionApplyPatch { entry_id } => labeled(
            "Host wiring extension ",
            entry_id.as_str(),
        ),
        UiTask::ValidateLiveExtension { entry_id } => labeled(
            "Validating fully live extension ",
            entry_id.as_str(),
        ),
        UiTask::ArchiveExtension { entry_id, .. } => labeled(
            "Archiving extension ",
            entry_id.as_str(),
        ),
        UiTask::RunProofTemplate { template_id, .. } => labeled(
            "Running proof template ",
            template_id.as_str(),
        ),
        UiTask::RunRetrySearchLadderProof { .. } => owned("Running retry-search ladder proof"),
        UiTask::BuildRequest { .. } => owned("Running build request"),
        UiTask::PatchRequest { .. } => owned("Running patch request"),
    }
}

/// What starting a task does: nothing but a notice while another task runs;
/// otherwise the status line to show and the lane to mark recent, if any.
pub enum TaskStart {
    Busy { status_line: String },
    Started { status_line: String, recent_lane: Option<String> },
}

/// Decides whether a task starts, and what the panel shows and records when it does.
pub fn start_task(task_running: bool, task: &UiTask) -> (r: TaskStart)
    ensures
        match r {
            TaskStart::Busy { status_line } => task_running && status_line@
                == "A task is already running"@,
            TaskStart::Started { status_line, recent_lane } => !task_running && status_line@
                == task_status(*task) && opt_view(recent_lane) == task_lane(*task),
        },
{
    if task_running {
        return TaskStart::Busy { status_line: owned("A task is already running") };
    }
    TaskStart::Started { status_line: task_status_line(task), recent_lane: task_recent_lane(task) }
}

// ---------------------------------------------------------------------------
// Planner options
// ---------------------------------------------------------------------------

/// The planner options a task hands the host.
pub struct PlannerOptions {
    pub auto_planner: bool,
    pub requested_model: Option<String>,
    pub requested_port: Option<u16>,
}

/// The port, when the trimmed text is a decimal number that fits a `u16`.
pub open spec fn port_value(port: Seq<char>) -> Option<nat> {
    match count_value(trimmed(port)) {
        Ok(v) => if v <= 65535 {
            Some(v)
        } else {
            None
        },
        Err(_) => None,
    }
}

/// The planner options: the trimmed model when not blank, and the trimmed
/// port when it is a number that fits a port.
pub fn planner_options(auto_planner: bool, port: &str, model: &str) -> (r: PlannerOptions)
    ensures
        r.auto_planner == auto_planner,
        opt_view(r.requested_model) == if trimmed(model@).len() == 0 {
            None::<Seq<char>>
        } else {
            Some(trimmed(model@))
        },
        match r.requested_port {
            Some(p) => port_value(port@) == Some(p as nat),
            None => port_value(port@) is None,
        },
{
    let requested_model = if is_blank(model) {
        None
    } else {
        Some(trim_text(model))
    };
    let p = trim_text(port);
    let requested_port = match parse_count(p.as_str()) {
        Ok(v) => if v <= 65535 {
            Some(v as u16)
        } else {
            None
        },
        Err(_) => None,
    };
    PlannerOptions { auto_planner, requested_model, requested_port }
}

// ---------------------------------------------------------------------------
// Host action results
// ---------------------------------------------------------------------------

/// The receipts a build or patch execution wrote, found among its files.
pub struct PatchReceiptPaths {
    pub diagnosis: Option<String>,
    pub intent_freeze: Option<String>,
    pub plan_review: Option<String>,
    pub constraint_review: Option<String>,
    pub postcheck: Option<String>,
}

/// The first file path holding `fragment` and ending with `suffix`.
pub open spec fn receipt_path(paths: Seq<String>, fragment: Seq<char>, suffix: Seq<char>) -> Option<
    Seq<char>,
> {
    match first_where(paths, path_with(fragment, suffix)) {
        Some(i) => Some(paths[i]@),
        None => None,
    }
}

/// The receipts among an execution's files: the first diagnosis, intent
/// freeze, plan review, constraint review and postcheck path.
pub fn patch_receipt_paths(file_paths: &Vec<String>) -> (r: PatchReceiptPaths)
    ensures
        opt_view(r.diagnosis) == receipt_path(
            file_paths@,
            "runtime/patch_diagnoses/"@,
            "-diagnosis.json"@,
        ),
        opt_view(r.intent_freeze) == receipt_path(
            file_paths@,
            "runtime/patch_intent_freezes/"@,
            "-freeze.json"@,
        ),
        opt_view(r.plan_review) == receipt_path(
            file_paths@,
            "runtime/patch_plan_reviews/"@,
            "-review.json"@,
        ),
        opt_view(r.constraint_review) == receipt_path(
            file_paths@,
            "runtime/patch_constraint_reviews/"@,
            "-constraint-review.json"@,
        ),
        opt_view(r.postcheck) == receipt_path(
            file_paths@,
            "runtime/patch_diagnoses/"@,
            "-postcheck.json"@,
        ),
{
    PatchReceiptPaths {
        diagnosis: first_patch_receipt_path(file_paths, "runtime/patch_diagnoses/", "-diagnosis.json"),
        intent_freeze: first_patch_receipt_path(
            file_paths,
            "runtime/patch_intent_freezes/",
            "-freeze.json",
        ),
        plan_review: first_patch_receipt_path(
            file_paths,
            "runtime/patch_plan_reviews/",
            "-review.json",
        ),
        constraint_review: first_patch_receipt_path(
            file_paths,
            "runtime/patch_constraint_reviews/",
            "-constraint-review.json",
        ),
        postcheck: first_patch_receipt_path(file_paths, "runtime/patch_diagnoses/", "-postcheck.json"),
    }
}

/// The summary of a host action: its details joined into the task's output,
/// and the output's lines.
pub struct ActionSummaryText {
    pub stdout: String,
    pub lines: Vec<String>,
}

/// A host action's details as the task's output (joined by line feeds) and
/// as the summary's lines.
pub fn action_summary_text(details: &Vec<String>) -> (r: ActionSummaryText)
    ensures
        r.stdout@ == joined(views(details@), "\n"@),
        views(r.lines@) == text_lines(joined(views(details@), "\n"@)),
{
    let stdout = join_strings(details, "\n");
    let lines = split_lines(stdout.as_str());
    ActionSummaryText { stdout, lines }
}

} // verus!
