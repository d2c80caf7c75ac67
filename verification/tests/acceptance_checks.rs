use chatty_factory::acceptance::{
    plan_acceptance_check, verify_contains_check, verify_exists_check, AcceptanceCheck,
    AcceptanceCheckKind,
};
use chatty_factory::failure::{classify_failure, FailureClass};
use chatty_factory::surface::{
    parse_components, verify_helper_processed_files_surface_contract,
    verify_helper_processed_preview_surface_contract,
    verify_helper_processed_selection_surface_contract, verify_helper_summary_surface_contract,
    verify_static_dashboard_helper_monitoring_surface_contract,
};

fn check(id: &str, kind: &str, expected: Option<&str>) -> AcceptanceCheck {
    AcceptanceCheck {
        check_id: id.to_string(),
        kind: kind.to_string(),
        target: "app.js".to_string(),
        expected: expected.map(|e| e.to_string()),
    }
}

#[test]
fn plan_names_every_known_kind() {
    let kinds = [
        ("exists", AcceptanceCheckKind::Exists),
        ("cargo_check", AcceptanceCheckKind::CargoCheck),
        ("python_run_success", AcceptanceCheckKind::PythonRunSuccess),
        ("cargo_run_success", AcceptanceCheckKind::CargoRunSuccess),
        ("chattycog_bridge_contract", AcceptanceCheckKind::ChattyCogBridgeContract),
        ("helper_summary_lane_rules", AcceptanceCheckKind::HelperSummaryLaneRules),
        (
            "static_dashboard_helper_monitoring_surface_contract",
            AcceptanceCheckKind::StaticDashboardHelperMonitoringSurfaceContract,
        ),
    ];
    for (name, kind) in kinds {
        assert_eq!(plan_acceptance_check(&check("c1", name, None)), Ok(kind));
    }
    assert_eq!(
        plan_acceptance_check(&check("c2", "contains", Some("x"))),
        Ok(AcceptanceCheckKind::Contains)
    );
}

#[test]
fn plan_rejects_unknown_kinds_and_missing_expected_values() {
    assert_eq!(
        plan_acceptance_check(&check("c1", "telepathy", None)),
        Err("unsupported acceptance check kind 'telepathy'".to_string())
    );
    assert_eq!(
        plan_acceptance_check(&check("c9", "contains", None)),
        Err("check 'c9' missing expected value".to_string())
    );
    assert_eq!(
        plan_acceptance_check(&check("c9", "cargo_run_output_contains", None)),
        Err("check 'c9' missing expected value".to_string())
    );
    assert_eq!(
        plan_acceptance_check(&check("c9", "python_output_contains", None)),
        Err("check 'c9' missing expected value".to_string())
    );
}

#[test]
fn exists_and_contains_messages() {
    assert_eq!(verify_exists_check("c1", "src/main.rs", true), Ok(()));
    assert_eq!(
        verify_exists_check("c1", "src/main.rs", false),
        Err("acceptance check 'c1' failed: missing src/main.rs".to_string())
    );
    assert_eq!(verify_contains_check("c2", "fn main", "fn main() {}", "src/main.rs"), Ok(()));
    assert_eq!(
        verify_contains_check("c2", "hello", "goodbye", "python output"),
        Err("acceptance check 'c2' failed: 'hello' not found in python output".to_string())
    );
}

#[test]
fn components_are_split_trimmed_and_non_empty() {
    assert_eq!(
        parse_components(" panel, status_chip,, ,count_delta "),
        vec!["panel".to_string(), "status_chip".to_string(), "count_delta".to_string()]
    );
    assert_eq!(parse_components(""), Vec::<String>::new());
    assert_eq!(parse_components(",,"), Vec::<String>::new());
}

const INDEX: &str = "<div id=\"helper-summary-panel\"><span id=\"helper-summary-status\"></span><ul id=\"helper-summary-files\"></ul></div>";
const APP_JS: &str = "function loadHelperSummary(){ fetch('bridge/helpers/local_inbox/summary.json'); helperSummaryFiles(); }";

#[test]
fn helper_summary_panel_passes_with_all_markers() {
    assert_eq!(verify_helper_summary_surface_contract(INDEX, APP_JS, "index.html", None), Ok(()));
}

#[test]
fn helper_summary_chip_reports_the_first_missing_marker() {
    let index = format!("{INDEX}<b id=\"helper-summary-status-chip\"></b>");
    let r = verify_helper_summary_surface_contract(&index, APP_JS, "index.html", Some("panel,status_chip"));
    assert_eq!(
        r,
        Err("helper summary surface contract failed: 'helperSummaryStatusChip' missing from app.js"
            .to_string())
    );
    let r = verify_helper_summary_surface_contract(INDEX, APP_JS, "index.html", Some("status_chip"));
    assert_eq!(
        r,
        Err("helper summary surface contract failed: 'helper-summary-status-chip' missing from index.html"
            .to_string())
    );
}

#[test]
fn helper_summary_failures_classify_as_wiring_failures() {
    let r = verify_helper_summary_surface_contract("", "", "index.html", None).unwrap_err();
    assert_eq!(
        r,
        "helper summary surface contract failed: 'helper-summary-panel' missing from index.html"
    );
    assert_eq!(classify_failure(&r), FailureClass::HelperWiringFailure);
}

#[test]
fn helper_summary_without_requested_components_checks_nothing() {
    assert_eq!(verify_helper_summary_surface_contract("", "", "index.html", Some(" , ")), Ok(()));
}

#[test]
fn processed_files_surface_checks_panel_then_selection() {
    let index = "processed-files-panel processed-files-status processed-files-list";
    let app = "loadProcessedFilesPanel bridge/helpers/local_inbox/summary.json processedFilesList";
    assert_eq!(verify_helper_processed_files_surface_contract(index, app, "index.html", None), Ok(()));
    assert_eq!(
        verify_helper_processed_files_surface_contract(index, app, "index.html", Some("panel,selection")),
        Err("helper processed files surface contract failed: 'data-select-processed-file' missing from app.js"
            .to_string())
    );
    assert_eq!(
        verify_helper_processed_files_surface_contract("", app, "index.html", None),
        Err("helper processed files surface contract failed: 'processed-files-panel' missing from index.html"
            .to_string())
    );
}

#[test]
fn processed_preview_surface_selection_needs_the_selected_file() {
    assert_eq!(
        verify_helper_processed_preview_surface_contract("", "", "index.html", Some("selection")),
        Err("helper processed preview surface contract failed: 'selectedProcessedFile' missing from app.js"
            .to_string())
    );
    assert_eq!(
        verify_helper_processed_preview_surface_contract("", "let selectedProcessedFile;", "index.html", Some("selection")),
        Ok(())
    );
}

#[test]
fn processed_selection_surface_checks_script_then_styles() {
    let app = "let selectedProcessedFile = null; data-select-processed-file setSelectedProcessedFile const fileToPreview = selectedProcessedFile || files[0];";
    assert_eq!(
        verify_helper_processed_selection_surface_contract(app, "", "app.js"),
        Err("helper processed selection surface contract failed: '.processed-files-list li.is-selected' missing from styles.css"
            .to_string())
    );
    assert_eq!(
        verify_helper_processed_selection_surface_contract(app, ".processed-files-list li.is-selected {}", "app.js"),
        Ok(())
    );
    assert_eq!(
        verify_helper_processed_selection_surface_contract("", "", "ui/app.js"),
        Err("helper processed selection surface contract failed: 'let selectedProcessedFile = null;' missing from ui/app.js"
            .to_string())
    );
}

#[test]
fn static_dashboard_surface_defaults_to_summary() {
    assert_eq!(
        verify_static_dashboard_helper_monitoring_surface_contract("", "", "index.html", None),
        Err("static dashboard helper monitoring surface contract failed: 'helper-monitor-panel' missing from index.html"
            .to_string())
    );
    let index = "helper-preview-panel helper-preview-status helper-preview-body";
    let app = "helperPreviewStatus helperPreviewBody processed/${previewFile}";
    assert_eq!(
        verify_static_dashboard_helper_monitoring_surface_contract(index, app, "index.html", Some("preview")),
        Ok(())
    );
}
