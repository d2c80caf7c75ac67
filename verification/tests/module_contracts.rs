use chatty_factory::failure::{classify_failure, FailureClass};
use chatty_factory::module_contracts::{
    chattycog_bridge_probes, chattycog_module_required_paths, chattyedu_module_required_paths,
    missing_lane_dir_message, missing_path_message, verify_chattycog_module_contract,
    verify_chattycog_visual_load_contract, verify_chattyedu_module_contract,
    verify_chattyedu_visual_load_contract, verify_visual_load_value, BridgeCapabilities,
    BridgeProbe, BridgeStatusFacts, ChattyCogBridgeSpec, ChattyCogModuleSpec, ChattyEduModuleSpec,
    ModuleIdentity, VisualLoadSpec, VisualLoadValue,
};

fn s(x: &str) -> String {
    x.to_string()
}

fn webview_spec() -> VisualLoadSpec {
    VisualLoadSpec {
        kind: s("webview"),
        auto_launch: true,
        title: Some(s("Board")),
        file: Some(s("ui/index.html")),
        url: None,
        launch_command: None,
    }
}

fn webview_value() -> VisualLoadValue {
    VisualLoadValue {
        kind: Some(s("webview")),
        auto_launch: Some(true),
        title: Some(s("Board")),
        file: Some(s("ui/index.html")),
        url: None,
    }
}

fn cog_spec() -> ChattyCogModuleSpec {
    ChattyCogModuleSpec {
        module_id: s("board"),
        display_name: s("Board"),
        visual_kind: s("webview"),
        manifest_path: s("module.json"),
        handshake_path: s("HANDSHAKE.md"),
        visual_load_path: Some(s("visual_load.json")),
        visual_load: Some(webview_spec()),
        bridge: ChattyCogBridgeSpec {
            status_path: s("bridge/status.json"),
            script_path: None,
            log_sources_path: None,
            capabilities: BridgeCapabilities {
                log_sources_enabled: true,
                shared_room_state_enabled: true,
                shared_room_events_enabled: false,
                outgoing_room_events_enabled: true,
                incoming_asset_lanes: vec![s("images")],
            },
        },
    }
}

fn identity(id: &str, name: &str) -> ModuleIdentity {
    ModuleIdentity { module_id: Some(s(id)), display_name: Some(s(name)) }
}

fn status(event: &str, id: &str) -> BridgeStatusFacts {
    BridgeStatusFacts { event_type: Some(s(event)), module_id: Some(s(id)) }
}

#[test]
fn visual_load_value_must_match_its_declaration() {
    assert_eq!(verify_visual_load_value(&webview_value(), &webview_spec()), Ok(()));
    let mut v = webview_value();
    v.auto_launch = None;
    assert_eq!(
        verify_visual_load_value(&v, &webview_spec()),
        Err(s("chattycog visual load contract failed: auto_launch mismatch"))
    );
    let mut v = webview_value();
    v.title = Some(s("Other"));
    assert_eq!(
        verify_visual_load_value(&v, &webview_spec()),
        Err(s("chattycog visual load contract failed: title mismatch"))
    );
    let mut v = webview_value();
    v.kind = None;
    assert_eq!(
        verify_visual_load_value(&v, &webview_spec()),
        Err(s("chattycog visual load contract failed: kind mismatch"))
    );
}

#[test]
fn visual_load_kinds() {
    assert_eq!(verify_chattycog_visual_load_contract(&webview_value(), &webview_spec()), Ok(()));
    let mut spec = webview_spec();
    spec.file = None;
    let mut value = webview_value();
    value.file = None;
    assert_eq!(
        verify_chattycog_visual_load_contract(&value, &spec),
        Err(s("chattycog visual load contract failed: webview requires file or url"))
    );
    let native = VisualLoadSpec {
        kind: s("native_window"),
        auto_launch: false,
        title: None,
        file: None,
        url: None,
        launch_command: None,
    };
    let native_value = VisualLoadValue {
        kind: Some(s("native_window")),
        auto_launch: Some(false),
        title: None,
        file: None,
        url: None,
    };
    assert_eq!(
        verify_chattyedu_visual_load_contract(&native_value, &native),
        Err(s("chattyedu visual load contract failed: native_window requires launch command"))
    );
    assert_eq!(
        verify_chattycog_visual_load_contract(&native_value, &native),
        Err(s("chattycog visual load contract failed: native_window requires launch command"))
    );
    let mut launched = native;
    launched.launch_command = Some(s("[\"./run\"]"));
    assert_eq!(verify_chattyedu_visual_load_contract(&native_value, &launched), Ok(()));
    assert_eq!(
        verify_chattyedu_visual_load_contract(&webview_value(), &webview_spec()),
        Err(s("chattyedu visual load contract failed: unsupported kind 'webview'"))
    );
}

#[test]
fn chattycog_module_paths_and_identity() {
    let spec = cog_spec();
    assert_eq!(
        chattycog_module_required_paths(&spec),
        vec![s("module.json"), s("HANDSHAKE.md"), s("bridge/status.json"), s("visual_load.json")]
    );
    let handshake = "Module board — Board";
    let ok = verify_chattycog_module_contract(
        &spec,
        &identity("board", "Board"),
        handshake,
        &status("suspend_rundown", "board"),
        &Some(Ok(webview_value())),
    );
    assert_eq!(ok, Ok(()));
    assert_eq!(
        verify_chattycog_module_contract(
            &spec,
            &identity("other", "Board"),
            handshake,
            &status("suspend_rundown", "board"),
            &Some(Ok(webview_value())),
        ),
        Err(s("chattycog module contract failed: manifest module_id did not match module spec"))
    );
    assert_eq!(
        verify_chattycog_module_contract(
            &spec,
            &identity("board", "Board"),
            handshake,
            &status("resume", "board"),
            &Some(Ok(webview_value())),
        ),
        Err(s("chattycog module contract failed: bridge status stub must use suspend_rundown"))
    );
    assert_eq!(
        verify_chattycog_module_contract(
            &spec,
            &identity("board", "Board"),
            handshake,
            &status("suspend_rundown", "board"),
            &Some(Err(s("expected value at line 1 column 1"))),
        ),
        Err(s("expected value at line 1 column 1"))
    );
    let mut workspace = cog_spec();
    workspace.visual_load_path = None;
    workspace.visual_load = None;
    assert_eq!(
        verify_chattycog_module_contract(
            &workspace,
            &identity("board", "Board"),
            handshake,
            &status("suspend_rundown", "board"),
            &None,
        ),
        Err(s("chattycog module contract failed: non-workspace module missing visual_load spec"))
    );
    let mut mismatch = cog_spec();
    mismatch.visual_load = None;
    assert_eq!(
        verify_chattycog_module_contract(
            &mismatch,
            &identity("board", "Board"),
            "",
            &status("suspend_rundown", "board"),
            &Some(Ok(webview_value())),
        ),
        Err(s("chattycog module contract failed: visual_load path/spec mismatch"))
    );
}

#[test]
fn chattycog_bridge_steps_follow_capabilities() {
    let steps = chattycog_bridge_probes(&cog_spec().bridge);
    assert_eq!(steps.len(), 7);
    assert!(matches!(&steps[0], BridgeProbe::Exists { path } if path == "bridge/status.json"));
    assert!(matches!(&steps[1], BridgeProbe::Fail { message }
        if message == "chattycog bridge contract failed: log_sources enabled but path missing"));
    assert!(matches!(&steps[2], BridgeProbe::Exists { path } if path == "bridge/shared_room_state.json"));
    assert!(matches!(&steps[3], BridgeProbe::Object { .. }));
    assert!(matches!(&steps[4], BridgeProbe::Exists { path } if path == "bridge/outgoing_room_events.json"));
    assert!(matches!(&steps[5], BridgeProbe::ArrayField { field, .. } if field == "events"));
    assert!(matches!(&steps[6], BridgeProbe::LaneDir { lane } if lane == "images"));
    let mut spec = cog_spec().bridge;
    spec.log_sources_path = Some(s("bridge/log_sources.json"));
    spec.capabilities.shared_room_state_enabled = false;
    spec.capabilities.outgoing_room_events_enabled = false;
    let steps = chattycog_bridge_probes(&spec);
    assert_eq!(steps.len(), 4);
    assert!(matches!(&steps[2], BridgeProbe::ArrayField { path, field, .. }
        if path == "bridge/log_sources.json" && field == "sources"));
    assert!(matches!(&steps[3], BridgeProbe::LaneDir { lane } if lane == "images"));
}

#[test]
fn missing_file_messages_classify_as_structured_mismatches() {
    let m = missing_path_message("chattycog bridge contract", "bridge/status.json");
    assert_eq!(m, "chattycog bridge contract failed: missing bridge/status.json");
    assert_eq!(classify_failure(&m), FailureClass::StructuredCodeGenerationMismatch);
    assert_eq!(
        missing_lane_dir_message("/p/bridge/incoming_assets/images"),
        "chattycog bridge contract failed: missing incoming asset lane directory /p/bridge/incoming_assets/images"
    );
}

#[test]
fn chattyedu_module_checks() {
    let spec = ChattyEduModuleSpec {
        module_id: s("quiz"),
        display_name: s("Quiz"),
        visual_kind: s("native_window"),
        manifest_path: s("module.json"),
        handshake_path: s("HANDSHAKE.md"),
        visual_load_path: s("visual_load.json"),
        network_capabilities_path: s("network.json"),
        bridge_status_env_var: s("CHATTY_BRIDGE_STATUS"),
    };
    assert_eq!(
        chattyedu_module_required_paths(&spec),
        vec![s("module.json"), s("HANDSHAKE.md"), s("visual_load.json"), s("network.json"), s("src/main.rs")]
    );
    let kind = Some(s("native_window"));
    let main_rs = "std::env::var(\"CHATTY_BRIDGE_STATUS\")";
    assert_eq!(
        verify_chattyedu_module_contract(&spec, &identity("quiz", "Quiz"), &kind, "quiz Quiz", main_rs, true),
        Ok(())
    );
    let r = verify_chattyedu_module_contract(&spec, &identity("quiz", "Quiz"), &kind, "quiz Quiz", "fn main(){}", true);
    assert_eq!(
        r,
        Err(s("chattyedu module contract failed: main.rs is missing the bridge env var contract"))
    );
    assert_eq!(
        classify_failure(&r.unwrap_err()),
        FailureClass::StructuredCodeGenerationMismatch
    );
    assert_eq!(
        verify_chattyedu_module_contract(&spec, &identity("quiz", "Quiz"), &kind, "quiz Quiz", main_rs, false),
        Err(s("chattyedu module contract failed: network_capabilities.json missing features array"))
    );
    assert_eq!(
        verify_chattyedu_module_contract(&spec, &identity("quiz", "Quiz"), &None, "quiz Quiz", main_rs, true),
        Err(s("chattyedu module contract failed: visual_load kind did not match module spec"))
    );
    assert_eq!(
        verify_chattyedu_module_contract(&spec, &identity("quiz", "Quiz"), &kind, "quiz only", main_rs, true),
        Err(s("chattyedu module contract failed: HANDSHAKE.md is missing module identity fields"))
    );
}

#[test]
fn module_and_bridge_failures_classify_as_structured_mismatches() {
    let spec = cog_spec();
    let r = verify_chattycog_module_contract(
        &spec,
        &identity("board", "Board"),
        "nothing here",
        &status("suspend_rundown", "board"),
        &Some(Ok(webview_value())),
    )
    .unwrap_err();
    assert_eq!(r, "chattycog module contract failed: HANDSHAKE.md is missing module identity fields");
    assert_eq!(classify_failure(&r), FailureClass::StructuredCodeGenerationMismatch);
    let mut v = webview_value();
    v.url = Some(s("http://x"));
    let mut declared = webview_spec();
    declared.url = Some(s("http://y"));
    let mut url_spec = cog_spec();
    url_spec.visual_load = Some(declared);
    let r = verify_chattycog_module_contract(
        &url_spec,
        &identity("board", "Board"),
        "board Board",
        &status("suspend_rundown", "board"),
        &Some(Ok(v)),
    )
    .unwrap_err();
    assert_eq!(r, "chattycog visual load contract failed: url mismatch");
    assert_eq!(classify_failure(&r), FailureClass::StructuredCodeGenerationMismatch);
    for probe in chattycog_bridge_probes(&spec.bridge) {
        let message = match probe {
            BridgeProbe::Fail { message } => message,
            BridgeProbe::ArrayField { message, .. } => message,
            BridgeProbe::Object { message, .. } => message,
            _ => continue,
        };
        assert_eq!(classify_failure(&message), FailureClass::StructuredCodeGenerationMismatch);
    }
}
