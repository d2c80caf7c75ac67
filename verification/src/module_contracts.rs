//! Acceptance checks on generated ChattyCog and ChattyEdu modules: the files
//! a module spec promises, the identity its manifest and handshake carry,
//! its visual load declaration, and the bridge files its capabilities need.
use vstd::prelude::*;

use crate::extensions::{is_text, opt_is};
use crate::surface::outcome;
use crate::failure::{
    failure_class_of, lemma_structured_failures_classify, mentions_earlier_rule, FailureClass,
};
use crate::text::{contains_text, has_prefix, has_sub, lowercase, owned, push_str, text_eq, views};

verus! {

// ---------------------------------------------------------------------------
// Data read from the module's files
// ---------------------------------------------------------------------------

/// A visual load declaration, as a module spec or a visual load file declares it.
pub struct VisualLoadSpec {
    pub kind: String,
    pub auto_launch: bool,
    pub title: Option<String>,
    pub file: Option<String>,
    pub url: Option<String>,
    pub launch_command: Option<String>,
}

/// What the checks read of a visual load file: its fields that are present
/// with the expected JSON type.
pub struct VisualLoadValue {
    pub kind: Option<String>,
    pub auto_launch: Option<bool>,
    pub title: Option<String>,
    pub file: Option<String>,
    pub url: Option<String>,
}

/// The capabilities a ChattyCog bridge declares.
pub struct BridgeCapabilities {
    pub log_sources_enabled: bool,
    pub shared_room_state_enabled: bool,
    pub shared_room_events_enabled: bool,
    pub outgoing_room_events_enabled: bool,
    pub incoming_asset_lanes: Vec<String>,
}

/// The bridge part of a ChattyCog module spec.
pub struct ChattyCogBridgeSpec {
    pub status_path: String,
    pub script_path: Option<String>,
    pub log_sources_path: Option<String>,
    pub capabilities: BridgeCapabilities,
}

/// A ChattyCog module spec.
pub struct ChattyCogModuleSpec {
    pub module_id: String,
    pub display_name: String,
    pub visual_kind: String,
    pub manifest_path: String,
    pub handshake_path: String,
    pub visual_load_path: Option<String>,
    pub visual_load: Option<VisualLoadSpec>,
    pub bridge: ChattyCogBridgeSpec,
}

/// A ChattyEdu module spec.
pub struct ChattyEduModuleSpec {
    pub module_id: String,
    pub display_name: String,
    pub visual_kind: String,
    pub manifest_path: String,
    pub handshake_path: String,
    pub visual_load_path: String,
    pub network_capabilities_path: String,
    pub bridge_status_env_var: String,
}

/// The identity fields a module manifest carries as strings.
pub struct ModuleIdentity {
    pub module_id: Option<String>,
    pub display_name: Option<String>,
}

/// The fields a bridge status stub carries as strings.
pub struct BridgeStatusFacts {
    pub event_type: Option<String>,
    pub module_id: Option<String>,
}

/// The message for a file a contract needs that is missing.
pub fn missing_path_message(contract: &str, shown: &str) -> (r: String)
    ensures
        r@ == contract@ + " failed: missing "@ + shown@,
{
    let mut m = owned(contract);
    push_str(&mut m, " failed: missing ");
    push_str(&mut m, shown);
    m
}

// ---------------------------------------------------------------------------
// Visual load
// ---------------------------------------------------------------------------

/// A visual load file agrees with its declaration: kind, auto-launch, and
/// each of title, file and url that the declaration sets.
pub open spec fn visual_value_result(value: VisualLoadValue, spec: VisualLoadSpec) -> Result<
    (),
    Seq<char>,
> {
    if !is_text(value.kind, spec.kind@) {
        Err("chattycog visual load contract failed: kind mismatch"@)
    } else if value.auto_launch != Some(spec.auto_launch) {
        Err("chattycog visual load contract failed: auto_launch mismatch"@)
    } else if spec.title is Some && !is_text(value.title, spec.title->0@) {
        Err("chattycog visual load contract failed: title mismatch"@)
    } else if spec.file is Some && !is_text(value.file, spec.file->0@) {
        Err("chattycog visual load contract failed: file mismatch"@)
    } else if spec.url is Some && !is_text(value.url, spec.url->0@) {
        Err("chattycog visual load contract failed: url mismatch"@)
    } else {
        Ok(())
    }
}

fn optional_field_matches(value: &Option<String>, wanted: &Option<String>) -> (r: bool)
    ensures
        r == !(wanted is Some && !is_text(*value, wanted->0@)),
{
    match wanted {
        Some(w) => opt_is(value, w.as_str()),
        None => true,
    }
}

/// Checks a visual load file against its declaration.
pub fn verify_visual_load_value(value: &VisualLoadValue, spec: &VisualLoadSpec) -> (r: Result<
    (),
    String,
>)
    ensures
        outcome(r) == visual_value_result(*value, *spec),
{
    if !opt_is(&value.kind, spec.kind.as_str()) {
        return Err(owned("chattycog visual load contract failed: kind mismatch"));
    }
    let auto_ok = match value.auto_launch {
        Some(b) => b == spec.auto_launch,
        None => false,
    };
    if !auto_ok {
        return Err(owned("chattycog visual load contract failed: auto_launch mismatch"));
    }
    if !optional_field_matches(&value.title, &spec.title) {
        return Err(owned("chattycog visual load contract failed: title mismatch"));
    }
    if !optional_field_matches(&value.file, &spec.file) {
        return Err(owned("chattycog visual load contract failed: file mismatch"));
    }
    if !optional_field_matches(&value.url, &spec.url) {
        return Err(owned("chattycog visual load contract failed: url mismatch"));
    }
    Ok(())
}

/// A ChattyCog visual load file agrees with itself as a declaration, and its
/// kind is a webview with a file or url, or a native window with a launch command.
pub open spec fn cog_visual_load_result(value: VisualLoadValue, spec: VisualLoadSpec) -> Result<
    (),
    Seq<char>,
> {
    if visual_value_result(value, spec) is Err {
        visual_value_result(value, spec)
    } else if spec.kind@ == "webview"@ {
        if spec.file is None && spec.url is None {
            Err("chattycog visual load contract failed: webview requires file or url"@)
        } else {
            Ok(())
        }
    } else if spec.kind@ == "native_window"@ {
        if spec.launch_command is None {
            Err("chattycog visual load contract failed: native_window requires launch command"@)
        } else {
            Ok(())
        }
    } else {
        Err("chattycog visual load contract failed: unsupported kind '"@ + spec.kind@ + "'"@)
    }
}

/// Checks a ChattyCog visual load file (`value` and `spec` read from the same file).
pub fn verify_chattycog_visual_load_contract(value: &VisualLoadValue, spec: &VisualLoadSpec) -> (r:
    Result<(), String>)
    ensures
        outcome(r) == cog_visual_load_result(*value, *spec),
{
    let first = verify_visual_load_value(value, spec);
    if first.is_err() {
        return first;
    }
    if text_eq(spec.kind.as_str(), "webview") {
        if spec.file.is_none() && spec.url.is_none() {
            return Err(owned("chattycog visual load contract failed: webview requires file or url"));
        }
        Ok(())
    } else if text_eq(spec.kind.as_str(), "native_window") {
        if spec.launch_command.is_none() {
            return Err(
                owned("chattycog visual load contract failed: native_window requires launch command"),
            );
        }
        Ok(())
    } else {
        let mut m = owned("chattycog visual load contract failed: unsupported kind '");
        push_str(&mut m, spec.kind.as_str());
        push_str(&mut m, "'");
        Err(m)
    }
}

/// A ChattyEdu visual load file agrees with itself as a declaration and is a
/// native window with a launch command.
pub open spec fn edu_visual_load_result(value: VisualLoadValue, spec: VisualLoadSpec) -> Result<
    (),
    Seq<char>,
> {
    if visual_value_result(value, spec) is Err {
        visual_value_result(value, spec)
    } else if spec.kind@ == "native_window"@ {
        if spec.launch_command is None {
            Err("chattyedu visual load contract failed: native_window requires launch command"@)
        } else {
            Ok(())
        }
    } else {
        Err("chattyedu visual load contract failed: unsupported kind '"@ + spec.kind@ + "'"@)
    }
}

/// Checks a ChattyEdu visual load file (`value` and `spec` read from the same file).
pub fn verify_chattyedu_visual_load_contract(value: &VisualLoadValue, spec: &VisualLoadSpec) -> (r:
    Result<(), String>)
    ensures
        outcome(r) == edu_visual_load_result(*value, *spec),
{
    let first = verify_visual_load_value(value, spec);
    if first.is_err() {
        return first;
    }
    if text_eq(spec.kind.as_str(), "native_window") {
        if spec.launch_command.is_none() {
            return Err(
                owned("chattyedu visual load contract failed: native_window requires launch command"),
            );
        }
        Ok(())
    } else {
        let mut m = owned("chattyedu visual load contract failed: unsupported kind '");
        push_str(&mut m, spec.kind.as_str());
        push_str(&mut m, "'");
        Err(m)
    }
}

// ---------------------------------------------------------------------------
// ChattyCog module
// ---------------------------------------------------------------------------

/// The optional path as a list of zero or one path.
pub open spec fn opt_path(o: Option<String>) -> Seq<Seq<char>> {
    match o {
        Some(p) => seq![p@],
        None => Seq::empty(),
    }
}

/// The files a ChattyCog module spec promises, in the order they are looked for.
pub open spec fn cog_required_paths(spec: ChattyCogModuleSpec) -> Seq<Seq<char>> {
    seq![spec.manifest_path@, spec.handshake_path@, spec.bridge.status_path@] + opt_path(
        spec.visual_load_path,
    ) + opt_path(spec.bridge.script_path)
}

fn push_opt_path(out: &mut Vec<String>, o: &Option<String>)
    ensures
        views(final(out)@) == views(old(out)@) + opt_path(*o),
{
    let ghost before = views(out@);
    match o {
        Some(p) => {
            out.push(p.clone());
            assert(views(out@) =~= before + seq![p@]);
        },
        None => {
            assert(views(out@) =~= before + Seq::<Seq<char>>::empty());
        },
    }
}

/// The files a ChattyCog module spec promises (relative to the project), in
/// the order they must be found; the first missing one fails the check.
pub fn chattycog_module_required_paths(spec: &ChattyCogModuleSpec) -> (r: Vec<String>)
    ensures
        views(r@) == cog_required_paths(*spec),
{
    let mut out: Vec<String> = Vec::new();
    out.push(spec.manifest_path.clone());
    out.push(spec.handshake_path.clone());
    out.push(spec.bridge.status_path.clone());
    assert(views(out@) =~= seq![
        spec.manifest_path@,
        spec.handshake_path@,
        spec.bridge.status_path@,
    ]);
    push_opt_path(&mut out, &spec.visual_load_path);
    push_opt_path(&mut out, &spec.bridge.script_path);
    out
}

/// The visual load part of the ChattyCog module check: a module with a
/// visual load file matches its declared kind and declaration; one without
/// is a workspace; a path without a declaration (or the reverse) fails.
/// `visual_load` is the file's content, or the error met reading it.
pub open spec fn cog_visual_part(
    spec: ChattyCogModuleSpec,
    visual_load: Option<Result<VisualLoadValue, String>>,
) -> Result<(), Seq<char>> {
    match (spec.visual_load_path, spec.visual_load) {
        (Some(_), Some(declared)) => match visual_load {
            Some(Ok(v)) => if !is_text(v.kind, spec.visual_kind@) {
                Err("chattycog module contract failed: visual_load kind did not match module spec"@)
            } else {
                visual_value_result(v, declared)
            },
            Some(Err(e)) => Err(e@),
            None => Ok(()),
        },
        (None, None) => if spec.visual_kind@ != "workspace"@ {
            Err("chattycog module contract failed: non-workspace module missing visual_load spec"@)
        } else {
            Ok(())
        },
        _ => Err("chattycog module contract failed: visual_load path/spec mismatch"@),
    }
}

/// The ChattyCog module check once its files are found: the manifest carries
/// the module's id and display name, the visual load part holds, the
/// handshake mentions both, and the bridge status stub is a
/// `suspend_rundown` event of this module.
pub open spec fn cog_module_result(
    spec: ChattyCogModuleSpec,
    manifest: ModuleIdentity,
    handshake: Seq<char>,
    bridge_status: BridgeStatusFacts,
    visual_load: Option<Result<VisualLoadValue, String>>,
) -> Result<(), Seq<char>> {
    if !is_text(manifest.module_id, spec.module_id@) {
        Err("chattycog module contract failed: manifest module_id did not match module spec"@)
    } else if !is_text(manifest.display_name, spec.display_name@) {
        Err("chattycog module contract failed: manifest display_name did not match module spec"@)
    } else if cog_visual_part(spec, visual_load) is Err {
        cog_visual_part(spec, visual_load)
    } else if !has_sub(handshake, spec.module_id@) || !has_sub(handshake, spec.display_name@) {
        Err("chattycog module contract failed: HANDSHAKE.md is missing module identity fields"@)
    } else if !is_text(bridge_status.event_type, "suspend_rundown"@) {
        Err("chattycog module contract failed: bridge status stub must use suspend_rundown"@)
    } else if !is_text(bridge_status.module_id, spec.module_id@) {
        Err("chattycog module contract failed: bridge status module_id did not match module spec"@)
    } else {
        Ok(())
    }
}

fn check_cog_visual_part(
    spec: &ChattyCogModuleSpec,
    visual_load: &Option<Result<VisualLoadValue, String>>,
) -> (r: Result<(), String>)
    requires
        spec.visual_load_path is Some ==> visual_load is Some,
    ensures
        outcome(r) == cog_visual_part(*spec, *visual_load),
{
    match (&spec.visual_load_path, &spec.visual_load) {
        (Some(_), Some(declared)) => match visual_load {
            Some(Ok(v)) => {
                if !opt_is(&v.kind, spec.visual_kind.as_str()) {
                    return Err(
                        owned(
                            "chattycog module contract failed: visual_load kind did not match module spec",
                        ),
                    );
                }
                verify_visual_load_value(v, declared)
            },
            Some(Err(e)) => Err(e.clone()),
            None => Ok(()),
        },
        (None, None) => {
            if !text_eq(spec.visual_kind.as_str(), "workspace") {
                return Err(
                    owned(
                        "chattycog module contract failed: non-workspace module missing visual_load spec",
                    ),
                );
            }
            Ok(())
        },
        _ => Err(owned("chattycog module contract failed: visual_load path/spec mismatch")),
    }
}

/// Checks a ChattyCog module whose promised files were all found: `manifest`
/// and `bridge_status` are read from its manifest and bridge status stub,
/// `handshake` is its handshake text, and `visual_load` is its visual load
/// file (read when the spec names one).
pub fn verify_chattycog_module_contract(
    spec: &ChattyCogModuleSpec,
    manifest: &ModuleIdentity,
    handshake: &str,
    bridge_status: &BridgeStatusFacts,
    visual_load: &Option<Result<VisualLoadValue, String>>,
) -> (r: Result<(), String>)
    requires
        spec.visual_load_path is Some ==> visual_load is Some,
    ensures
        outcome(r) == cog_module_result(*spec, *manifest, handshake@, *bridge_status, *visual_load),
{
    if !opt_is(&manifest.module_id, spec.module_id.as_str()) {
        return Err(
            owned("chattycog module contract failed: manifest module_id did not match module spec"),
        );
    }
    if !opt_is(&manifest.display_name, spec.display_name.as_str()) {
        return Err(
            owned(
                "chattycog module contract failed: manifest display_name did not match module spec",
            ),
        );
    }
    let visual = check_cog_visual_part(spec, visual_load);
    if visual.is_err() {
        return visual;
    }
    if !contains_text(handshake, spec.module_id.as_str()) || !contains_text(
        handshake,
        spec.display_name.as_str(),
    ) {
        return Err(
            owned("chattycog module contract failed: HANDSHAKE.md is missing module identity fields"),
        );
    }
    if !opt_is(&bridge_status.event_type, "suspend_rundown") {
        return Err(
            owned("chattycog module contract failed: bridge status stub must use suspend_rundown"),
        );
    }
    if !opt_is(&bridge_status.module_id, spec.module_id.as_str()) {
        return Err(
            owned(
                "chattycog module contract failed: bridge status module_id did not match module spec",
            ),
        );
    }
    Ok(())
}

// ---------------------------------------------------------------------------
// ChattyCog bridge
// ---------------------------------------------------------------------------

/// One step of the ChattyCog bridge check.
pub enum BridgeProbe {
    /// The file (relative to the project) must exist.
    Exists { path: String },
    /// The check fails with this message.
    Fail { message: String },
    /// The JSON file must hold an array under `field`, else `message`.
    ArrayField { path: String, field: String, message: String },
    /// The JSON file must hold an object, else `message`.
    Object { path: String, message: String },
    /// `bridge/incoming_assets/<lane>` must be a directory.
    LaneDir { lane: String },
}

/// A bridge step as text.
pub enum BridgeStep {
    Exists(Seq<char>),
    Fail(Seq<char>),
    ArrayField(Seq<char>, Seq<char>, Seq<char>),
    Object(Seq<char>, Seq<char>),
    LaneDir(Seq<char>),
}

impl BridgeProbe {
    /// The step as text.
    pub open spec fn step(&self) -> BridgeStep {
        match self {
            BridgeProbe::Exists { path } => BridgeStep::Exists(path@),
            BridgeProbe::Fail { message } => BridgeStep::Fail(message@),
            BridgeProbe::ArrayField { path, field, message } => BridgeStep::ArrayField(
                path@,
                field@,
                message@,
            ),
            BridgeProbe::Object { path, message } => BridgeStep::Object(path@, message@),
            BridgeProbe::LaneDir { lane } => BridgeStep::LaneDir(lane@),
        }
    }
}

/// The steps of a list of bridge probes.
pub open spec fn steps(v: Seq<BridgeProbe>) -> Seq<BridgeStep> {
    Seq::new(v.len(), |i: int| v[i].step())
}

/// A JSON events file the bridge must provide when the capability is on.
pub open spec fn events_steps(enabled: bool, path: Seq<char>, message: Seq<char>) -> Seq<
    BridgeStep,
> {
    if enabled {
        seq![BridgeStep::Exists(path), BridgeStep::ArrayField(path, "events"@, message)]
    } else {
        Seq::empty()
    }
}

/// The steps of the ChattyCog bridge check, in order: the status stub, then
/// the log sources, shared room state, shared room events and outgoing room
/// events each capability asks for, then each incoming asset lane's folder.
pub open spec fn bridge_steps(spec: ChattyCogBridgeSpec) -> Seq<BridgeStep> {
    let caps = spec.capabilities;
    seq![BridgeStep::Exists(spec.status_path@)] + (if caps.log_sources_enabled {
        match spec.log_sources_path {
            None => seq![
                BridgeStep::Fail(
                    "chattycog bridge contract failed: log_sources enabled but path missing"@,
                ),
            ],
            Some(p) => seq![
                BridgeStep::Exists(p@),
                BridgeStep::ArrayField(
                    p@,
                    "sources"@,
                    "chattycog bridge contract failed: log_sources.json missing sources array"@,
                ),
            ],
        }
    } else {
        Seq::empty()
    }) + (if caps.shared_room_state_enabled {
        seq![
            BridgeStep::Exists("bridge/shared_room_state.json"@),
            BridgeStep::Object(
                "bridge/shared_room_state.json"@,
                "chattycog bridge contract failed: shared_room_state.json must be a json object"@,
            ),
        ]
    } else {
        Seq::empty()
    }) + events_steps(
        caps.shared_room_events_enabled,
        "bridge/shared_room_events.json"@,
        "chattycog bridge contract failed: shared_room_events.json missing events array"@,
    ) + events_steps(
        caps.outgoing_room_events_enabled,
        "bridge/outgoing_room_events.json"@,
        "chattycog bridge contract failed: outgoing_room_events.json missing events array"@,
    ) + Seq::new(
        caps.incoming_asset_lanes@.len(),
        |i: int| BridgeStep::LaneDir(caps.incoming_asset_lanes@[i]@),
    )
}

fn push_probe(out: &mut Vec<BridgeProbe>, p: BridgeProbe)
    ensures
        steps(final(out)@) == steps(old(out)@).push(p.step()),
{
    let ghost before = out@;
    out.push(p);
    assert(steps(out@) =~= steps(before).push(p.step()));
}

fn push_events_probes(out: &mut Vec<BridgeProbe>, enabled: bool, path: &str, message: &str)
    ensures
        steps(final(out)@) == steps(old(out)@) + events_steps(enabled, path@, message@),
{
    let ghost before = steps(out@);
    if enabled {
        push_probe(out, BridgeProbe::Exists { path: owned(path) });
        push_probe(
            out,
            BridgeProbe::ArrayField { path: owned(path), field: owned("events"), message: owned(message) },
        );
        assert(steps(out@) =~= before + events_steps(enabled, path@, message@));
    } else {
        assert(steps(out@) =~= before + events_steps(enabled, path@, message@));
    }
}

/// The steps of the ChattyCog bridge check for this bridge spec. Each step
/// is carried out in turn and the first that fails ends the check: a missing
/// file or lane folder, a `Fail` step, or a JSON file without the required
/// array or object.
pub fn chattycog_bridge_probes(spec: &ChattyCogBridgeSpec) -> (r: Vec<BridgeProbe>)
    ensures
        steps(r@) == bridge_steps(*spec),
{
    let ghost sp = *spec;
    let caps = &spec.capabilities;
    let mut out: Vec<BridgeProbe> = Vec::new();
    push_probe(&mut out, BridgeProbe::Exists { path: spec.status_path.clone() });
    let ghost s0 = steps(out@);
    assert(s0 =~= seq![BridgeStep::Exists(sp.status_path@)]);
    if caps.log_sources_enabled {
        match &spec.log_sources_path {
            None => {
                push_probe(
                    &mut out,
                    BridgeProbe::Fail {
                        message: owned(
                            "chattycog bridge contract failed: log_sources enabled but path missing",
                        ),
                    },
                );
            },
            Some(p) => {
                push_probe(&mut out, BridgeProbe::Exists { path: p.clone() });
                push_probe(
                    &mut out,
                    BridgeProbe::ArrayField {
                        path: p.clone(),
                        field: owned("sources"),
                        message: owned(
                            "chattycog bridge contract failed: log_sources.json missing sources array",
                        ),
                    },
                );
            },
        }
    }
    let ghost log_part: Seq<BridgeStep> = if sp.capabilities.log_sources_enabled {
        match sp.log_sources_path {
            None => seq![
                BridgeStep::Fail(
                    "chattycog bridge contract failed: log_sources enabled but path missing"@,
                ),
            ],
            Some(p) => seq![
                BridgeStep::Exists(p@),
                BridgeStep::ArrayField(
                    p@,
                    "sources"@,
                    "chattycog bridge contract failed: log_sources.json missing sources array"@,
                ),
            ],
        }
    } else {
        Seq::empty()
    };
    assert(steps(out@) =~= s0 + log_part);
    let ghost s1 = steps(out@);
    if caps.shared_room_state_enabled {
        push_probe(&mut out, BridgeProbe::Exists { path: owned("bridge/shared_room_state.json") });
        push_probe(
            &mut out,
            BridgeProbe::Object {
                path: owned("bridge/shared_room_state.json"),
                message: owned(
                    "chattycog bridge contract failed: shared_room_state.json must be a json object",
                ),
            },
        );
    }
    let ghost state_part: Seq<BridgeStep> = if sp.capabilities.shared_room_state_enabled {
        seq![
            BridgeStep::Exists("bridge/shared_room_state.json"@),
            BridgeStep::Object(
                "bridge/shared_room_state.json"@,
                "chattycog bridge contract failed: shared_room_state.json must be a json object"@,
            ),
        ]
    } else {
        Seq::empty()
    };
    assert(steps(out@) =~= s1 + state_part);
    push_events_probes(
        &mut out,
        caps.shared_room_events_enabled,
        "bridge/shared_room_events.json",
        "chattycog bridge contract failed: shared_room_events.json missing events array",
    );
    push_events_probes(
        &mut out,
        caps.outgoing_room_events_enabled,
        "bridge/outgoing_room_events.json",
        "chattycog bridge contract failed: outgoing_room_events.json missing events array",
    );
    let ghost s4 = steps(out@);
    let lanes = &caps.incoming_asset_lanes;
    let mut i: usize = 0;
    while i < lanes.len()
        invariant
            i <= lanes.len(),
            steps(out@) == s4 + Seq::new(i as nat, |k: int| BridgeStep::LaneDir(lanes@[k]@)),
        decreases lanes.len() - i,
    {
        push_probe(&mut out, BridgeProbe::LaneDir { lane: lanes[i].clone() });
        assert(Seq::new((i + 1) as nat, |k: int| BridgeStep::LaneDir(lanes@[k]@)) =~= Seq::new(
            i as nat,
            |k: int| BridgeStep::LaneDir(lanes@[k]@),
        ).push(BridgeStep::LaneDir(lanes@[i as int]@)));
        i = i + 1;
    }
    assert(steps(out@) =~= bridge_steps(sp));
    out
}

/// The message for an incoming asset lane whose folder is missing.
pub fn missing_lane_dir_message(shown: &str) -> (r: String)
    ensures
        r@ == "chattycog bridge contract failed: missing incoming asset lane directory "@ + shown@,
{
    let mut m = owned("chattycog bridge contract failed: missing incoming asset lane directory ");
    push_str(&mut m, shown);
    m
}

// ---------------------------------------------------------------------------
// ChattyEdu module
// ---------------------------------------------------------------------------

/// The files a ChattyEdu module spec promises, in the order they are looked for.
pub open spec fn edu_required_paths(spec: ChattyEduModuleSpec) -> Seq<Seq<char>> {
    seq![
        spec.manifest_path@,
        spec.handshake_path@,
        spec.visual_load_path@,
        spec.network_capabilities_path@,
        "src/main.rs"@,
    ]
}

/// The files a ChattyEdu module spec promises (relative to the project), in
/// the order they must be found.
pub fn chattyedu_module_required_paths(spec: &ChattyEduModuleSpec) -> (r: Vec<String>)
    ensures
        views(r@) == edu_required_paths(*spec),
{
    let mut out: Vec<String> = Vec::new();
    out.push(spec.manifest_path.clone());
    out.push(spec.handshake_path.clone());
    out.push(spec.visual_load_path.clone());
    out.push(spec.network_capabilities_path.clone());
    out.push(owned("src/main.rs"));
    assert(views(out@) =~= edu_required_paths(*spec));
    out
}

/// The ChattyEdu module check once its files are read: the manifest carries
/// the module's id and display name, the visual load has the declared kind,
/// the handshake mentions both, `src/main.rs` names the bridge status
/// variable, and the network capabilities list features.
pub open spec fn edu_module_result(
    spec: ChattyEduModuleSpec,
    manifest: ModuleIdentity,
    visual_kind: Option<String>,
    handshake: Seq<char>,
    main_rs: Seq<char>,
    has_features: bool,
) -> Result<(), Seq<char>> {
    if !is_text(manifest.module_id, spec.module_id@) {
        Err("chattyedu module contract failed: manifest module_id did not match module spec"@)
    } else if !is_text(manifest.display_name, spec.display_name@) {
        Err("chattyedu module contract failed: manifest display_name did not match module spec"@)
    } else if !is_text(visual_kind, spec.visual_kind@) {
        Err("chattyedu module contract failed: visual_load kind did not match module spec"@)
    } else if !has_sub(handshake, spec.module_id@) || !has_sub(handshake, spec.display_name@) {
        Err("chattyedu module contract failed: HANDSHAKE.md is missing module identity fields"@)
    } else if !has_sub(main_rs, spec.bridge_status_env_var@) {
        Err("chattyedu module contract failed: main.rs is missing the bridge env var contract"@)
    } else if !has_features {
        Err("chattyedu module contract failed: network_capabilities.json missing features array"@)
    } else {
        Ok(())
    }
}

/// Checks a ChattyEdu module whose promised files were all read: its
/// manifest's identity, its visual load's `kind`, its handshake and main
/// source, and whether its network capabilities hold a `features` array.
pub fn verify_chattyedu_module_contract(
    spec: &ChattyEduModuleSpec,
    manifest: &ModuleIdentity,
    visual_kind: &Option<String>,
    handshake: &str,
    main_rs: &str,
    has_features: bool,
) -> (r: Result<(), String>)
    ensures
        outcome(r) == edu_module_result(
            *spec,
            *manifest,
            *visual_kind,
            handshake@,
            main_rs@,
            has_features,
        ),
{
    if !opt_is(&manifest.module_id, spec.module_id.as_str()) {
        return Err(
            owned("chattyedu module contract failed: manifest module_id did not match module spec"),
        );
    }
    if !opt_is(&manifest.display_name, spec.display_name.as_str()) {
        return Err(
            owned(
                "chattyedu module contract failed: manifest display_name did not match module spec",
            ),
        );
    }
    if !opt_is(visual_kind, spec.visual_kind.as_str()) {
        return Err(
            owned("chattyedu module contract failed: visual_load kind did not match module spec"),
        );
    }
    if !contains_text(handshake, spec.module_id.as_str()) || !contains_text(
        handshake,
        spec.display_name.as_str(),
    ) {
        return Err(
            owned("chattyedu module contract failed: HANDSHAKE.md is missing module identity fields"),
        );
    }
    if !contains_text(main_rs, spec.bridge_status_env_var.as_str()) {
        return Err(
            owned("chattyedu module contract failed: main.rs is missing the bridge env var contract"),
        );
    }
    if !has_features {
        return Err(
            owned(
                "chattyedu module contract failed: network_capabilities.json missing features array",
            ),
        );
    }
    Ok(())
}

// ---------------------------------------------------------------------------
// How module contract failures are classified
// ---------------------------------------------------------------------------

proof fn lemma_opens_with(m: Seq<char>, heading: Seq<char>)
    requires
        heading.len() <= m.len(),
        m.subrange(0, heading.len() as int) == heading,
    ensures
        has_prefix(m, heading),
{
}

/// Every failure of the ChattyEdu module check is a structured code
/// generation mismatch to the failure classifier, unless its text mentions
/// something an earlier rule looks for.
pub proof fn lemma_edu_module_failures_are_structured(
    spec: ChattyEduModuleSpec,
    manifest: ModuleIdentity,
    visual_kind: Option<String>,
    handshake: Seq<char>,
    main_rs: Seq<char>,
    has_features: bool,
    m: Seq<char>,
)
    requires
        edu_module_result(spec, manifest, visual_kind, handshake, main_rs, has_features) == Err::<
            (),
            Seq<char>,
        >(m),
        !mentions_earlier_rule(lowercase(m)),
    ensures
        failure_class_of(lowercase(m)) == FailureClass::StructuredCodeGenerationMismatch,
{
    let h = "chattyedu module contract failed"@;
    reveal_strlit("chattyedu module contract failed");
    reveal_strlit("chattyedu module contract failed: manifest module_id did not match module spec");
    reveal_strlit(
        "chattyedu module contract failed: manifest display_name did not match module spec",
    );
    reveal_strlit("chattyedu module contract failed: visual_load kind did not match module spec");
    reveal_strlit("chattyedu module contract failed: HANDSHAKE.md is missing module identity fields");
    reveal_strlit("chattyedu module contract failed: main.rs is missing the bridge env var contract");
    reveal_strlit(
        "chattyedu module contract failed: network_capabilities.json missing features array",
    );
    assert(m.subrange(0, h.len() as int) =~= h);
    lemma_opens_with(m, h);
    lemma_structured_failures_classify(h, m);
}

/// A missing-file failure of a ChattyCog module, ChattyCog bridge or
/// ChattyEdu module check is a structured code generation mismatch to the
/// failure classifier, unless its text mentions something an earlier rule
/// looks for.
pub proof fn lemma_missing_path_failures_are_structured(contract: Seq<char>, shown: Seq<char>)
    requires
        contract == "chattycog module contract"@ || contract == "chattycog bridge contract"@
            || contract == "chattyedu module contract"@,
        !mentions_earlier_rule(lowercase(contract + " failed: missing "@ + shown)),
    ensures
        failure_class_of(lowercase(contract + " failed: missing "@ + shown))
            == FailureClass::StructuredCodeGenerationMismatch,
{
    let m = contract + " failed: missing "@ + shown;
    reveal_strlit("chattycog module contract");
    reveal_strlit("chattycog bridge contract");
    reveal_strlit("chattyedu module contract");
    reveal_strlit(" failed: missing ");
    reveal_strlit("chattycog module contract failed");
    reveal_strlit("chattycog bridge contract failed");
    reveal_strlit("chattyedu module contract failed");
    let h = if contract == "chattycog module contract"@ {
        "chattycog module contract failed"@
    } else if contract == "chattycog bridge contract"@ {
        "chattycog bridge contract failed"@
    } else {
        "chattyedu module contract failed"@
    };
    assert(m.subrange(0, h.len() as int) =~= h);
    lemma_opens_with(m, h);
    lemma_structured_failures_classify(h, m);
}

/// Every failure of the ChattyCog module check, other than an error met
/// reading its visual load file, is a structured code generation mismatch to
/// the failure classifier, unless its text mentions something an earlier
/// rule looks for.
pub proof fn lemma_cog_module_failures_are_structured(
    spec: ChattyCogModuleSpec,
    manifest: ModuleIdentity,
    handshake: Seq<char>,
    bridge_status: BridgeStatusFacts,
    visual_load: Option<Result<VisualLoadValue, String>>,
    m: Seq<char>,
)
    requires
        cog_module_result(spec, manifest, handshake, bridge_status, visual_load) == Err::<
            (),
            Seq<char>,
        >(m),
        !(visual_load matches Some(Err(_))),
        !mentions_earlier_rule(lowercase(m)),
    ensures
        failure_class_of(lowercase(m)) == FailureClass::StructuredCodeGenerationMismatch,
{
    reveal_strlit("chattycog module contract failed");
    reveal_strlit("chattycog visual load contract failed");
    reveal_strlit("chattycog module contract failed: manifest module_id did not match module spec");
    reveal_strlit(
        "chattycog module contract failed: manifest display_name did not match module spec",
    );
    reveal_strlit("chattycog module contract failed: visual_load kind did not match module spec");
    reveal_strlit(
        "chattycog module contract failed: non-workspace module missing visual_load spec",
    );
    reveal_strlit("chattycog module contract failed: visual_load path/spec mismatch");
    reveal_strlit("chattycog module contract failed: HANDSHAKE.md is missing module identity fields");
    reveal_strlit("chattycog module contract failed: bridge status stub must use suspend_rundown");
    reveal_strlit(
        "chattycog module contract failed: bridge status module_id did not match module spec",
    );
    reveal_strlit("chattycog visual load contract failed: kind mismatch");
    reveal_strlit("chattycog visual load contract failed: auto_launch mismatch");
    reveal_strlit("chattycog visual load contract failed: title mismatch");
    reveal_strlit("chattycog visual load contract failed: file mismatch");
    reveal_strlit("chattycog visual load contract failed: url mismatch");
    let module_heading = "chattycog module contract failed"@;
    let visual_heading = "chattycog visual load contract failed"@;
    if m.len() >= module_heading.len() && m.subrange(0, module_heading.len() as int)
        =~= module_heading {
        lemma_opens_with(m, module_heading);
        lemma_structured_failures_classify(module_heading, m);
    } else {
        assert(m.subrange(0, visual_heading.len() as int) =~= visual_heading);
        lemma_opens_with(m, visual_heading);
        lemma_structured_failures_classify(visual_heading, m);
    }
}

/// The message a bridge step fails with, if it carries one.
pub open spec fn step_message(step: BridgeStep) -> Option<Seq<char>> {
    match step {
        BridgeStep::Fail(m) => Some(m),
        BridgeStep::ArrayField(_, _, m) => Some(m),
        BridgeStep::Object(_, m) => Some(m),
        _ => None,
    }
}

/// Every message the ChattyCog bridge check's steps fail with is a
/// structured code generation mismatch to the failure classifier, unless it
/// mentions something an earlier rule looks for.
pub proof fn lemma_bridge_step_failures_are_structured(spec: ChattyCogBridgeSpec, i: int)
    requires
        0 <= i < bridge_steps(spec).len(),
        step_message(bridge_steps(spec)[i]) is Some,
        !mentions_earlier_rule(lowercase(step_message(bridge_steps(spec)[i])->0)),
    ensures
        failure_class_of(lowercase(step_message(bridge_steps(spec)[i])->0))
            == FailureClass::StructuredCodeGenerationMismatch,
{
    let m = step_message(bridge_steps(spec)[i])->0;
    let h = "chattycog bridge contract failed"@;
    reveal_strlit("chattycog bridge contract failed");
    reveal_strlit("chattycog bridge contract failed: log_sources enabled but path missing");
    reveal_strlit("chattycog bridge contract failed: log_sources.json missing sources array");
    reveal_strlit(
        "chattycog bridge contract failed: shared_room_state.json must be a json object",
    );
    reveal_strlit(
        "chattycog bridge contract failed: shared_room_events.json missing events array",
    );
    reveal_strlit(
        "chattycog bridge contract failed: outgoing_room_events.json missing events array",
    );
    assert(m.subrange(0, h.len() as int) =~= h);
    lemma_opens_with(m, h);
    lemma_structured_failures_classify(h, m);
}

} // verus!
