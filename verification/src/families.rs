//! Project families and template bundles: display names, ecosystem badges,
//! the labels the governance pickers show and the governed-artifact lines.
use vstd::prelude::*;


use crate::patchability::ProjectPatchReadinessReceiptView;
use crate::text::{decimal, is_blank, owned, push_str, push_usize, text_eq, trimmed};

verus! {

/// A family's governance receipt, as the family panel reads it.
pub struct FamilyGovernanceReceiptView {
    pub family_id: String,
    pub family_display_name: Option<String>,
    pub family_ecosystem: Option<String>,
    pub manifest_path: String,
    pub primary_substrate: String,
    pub lifecycle_status: String,
    pub lifecycle_notes: Vec<String>,
    pub supported_tool_kinds: Vec<String>,
    pub provided_build_primitive_classes: Vec<String>,
    pub primitive_adapter_ids: Vec<String>,
    pub drift_status: String,
    pub drift_notes: Vec<String>,
    pub change_since_last_live_status: String,
    pub change_since_last_live_notes: Vec<String>,
}

/// A template bundle's governance receipt, as the template panel reads it.
pub struct TemplateGovernanceReceiptView {
    pub template_bundle_id: String,
    pub template_category: String,
    pub template_root: String,
    pub artifact_paths: Vec<String>,
    pub drift_status: String,
    pub drift_notes: Vec<String>,
    pub change_since_last_live_status: String,
    pub change_since_last_live_notes: Vec<String>,
}

/// The built-in display name of a family id.
pub open spec fn display_name(id: Seq<char>) -> Seq<char> {
    if id == "chattycog_native_window_module"@ {
        "Chatty-Cog Rust Native Dashboard"@
    } else if id == "chattyedu_native_window_module"@ {
        "Chatty-EDU Rust Native Dashboard"@
    } else if id == "chattycog_chattyedu_native_window_module"@ {
        "Chatty-Cog + Chatty-EDU Rust Native Dashboard"@
    } else if id == "chattycog_webview_module"@ {
        "Chatty-Cog Webview Module"@
    } else if id == "chattycog_workspace_module"@ {
        "Chatty-Cog Workspace Module"@
    } else if id == "static_web_dashboard"@ {
        "Static Web Dashboard"@
    } else if id == "rust_cli_tool"@ {
        "Rust CLI Tool"@
    } else if id == "python_cli_tool"@ {
        "Python CLI Tool"@
    } else {
        "Unknown Family"@
    }
}

/// The display name of a family id.
pub fn family_display_name(family_id: &str) -> (r: &'static str)
    ensures
        r@ == display_name(family_id@),
{
    if text_eq(family_id, "chattycog_native_window_module") {
        "Chatty-Cog Rust Native Dashboard"
    } else if text_eq(family_id, "chattyedu_native_window_module") {
        "Chatty-EDU Rust Native Dashboard"
    } else if text_eq(family_id, "chattycog_chattyedu_native_window_module") {
        "Chatty-Cog + Chatty-EDU Rust Native Dashboard"
    } else if text_eq(family_id, "chattycog_webview_module") {
        "Chatty-Cog Webview Module"
    } else if text_eq(family_id, "chattycog_workspace_module") {
        "Chatty-Cog Workspace Module"
    } else if text_eq(family_id, "static_web_dashboard") {
        "Static Web Dashboard"
    } else if text_eq(family_id, "rust_cli_tool") {
        "Rust CLI Tool"
    } else if text_eq(family_id, "python_cli_tool") {
        "Python CLI Tool"
    } else {
        "Unknown Family"
    }
}

/// The ecosystem badge of the Chatty-Cog and Chatty-EDU families.
pub open spec fn ecosystem_badge(id: Seq<char>) -> Option<Seq<char>> {
    if id == "chattycog_native_window_module"@ || id == "chattycog_webview_module"@ || id
        == "chattycog_workspace_module"@ {
        Some("[ecosystem: Chatty-Cog]"@)
    } else if id == "chattyedu_native_window_module"@ {
        Some("[ecosystem: Chatty-EDU]"@)
    } else if id == "chattycog_chattyedu_native_window_module"@ {
        Some("[ecosystem: Chatty-Cog + Chatty-EDU]"@)
    } else {
        None
    }
}

/// The ecosystem badge of a family id, if it belongs to one.
pub fn family_ecosystem_badge(family_id: &str) -> (r: Option<&'static str>)
    ensures
        match r {
            Some(b) => ecosystem_badge(family_id@) == Some(b@),
            None => ecosystem_badge(family_id@) is None,
        },
{
    if text_eq(family_id, "chattycog_native_window_module") || text_eq(
        family_id,
        "chattycog_webview_module",
    ) || text_eq(family_id, "chattycog_workspace_module") {
        Some("[ecosystem: Chatty-Cog]")
    } else if text_eq(family_id, "chattyedu_native_window_module") {
        Some("[ecosystem: Chatty-EDU]")
    } else if text_eq(family_id, "chattycog_chattyedu_native_window_module") {
        Some("[ecosystem: Chatty-Cog + Chatty-EDU]")
    } else {
        None
    }
}

/// Display name, followed by the ecosystem badge when there is one.
pub open spec fn summary_label(id: Seq<char>) -> Seq<char> {
    match ecosystem_badge(id) {
        Some(b) => display_name(id) + " "@ + b,
        None => display_name(id),
    }
}

/// The summary label of a family id.
pub fn family_summary_label(family_id: &str) -> (r: String)
    ensures
        r@ == summary_label(family_id@),
{
    match family_ecosystem_badge(family_id) {
        Some(badge) => {
            let mut s = owned(family_display_name(family_id));
            push_str(&mut s, " ");
            push_str(&mut s, badge);
            s
        },
        None => owned(family_display_name(family_id)),
    }
}

/// A recorded display name (with its ecosystem when recorded) wins over
/// the built-in label; blank names do not count.
pub open spec fn recorded_label(
    name: Option<String>,
    ecosystem: Option<String>,
    family_id: Seq<char>,
) -> Seq<char> {
    match name {
        Some(n) => if trimmed(n@).len() > 0 {
            match ecosystem {
                Some(e) => n@ + " [ecosystem: "@ + e@ + "]"@,
                None => n@,
            }
        } else {
            summary_label(family_id)
        },
        None => summary_label(family_id),
    }
}

fn recorded_label_exec(name: &Option<String>, ecosystem: &Option<String>, family_id: &str) -> (r:
    String)
    ensures
        r@ == recorded_label(*name, *ecosystem, family_id@),
{
    match name {
        Some(n) => {
            if !is_blank(n.as_str()) {
                match ecosystem {
                    Some(e) => {
                        let mut s = owned(n.as_str());
                        push_str(&mut s, " [ecosystem: ");
                        push_str(&mut s, e.as_str());
                        push_str(&mut s, "]");
                        s
                    },
                    None => owned(n.as_str()),
                }
            } else {
                family_summary_label(family_id)
            }
        },
        None => family_summary_label(family_id),
    }
}

/// The family label of a family governance receipt.
pub fn family_summary_label_from_receipt(receipt: &FamilyGovernanceReceiptView) -> (r: String)
    ensures
        r@ == recorded_label(
            receipt.family_display_name,
            receipt.family_ecosystem,
            receipt.family_id@,
        ),
{
    recorded_label_exec(
        &receipt.family_display_name,
        &receipt.family_ecosystem,
        receipt.family_id.as_str(),
    )
}

/// The family picker's entry: the family label and its lifecycle status in brackets.
pub fn family_governance_picker_label(receipt: &FamilyGovernanceReceiptView) -> (r: String)
    ensures
        r@ == recorded_label(
            receipt.family_display_name,
            receipt.family_ecosystem,
            receipt.family_id@,
        ) + " ["@ + receipt.lifecycle_status@ + "]"@,
{
    let mut s = family_summary_label_from_receipt(receipt);
    push_str(&mut s, " [");
    push_str(&mut s, receipt.lifecycle_status.as_str());
    push_str(&mut s, "]");
    s
}

/// The family label of a project, preferring the names its patchability receipt records.
pub fn family_summary_label_from_patchability_receipt(
    family_id: &str,
    receipt: Option<&ProjectPatchReadinessReceiptView>,
) -> (r: String)
    ensures
        r@ == match receipt {
            Some(x) => recorded_label(x.family_display_name, x.family_ecosystem, family_id@),
            None => summary_label(family_id@),
        },
{
    match receipt {
        Some(x) => recorded_label_exec(&x.family_display_name, &x.family_ecosystem, family_id),
        None => family_summary_label(family_id),
    }
}

/// The three native-window shell families of the Chatty ecosystems.
pub open spec fn canonical_shell(id: Seq<char>) -> bool {
    id == "chattycog_native_window_module"@ || id == "chattyedu_native_window_module"@ || id
        == "chattycog_chattyedu_native_window_module"@
}

/// Whether a family is one of the canonical ecosystem shells.
pub fn is_canonical_ecosystem_shell_family(family_id: &str) -> (r: bool)
    ensures
        r == canonical_shell(family_id@),
{
    text_eq(family_id, "chattycog_native_window_module") || text_eq(
        family_id,
        "chattyedu_native_window_module",
    ) || text_eq(family_id, "chattycog_chattyedu_native_window_module")
}

/// `Governed artifact set: {0 or 1} family manifest plus declared primitive
/// adapter surface`; the manifest counts when its path is not blank.
pub fn family_governed_artifact_set_summary(receipt: &FamilyGovernanceReceiptView) -> (r: String)
    ensures
        r@ == "Governed artifact set: "@ + decimal(
            if trimmed(receipt.manifest_path@).len() == 0 {
                0nat
            } else {
                1nat
            },
        ) + " family manifest plus declared primitive adapter surface"@,
{
    let manifest_count: usize = if is_blank(receipt.manifest_path.as_str()) {
        0
    } else {
        1
    };
    let mut s = owned("Governed artifact set: ");
    push_usize(&mut s, manifest_count);
    push_str(&mut s, " family manifest plus declared primitive adapter surface");
    s
}

/// `Governed artifact set: {n} template artifact(s) under the selected bundle root`.
pub fn template_governed_artifact_set_summary(receipt: &TemplateGovernanceReceiptView) -> (r:
    String)
    ensures
        r@ == "Governed artifact set: "@ + decimal(receipt.artifact_paths@.len())
            + " template artifact(s) under the selected bundle root"@,
{
    let mut s = owned("Governed artifact set: ");
    push_usize(&mut s, receipt.artifact_paths.len());
    push_str(&mut s, " template artifact(s) under the selected bundle root");
    s
}

/// Every canonical shell family carries an ecosystem badge.
pub proof fn lemma_canonical_shells_have_ecosystem(id: Seq<char>)
    requires
        canonical_shell(id),
    ensures
        ecosystem_badge(id) is Some,
{
}

} // verus!
