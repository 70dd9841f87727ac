//! Where each role lives in the terminal workspace, and the request that
//! asks the workspace's notification plugin to wake a role.
use vstd::prelude::*;
use crate::roles::{Role, role_index, role_of};
use crate::text::{nat_decimal, str_eq};

verus! {

/// The name of the dashboard pane, which is not a role.
pub const DASHBOARD_PANE_NAME: &'static str = "dashboard";

/// The pane the notification plugin writes to for a role token.
pub open spec fn notify_pane_of(role: Seq<char>) -> Option<u32> {
    match role_of(role) {
        Some(x) => Some(role_index(x) as u32),
        None => None,
    }
}

/// The terminal pane of a role token in the notification plugin's
/// numbering; `None` for an unknown token.
pub fn pane_id(role: &str) -> (r: Option<u32>)
    ensures
        r == notify_pane_of(role@),
{
    match Role::from_name(role) {
        Some(x) => Some(x.pane_id()),
        None => None,
    }
}

/// The position of a pane name in the generated layout: the dashboard, the
/// coordinator, the mediator, then glacier, inferno, shadow, storm.
pub open spec fn layout_pane_of(name: Seq<char>) -> Option<u32> {
    if name == "dashboard"@ {
        Some(0)
    } else {
        match role_of(name) {
            Some(Role::Overlord) => Some(1),
            Some(Role::Strategist) => Some(2),
            Some(Role::Glacier) => Some(3),
            Some(Role::Inferno) => Some(4),
            Some(Role::Shadow) => Some(5),
            Some(Role::Storm) => Some(6),
            None => None,
        }
    }
}

/// The terminal pane of a pane name in the generated layout; `None` when
/// the layout has no such pane.
pub fn pane_id_for_role(role: &str) -> (r: Option<u32>)
    ensures
        r == layout_pane_of(role@),
{
    if str_eq(role, DASHBOARD_PANE_NAME) {
        return Some(0);
    }
    match Role::from_name(role) {
        Some(Role::Overlord) => Some(1),
        Some(Role::Strategist) => Some(2),
        Some(Role::Glacier) => Some(3),
        Some(Role::Inferno) => Some(4),
        Some(Role::Shadow) => Some(5),
        Some(Role::Storm) => Some(6),
        None => None,
    }
}

/// What `serde_json::to_string` makes of a string: a JSON string literal.
pub uninterp spec fn json_quoted(s: Seq<char>) -> Seq<char>;

/// Relies on `serde_json::to_string` on a `str`: the JSON string literal of
/// `s`, quotes and escapes included.
#[verifier::external_body]
fn json_quote(s: &str) -> (r: Result<String, serde_json::Error>)
    ensures
        r is Ok ==> r->Ok_0@ == json_quoted(s@),
{
    serde_json::to_string(s)
}

/// `serde_json::Error`, the error of a failed encoding, carried without
/// being inspected.
#[verifier::external_type_specification]
#[verifier::external_body]
pub struct ExJsonError(serde_json::Error);

/// The text typed into a woken role's input.
pub open spec fn wake_text(from_role: Seq<char>) -> Seq<char> {
    "[MESSAGE from "@ + from_role + "] check_inbox ツールで受信メッセージを確認して作業を開始してください。"@
}

/// The JSON payload for the notification plugin: the pane, the text, and
/// that Enter follows.
pub open spec fn payload_of(pane: u32, quoted_text: Seq<char>) -> Seq<char> {
    "{\"pane_id\":"@ + nat_decimal(pane as nat) + ",\"send_enter\":true,\"text\":"@ + quoted_text + "}"@
}

/// Why a notification request could not be built.
#[derive(Clone, Copy, Debug, PartialEq, Eq, Structural)]
pub enum NotifyError {
    /// The target token names no role.
    UnknownTarget,
    /// The text could not be encoded.
    Encoding,
}

/// Builds the plugin payload around an already quoted text.
pub fn payload_with(pane: u32, quoted_text: &str) -> (r: String)
    ensures
        r@ == payload_of(pane, quoted_text@),
{
    let mut s = String::from_str("{\"pane_id\":");
    let digits = crate::text::i64_decimal(pane as i64);
    s.append(digits.as_str());
    s.append(",\"send_enter\":true,\"text\":");
    s.append(quoted_text);
    s.append("}");
    s
}

/// The payload that wakes pane `pane` with a message from `from_role`.
pub fn build_payload(pane: u32, from_role: &str) -> (r: Result<String, NotifyError>)
    ensures
        r is Ok ==> r->Ok_0@ == payload_of(pane, json_quoted(wake_text(from_role@))),
{
    let mut text = String::from_str("[MESSAGE from ");
    text.append(from_role);
    text.append("] check_inbox ツールで受信メッセージを確認して作業を開始してください。");
    match json_quote(text.as_str()) {
        Ok(q) => Ok(payload_with(pane, q.as_str())),
        Err(_) => Err(NotifyError::Encoding),
    }
}

/// What the dispatcher needs to wake a role: the plugin to pipe to and the
/// payload to pipe.
pub struct NotifyRequest {
    pub pane_id: u32,
    pub plugin: String,
    pub payload: String,
}

/// The request that wakes the role named `target_role` with a message from
/// `from_role`, through the plugin at `plugin_path`. Refused for an unknown
/// target.
pub fn notify_request(target_role: &str, from_role: &str, plugin_path: &str) -> (r: Result<
    NotifyRequest,
    NotifyError,
>)
    ensures
        notify_pane_of(target_role@) is None ==> r == Err::<NotifyRequest, NotifyError>(NotifyError::UnknownTarget),
        r is Ok ==> notify_pane_of(target_role@) == Some(r->Ok_0.pane_id) && r->Ok_0.plugin@ == "file:"@
            + plugin_path@ && r->Ok_0.payload@ == payload_of(
            r->Ok_0.pane_id,
            json_quoted(wake_text(from_role@)),
        ),
{
    let id = match pane_id(target_role) {
        Some(id) => id,
        None => return Err(NotifyError::UnknownTarget),
    };
    let payload = match build_payload(id, from_role) {
        Ok(p) => p,
        Err(e) => return Err(e),
    };
    let mut plugin = String::from_str("file:");
    plugin.append(plugin_path);
    Ok(NotifyRequest { pane_id: id, plugin, payload })
}

} // verus!
