//! `torizon remote-access`: manage remote-access sessions, SSH keys, and the
//! IP accept-list.

use vstd::prelude::*;

use super::metrics::seg;
use super::{
    call_plan, get_call, get_plan, make_call, no_query, obj1, obj2, Body, BodyV, CliError, Plan,
    PlanV, Render, RenderV,
};
use super::updates::str_array;
use crate::client::{encode_segment, Method};
use crate::json::{Json, JsonV};
use crate::text::{concat, concat3, owned};

verus! {

/// `torizon remote-access` subcommands.
pub enum RemoteAccessCmd {
    /// Show remote-access info for a device.
    Device { device_uuid: String },
    /// Show remote-access sessions for a device.
    Sessions { device_uuid: String },
    /// Create a remote-access session for a device.
    CreateSession { device_uuid: String, public_keys: Vec<String>, duration: String },
    /// Delete the remote-access session for a device.
    DeleteSession { device_uuid: String, yes: bool },
    /// List all of your remote-access sessions.
    UserSessions,
    /// List your registered SSH public keys.
    Keys,
    /// Register an SSH public key.
    AddKey { pubkey: String },
    /// Remove an SSH public key by ID.
    RemoveKey { key_id: String },
    /// Show the IP accept-list.
    IpList,
    /// Add an IP to the accept-list.
    AddIp { ip: String },
    /// Remove an IP from the accept-list.
    RemoveIp { ip: String },
}

pub open spec fn str_obj2(k1: Seq<char>, v1: Seq<char>, k2: Seq<char>, v2: Seq<char>) -> JsonV {
    JsonV::Object(seq![(k1, JsonV::Str(v1)), (k2, JsonV::Str(v2))])
}

/// The plan of each `remote-access` subcommand.
pub open spec fn remote_access_plan(cmd: RemoteAccessCmd) -> Result<PlanV, CliError> {
    match cmd {
        RemoteAccessCmd::Device { device_uuid } => Ok(
            get_plan("/remote-access/device/"@ + seg(device_uuid@), RenderV::Json),
        ),
        RemoteAccessCmd::Sessions { device_uuid } => Ok(
            get_plan("/remote-access/device/"@ + seg(device_uuid@) + "/sessions"@, RenderV::Json),
        ),
        RemoteAccessCmd::CreateSession { device_uuid, public_keys, duration } => Ok(
            call_plan(
                None,
                Method::Post,
                "/remote-access/device/"@ + seg(device_uuid@) + "/sessions"@,
                Seq::empty(),
                BodyV::Json(
                    JsonV::Object(
                        seq![("publicKeys"@, str_array(public_keys@)), ("sessionDuration"@, JsonV::Str(duration@))],
                    ),
                ),
                RenderV::Data("Session created."@),
            ),
        ),
        RemoteAccessCmd::DeleteSession { device_uuid, yes } => Ok(
            call_plan(
                if yes {
                    None
                } else {
                    Some("Delete remote-access session for "@ + device_uuid@ + "?"@)
                },
                Method::Delete,
                "/remote-access/device/"@ + seg(device_uuid@) + "/sessions"@,
                Seq::empty(),
                BodyV::Empty,
                RenderV::Status("Session deleted."@, str_obj2("status"@, "deleted"@, "deviceUuid"@, device_uuid@)),
            ),
        ),
        RemoteAccessCmd::UserSessions => Ok(get_plan("/remote-access/user/sessions"@, RenderV::Json)),
        RemoteAccessCmd::Keys => Ok(get_plan("/remote-access/user/public-keys"@, RenderV::Json)),
        RemoteAccessCmd::AddKey { pubkey } => Ok(
            call_plan(
                None,
                Method::Post,
                "/remote-access/user/public-keys"@,
                Seq::empty(),
                BodyV::Json(JsonV::Object(seq![("pubkey"@, JsonV::Str(pubkey@))])),
                RenderV::Data("Key registered."@),
            ),
        ),
        RemoteAccessCmd::RemoveKey { key_id } => Ok(
            call_plan(
                None,
                Method::Delete,
                "/remote-access/user/public-keys/"@ + seg(key_id@),
                Seq::empty(),
                BodyV::Empty,
                RenderV::Status("Key "@ + key_id@ + " removed."@, str_obj2("status"@, "removed"@, "keyId"@, key_id@)),
            ),
        ),
        RemoteAccessCmd::IpList => Ok(get_plan("/remote-access/user/ip-accept-list"@, RenderV::Json)),
        RemoteAccessCmd::AddIp { ip } => Ok(
            call_plan(
                None,
                Method::Post,
                "/remote-access/user/ip-accept-list"@,
                Seq::empty(),
                BodyV::Json(JsonV::Object(seq![("ip"@, JsonV::Str(ip@))])),
                RenderV::Data("IP "@ + ip@ + " added."@),
            ),
        ),
        RemoteAccessCmd::RemoveIp { ip } => Ok(
            call_plan(
                None,
                Method::Delete,
                "/remote-access/user/ip-accept-list/"@ + seg(ip@),
                Seq::empty(),
                BodyV::Empty,
                RenderV::Status("IP "@ + ip@ + " removed."@, str_obj2("status"@, "removed"@, "ip"@, ip@)),
            ),
        ),
    }
}

/// Deleting a device's remote-access session sends a DELETE of the session
/// list, asking first unless `yes`; creating one POSTs to the same list.
pub proof fn law_session_requests(device_uuid: String, yes: bool, public_keys: Vec<String>, duration: String)
    ensures
        ({
            let path = "/remote-access/device/"@ + seg(device_uuid@) + "/sessions"@;
            &&& remote_access_plan(RemoteAccessCmd::DeleteSession { device_uuid, yes }) matches Ok(PlanV::Call(c))
                && c.request.method == Method::Delete && c.request.path == path && (c.confirm is Some <==> !yes)
            &&& remote_access_plan(RemoteAccessCmd::CreateSession { device_uuid, public_keys, duration }) matches Ok(
                PlanV::Call(c),
            ) && c.request.method == Method::Post && c.request.path == path && c.confirm is None
        }),
{
}

/// Removing a key or an IP sends a DELETE of that key or IP; adding one sends
/// a POST of the list.
pub proof fn law_key_and_ip_requests(key_id: String, pubkey: String, ip: String)
    ensures
        remote_access_plan(RemoteAccessCmd::RemoveKey { key_id }) matches Ok(PlanV::Call(c)) && c.request.method
            == Method::Delete && c.request.path == "/remote-access/user/public-keys/"@ + seg(key_id@),
        remote_access_plan(RemoteAccessCmd::AddKey { pubkey }) matches Ok(PlanV::Call(c)) && c.request.method
            == Method::Post && c.request.path == "/remote-access/user/public-keys"@,
        remote_access_plan(RemoteAccessCmd::RemoveIp { ip }) matches Ok(PlanV::Call(c)) && c.request.method
            == Method::Delete && c.request.path == "/remote-access/user/ip-accept-list/"@ + seg(ip@),
        remote_access_plan(RemoteAccessCmd::AddIp { ip }) matches Ok(PlanV::Call(c)) && c.request.method
            == Method::Post && c.request.path == "/remote-access/user/ip-accept-list"@,
{
}

fn seg_path(prefix: &str, s: &str, suffix: &str) -> (r: String)
    ensures
        r@ == prefix@ + seg(s@) + suffix@,
{
    let e = encode_segment(s);
    concat3(prefix, e.as_str(), suffix)
}

fn seg_path2(prefix: &str, s: &str) -> (r: String)
    ensures
        r@ == prefix@ + seg(s@),
{
    let e = encode_segment(s);
    concat(prefix, e.as_str())
}

/// Plans a `remote-access` subcommand.
pub fn run(cmd: RemoteAccessCmd) -> (r: Result<Plan, CliError>)
    ensures
        match remote_access_plan(cmd) {
            Ok(p) => r matches Ok(q) && q@ == p,
            Err(e) => r == Err::<Plan, CliError>(e),
        },
{
    match cmd {
        RemoteAccessCmd::Device { device_uuid } => Ok(
            get_call(seg_path2("/remote-access/device/", device_uuid.as_str()), Render::Json),
        ),
        RemoteAccessCmd::Sessions { device_uuid } => Ok(
            get_call(seg_path("/remote-access/device/", device_uuid.as_str(), "/sessions"), Render::Json),
        ),
        RemoteAccessCmd::CreateSession { device_uuid, public_keys, duration } => {
            let body = obj2(
                "publicKeys",
                Json::strings(&public_keys),
                "sessionDuration",
                Json::string(duration.as_str()),
            );
            Ok(
                make_call(
                    None,
                    Method::Post,
                    seg_path("/remote-access/device/", device_uuid.as_str(), "/sessions"),
                    no_query(),
                    Body::Json(body),
                    Render::Data(owned("Session created.")),
                ),
            )
        },
        RemoteAccessCmd::DeleteSession { device_uuid, yes } => {
            let confirm = if yes {
                None
            } else {
                Some(concat3("Delete remote-access session for ", device_uuid.as_str(), "?"))
            };
            let status = obj2(
                "status",
                Json::string("deleted"),
                "deviceUuid",
                Json::string(device_uuid.as_str()),
            );
            Ok(
                make_call(
                    confirm,
                    Method::Delete,
                    seg_path("/remote-access/device/", device_uuid.as_str(), "/sessions"),
                    no_query(),
                    Body::Empty,
                    Render::Status(owned("Session deleted."), status),
                ),
            )
        },
        RemoteAccessCmd::UserSessions => Ok(get_call(owned("/remote-access/user/sessions"), Render::Json)),
        RemoteAccessCmd::Keys => Ok(get_call(owned("/remote-access/user/public-keys"), Render::Json)),
        RemoteAccessCmd::AddKey { pubkey } => Ok(
            make_call(
                None,
                Method::Post,
                owned("/remote-access/user/public-keys"),
                no_query(),
                Body::Json(obj1("pubkey", Json::string(pubkey.as_str()))),
                Render::Data(owned("Key registered.")),
            ),
        ),
        RemoteAccessCmd::RemoveKey { key_id } => {
            let status = obj2("status", Json::string("removed"), "keyId", Json::string(key_id.as_str()));
            Ok(
                make_call(
                    None,
                    Method::Delete,
                    seg_path2("/remote-access/user/public-keys/", key_id.as_str()),
                    no_query(),
                    Body::Empty,
                    Render::Status(concat3("Key ", key_id.as_str(), " removed."), status),
                ),
            )
        },
        RemoteAccessCmd::IpList => Ok(get_call(owned("/remote-access/user/ip-accept-list"), Render::Json)),
        RemoteAccessCmd::AddIp { ip } => Ok(
            make_call(
                None,
                Method::Post,
                owned("/remote-access/user/ip-accept-list"),
                no_query(),
                Body::Json(obj1("ip", Json::string(ip.as_str()))),
                Render::Data(concat3("IP ", ip.as_str(), " added.")),
            ),
        ),
        RemoteAccessCmd::RemoveIp { ip } => {
            let status = obj2("status", Json::string("removed"), "ip", Json::string(ip.as_str()));
            Ok(
                make_call(
                    None,
                    Method::Delete,
                    seg_path2("/remote-access/user/ip-accept-list/", ip.as_str()),
                    no_query(),
                    Body::Empty,
                    Render::Status(concat3("IP ", ip.as_str(), " removed."), status),
                ),
            )
        },
    }
}

} // verus!
