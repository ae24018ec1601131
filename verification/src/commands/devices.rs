//! `torizon devices`: list, inspect, and manage devices.

use vstd::prelude::*;

use super::{
    bool_string, bool_text, call_plan, get_call, get_plan, make_call, no_query, obj1, obj2,
    opt_decimal, opt_pair, opt_text, pairs_view, path2, path3, push_field, push_opt, push_paging,
    push_pair, push_repeated, repeated, Body, BodyV, CliError, Columns, Plan, PlanV, Render,
    RenderV,
};
use super::updates::str_array;
use crate::client::Method;
use crate::json::{fields_view, insert_field, set_field, Json, JsonV};
use crate::text::{concat3, decimal, find_char, owned, split_once};

verus! {

/// `torizon devices` subcommands.
pub enum DevicesCmd {
    /// List devices in your repository.
    List(ListArgs),
    /// Show detailed information about a single device.
    Get { device_uuid: String },
    /// Show the currently-assigned update for a device.
    Assignment { device_uuid: String },
    /// Show the software components reported by a device.
    Components { device_uuid: String },
    /// Show the installed packages reported by a device.
    Packages { device_uuid: String },
    /// Show network information (all devices, or one if a UUID is given).
    Network { device_uuid: Option<String> },
    /// Get or set a device's display name.
    Name { device_uuid: String, set: Option<String> },
    /// Get or set a device's notes.
    Notes { device_uuid: String, set: Option<String> },
    /// Show a device's tags.
    Tags { device_uuid: String },
    /// Set/update tags on a device.
    SetTags { device_uuid: String, tags: Vec<(String, String)> },
    /// Set the hibernation status of a device.
    Hibernate { device_uuid: String, on: bool, off: bool },
    /// Manually create a device.
    Create(CreateArgs),
    /// Delete a device.
    Delete { device_uuid: String, yes: bool },
    /// Retrieve a device provisioning token.
    Token,
}

pub struct ListArgs {
    pub limit: Option<u32>,
    pub offset: Option<u32>,
    pub name_contains: Option<String>,
    pub tags: Vec<String>,
    pub hibernated: Option<bool>,
}

pub struct CreateArgs {
    /// Device ID (required).
    pub device_id: String,
    /// Display name.
    pub name: Option<String>,
    /// Fleet IDs to join.
    pub fleets: Vec<String>,
    /// Tags as key/value pairs.
    pub tags: Vec<(String, String)>,
}

/// The message for a `key=value` argument without `=`.
pub open spec fn kv_error(s: Seq<char>) -> Seq<char> {
    "expected key=value, got `"@ + s + "`"@
}

/// Parses a `key=value` argument: it splits at the first `=`, so the value
/// may itself contain `=`.
pub fn parse_kv(s: &str) -> (r: Result<(String, String), String>)
    ensures
        match find_char(s@, '=') {
            Some(i) => r matches Ok(kv) && kv.0@ == s@.take(i) && kv.1@ == s@.skip(i + 1),
            None => r matches Err(m) && m@ == kv_error(s@),
        },
{
    match split_once(s, '=') {
        Some((k, v)) => Ok((k, v)),
        None => Err(concat3("expected key=value, got `", s, "`")),
    }
}

/// A key that parses out of an argument contains no `=`, and key, `=` and
/// value put back together give the argument.
pub proof fn law_parse_kv_round_trip(s: Seq<char>)
    requires
        find_char(s, '=') is Some,
    ensures
        ({
            let i = find_char(s, '=').unwrap();
            &&& s.take(i) + seq!['='] + s.skip(i + 1) == s
            &&& forall|j: int| 0 <= j < s.take(i).len() ==> s.take(i)[j] != '='
        }),
{
    crate::text::lemma_find_char(s, '=');
    let i = find_char(s, '=').unwrap();
    assert(s.take(i) + seq!['='] + s.skip(i + 1) =~= s);
}

/// The query of `devices list`.
pub open spec fn list_query(a: ListArgs) -> Seq<(Seq<char>, Seq<char>)> {
    opt_pair("limit"@, opt_decimal(a.limit)) + opt_pair("offset"@, opt_decimal(a.offset)) + opt_pair(
        "nameContains"@,
        opt_text(a.name_contains),
    ) + opt_pair(
        "hibernated"@,
        match a.hibernated {
            Some(b) => Some(bool_text(b)),
            None => None,
        },
    ) + repeated("tags"@, a.tags@)
}

/// Listing devices passes every given filter and paging parameter as a query
/// pair, one pair per tag, and nothing else: `limit`, `offset`,
/// `nameContains`, `hibernated` and each `tags` value.
pub proof fn law_device_list_query(a: ListArgs)
    ensures
        ({
            let q = list_query(a);
            &&& devices_plan(DevicesCmd::List(a)) matches Ok(PlanV::Call(c)) && c.request.method == Method::Get
                && c.request.path == "/devices"@ && c.request.query == q && c.request.body == BodyV::Empty
            &&& forall|n: u32| a.limit == Some(n) ==> q.contains(("limit"@, decimal(n as nat)))
            &&& forall|n: u32| a.offset == Some(n) ==> q.contains(("offset"@, decimal(n as nat)))
            &&& forall|t: String| a.name_contains == Some(t) ==> q.contains(("nameContains"@, t@))
            &&& a.hibernated == Some(true) ==> q.contains(("hibernated"@, "true"@))
            &&& a.hibernated == Some(false) ==> q.contains(("hibernated"@, "false"@))
            &&& forall|i: int| 0 <= i < a.tags@.len() ==> q.contains(("tags"@, (#[trigger] a.tags@[i])@))
            &&& q.len() == (if a.limit is Some { 1int } else { 0 }) + (if a.offset is Some { 1int } else { 0 })
                + (if a.name_contains is Some { 1int } else { 0 }) + (if a.hibernated is Some { 1int } else { 0 })
                + a.tags@.len()
        }),
{
    let q = list_query(a);
    let l0 = opt_pair("limit"@, opt_decimal(a.limit)).len() as int;
    let l1 = opt_pair("offset"@, opt_decimal(a.offset)).len() as int;
    let l2 = opt_pair("nameContains"@, opt_text(a.name_contains)).len() as int;
    let l3 = opt_pair(
        "hibernated"@,
        match a.hibernated {
            Some(b) => Some(bool_text(b)),
            None => None,
        },
    ).len() as int;
    if let Some(n) = a.limit {
        assert(q[0] == ("limit"@, decimal(n as nat)));
    }
    if let Some(n) = a.offset {
        assert(q[l0] == ("offset"@, decimal(n as nat)));
    }
    if let Some(t) = a.name_contains {
        assert(q[l0 + l1] == ("nameContains"@, t@));
    }
    if let Some(b) = a.hibernated {
        assert(q[l0 + l1 + l2] == ("hibernated"@, bool_text(b)));
    }
    assert forall|i: int| 0 <= i < a.tags@.len() implies q.contains(("tags"@, (#[trigger] a.tags@[i])@)) by {
        assert(q[l0 + l1 + l2 + l3 + i] == ("tags"@, a.tags@[i]@));
    }
}

/// Deleting a device sends a DELETE of the device, asking first unless `yes`.
pub proof fn law_device_delete_request(device_uuid: String, yes: bool)
    ensures
        devices_plan(DevicesCmd::Delete { device_uuid, yes }) matches Ok(PlanV::Call(c))
            && c.request.method == Method::Delete && c.request.path == "/devices/"@ + device_uuid@
            && c.request.body == BodyV::Empty && (c.confirm is Some <==> !yes),
{
}

/// Hibernation needs a direction: with neither `--on` nor `--off` nothing is
/// sent; otherwise a PUT of the device's hibernation sets `status` to whether
/// `--on` was given.
pub proof fn law_hibernate_request(device_uuid: String, on: bool, off: bool)
    ensures
        !on && !off ==> devices_plan(DevicesCmd::Hibernate { device_uuid, on, off }) == Err::<PlanV, CliError>(
            CliError::HibernateNeedsOnOrOff,
        ),
        on || off ==> (devices_plan(DevicesCmd::Hibernate { device_uuid, on, off }) matches Ok(PlanV::Call(c))
            && c.request.method == Method::Put && c.request.path == "/devices/hibernation/"@ + device_uuid@
            && c.request.body == BodyV::Json(JsonV::Object(seq![("status"@, JsonV::Bool(on))]))),
{
}

/// An object of tags, each inserted in order (a later duplicate key wins).
pub open spec fn tag_fields(tags: Seq<(String, String)>) -> Seq<(Seq<char>, JsonV)>
    decreases tags.len(),
{
    if tags.len() == 0 {
        Seq::empty()
    } else {
        insert_field(tag_fields(tags.drop_last()), tags.last().0@, JsonV::Str(tags.last().1@))
    }
}

/// The body of `devices create`.
pub open spec fn create_body(a: CreateArgs) -> JsonV {
    JsonV::Object(
        seq![("deviceId"@, JsonV::Str(a.device_id@))] + (match a.name {
            Some(n) => seq![("deviceName"@, JsonV::Str(n@))],
            None => Seq::empty(),
        }) + (if a.fleets@.len() > 0 {
            seq![("fleetIds"@, str_array(a.fleets@))]
        } else {
            Seq::empty()
        }) + (if a.tags@.len() > 0 {
            seq![("tags"@, JsonV::Object(tag_fields(a.tags@)))]
        } else {
            Seq::empty()
        }),
    )
}

/// A string member as a JSON string.
pub open spec fn jstrv(s: Seq<char>) -> JsonV {
    JsonV::Str(s)
}

/// The plan of each `devices` subcommand.
pub open spec fn devices_plan(cmd: DevicesCmd) -> Result<PlanV, CliError> {
    match cmd {
        DevicesCmd::List(a) => Ok(
            call_plan(
                None,
                Method::Get,
                "/devices"@,
                list_query(a),
                BodyV::Empty,
                RenderV::Table(Columns::Devices),
            ),
        ),
        DevicesCmd::Get { device_uuid } => Ok(get_plan("/devices/"@ + device_uuid@, RenderV::Object)),
        DevicesCmd::Assignment { device_uuid } => Ok(
            get_plan("/devices/uptane/"@ + device_uuid@ + "/assignment"@, RenderV::Json),
        ),
        DevicesCmd::Components { device_uuid } => Ok(
            get_plan("/devices/uptane/"@ + device_uuid@ + "/components"@, RenderV::Json),
        ),
        DevicesCmd::Packages { device_uuid } => Ok(
            get_plan("/devices/packages/"@ + device_uuid@, RenderV::Json),
        ),
        DevicesCmd::Network { device_uuid } => Ok(
            get_plan(
                match device_uuid {
                    Some(u) => "/devices/network/"@ + u@,
                    None => "/devices/network"@,
                },
                RenderV::Json,
            ),
        ),
        DevicesCmd::Name { device_uuid, set } => Ok(
            match set {
                Some(name) => call_plan(
                    None,
                    Method::Put,
                    "/devices/name/"@ + device_uuid@,
                    Seq::empty(),
                    BodyV::Json(JsonV::Object(seq![("name"@, jstrv(name@))])),
                    RenderV::Status(
                        "Name set to `"@ + name@ + "`."@,
                        JsonV::Object(seq![("deviceUuid"@, jstrv(device_uuid@)), ("name"@, jstrv(name@))]),
                    ),
                ),
                None => get_plan("/devices/name/"@ + device_uuid@, RenderV::Json),
            },
        ),
        DevicesCmd::Notes { device_uuid, set } => Ok(
            match set {
                Some(notes) => call_plan(
                    None,
                    Method::Put,
                    "/devices/notes/"@ + device_uuid@,
                    Seq::empty(),
                    BodyV::Json(JsonV::Object(seq![("notes"@, jstrv(notes@))])),
                    RenderV::Status(
                        "Notes updated."@,
                        JsonV::Object(seq![("deviceUuid"@, jstrv(device_uuid@)), ("notes"@, jstrv(notes@))]),
                    ),
                ),
                None => get_plan("/devices/notes/"@ + device_uuid@, RenderV::Json),
            },
        ),
        DevicesCmd::Tags { device_uuid } => Ok(get_plan("/devices/tags/"@ + device_uuid@, RenderV::Json)),
        DevicesCmd::SetTags { device_uuid, tags } => Ok(
            call_plan(
                None,
                Method::Patch,
                "/devices/tags/"@ + device_uuid@,
                Seq::empty(),
                BodyV::Json(JsonV::Object(tag_fields(tags@))),
                RenderV::Status(
                    "Tags updated."@,
                    JsonV::Object(seq![("status"@, jstrv("updated"@)), ("deviceUuid"@, jstrv(device_uuid@))]),
                ),
            ),
        ),
        DevicesCmd::Hibernate { device_uuid, on, off } => if !on && !off {
            Err(CliError::HibernateNeedsOnOrOff)
        } else {
            Ok(
                call_plan(
                    None,
                    Method::Put,
                    "/devices/hibernation/"@ + device_uuid@,
                    Seq::empty(),
                    BodyV::Json(JsonV::Object(seq![("status"@, JsonV::Bool(on))])),
                    RenderV::Status(
                        "Hibernation set to "@ + bool_text(on) + "."@,
                        JsonV::Object(seq![("deviceUuid"@, jstrv(device_uuid@)), ("hibernated"@, JsonV::Bool(on))]),
                    ),
                ),
            )
        },
        DevicesCmd::Create(a) => Ok(
            call_plan(
                None,
                Method::Post,
                "/devices"@,
                Seq::empty(),
                BodyV::Json(create_body(a)),
                RenderV::Data("Device created."@),
            ),
        ),
        DevicesCmd::Delete { device_uuid, yes } => Ok(
            call_plan(
                if yes {
                    None
                } else {
                    Some("Delete device "@ + device_uuid@ + "?"@)
                },
                Method::Delete,
                "/devices/"@ + device_uuid@,
                Seq::empty(),
                BodyV::Empty,
                RenderV::Status(
                    "Device "@ + device_uuid@ + " deleted."@,
                    JsonV::Object(seq![("status"@, jstrv("deleted"@)), ("deviceUuid"@, jstrv(device_uuid@))]),
                ),
            ),
        ),
        DevicesCmd::Token => Ok(get_plan("/devices/token"@, RenderV::Json)),
    }
}

fn tags_object(tags: &Vec<(String, String)>) -> (r: Json)
    ensures
        r@ == JsonV::Object(tag_fields(tags@)),
{
    let mut fields: Vec<(String, Json)> = Vec::new();
    let mut i: usize = 0;
    assert(fields_view(fields@) =~= Seq::<(Seq<char>, JsonV)>::empty());
    assert(tags@.take(0) =~= Seq::<(String, String)>::empty());
    while i < tags.len()
        invariant
            i <= tags@.len(),
            fields_view(fields@) == tag_fields(tags@.take(i as int)),
        decreases tags.len() - i,
    {
        proof {
            assert(tags@.take(i + 1).drop_last() =~= tags@.take(i as int));
            assert(tags@.take(i + 1).last() == tags@[i as int]);
        }
        set_field(&mut fields, tags[i].0.clone(), Json::string(tags[i].1.as_str()));
        i = i + 1;
    }
    assert(tags@.take(tags@.len() as int) =~= tags@);
    Json::object(fields)
}

fn list_plan(a: ListArgs) -> (r: Plan)
    ensures
        r@ == call_plan(
            None,
            Method::Get,
            "/devices"@,
            list_query(a),
            BodyV::Empty,
            RenderV::Table(Columns::Devices),
        ),
{
    let mut q: Vec<(String, String)> = Vec::new();
    assert(pairs_view(q@) =~= Seq::<(Seq<char>, Seq<char>)>::empty());
    push_paging(&mut q, a.limit, a.offset);
    push_opt(&mut q, "nameContains", a.name_contains);
    let ghost before = pairs_view(q@);
    if let Some(b) = a.hibernated {
        push_pair(&mut q, "hibernated", bool_string(b));
    }
    assert(pairs_view(q@) =~= before + opt_pair(
        "hibernated"@,
        match a.hibernated {
            Some(b) => Some(bool_text(b)),
            None => None,
        },
    ));
    push_repeated(&mut q, "tags", &a.tags);
    assert(pairs_view(q@) =~= list_query(a));
    make_call(None, Method::Get, owned("/devices"), q, Body::Empty, Render::Table(Columns::Devices))
}

fn create_plan(a: CreateArgs) -> (r: Plan)
    ensures
        r@ == call_plan(
            None,
            Method::Post,
            "/devices"@,
            Seq::empty(),
            BodyV::Json(create_body(a)),
            RenderV::Data("Device created."@),
        ),
{
    let mut fields: Vec<(String, Json)> = Vec::new();
    assert(fields_view(fields@) =~= Seq::<(Seq<char>, JsonV)>::empty());
    push_field(&mut fields, "deviceId", Json::string(a.device_id.as_str()));
    let ghost f1 = fields_view(fields@);
    if let Some(n) = &a.name {
        push_field(&mut fields, "deviceName", Json::string(n.as_str()));
    }
    let ghost f2 = fields_view(fields@);
    if a.fleets.len() > 0 {
        push_field(&mut fields, "fleetIds", Json::strings(&a.fleets));
    }
    let ghost f3 = fields_view(fields@);
    if a.tags.len() > 0 {
        push_field(&mut fields, "tags", tags_object(&a.tags));
    }
    proof {
        match create_body(a) {
            JsonV::Object(t) => {
                assert(fields_view(fields@) =~= t);
            },
            _ => {},
        }
    }
    make_call(
        None,
        Method::Post,
        owned("/devices"),
        no_query(),
        Body::Json(Json::object(fields)),
        Render::Data(owned("Device created.")),
    )
}

/// Plans a `devices` subcommand.
pub fn run(cmd: DevicesCmd) -> (r: Result<Plan, CliError>)
    ensures
        match devices_plan(cmd) {
            Ok(p) => r matches Ok(q) && q@ == p,
            Err(e) => r == Err::<Plan, CliError>(e),
        },
{
    match cmd {
        DevicesCmd::List(a) => Ok(list_plan(a)),
        DevicesCmd::Get { device_uuid } => Ok(
            get_call(path2("/devices/", device_uuid.as_str()), Render::Object),
        ),
        DevicesCmd::Assignment { device_uuid } => Ok(
            get_call(path3("/devices/uptane/", device_uuid.as_str(), "/assignment"), Render::Json),
        ),
        DevicesCmd::Components { device_uuid } => Ok(
            get_call(path3("/devices/uptane/", device_uuid.as_str(), "/components"), Render::Json),
        ),
        DevicesCmd::Packages { device_uuid } => Ok(
            get_call(path2("/devices/packages/", device_uuid.as_str()), Render::Json),
        ),
        DevicesCmd::Network { device_uuid } => {
            let path = match &device_uuid {
                Some(u) => path2("/devices/network/", u.as_str()),
                None => owned("/devices/network"),
            };
            Ok(get_call(path, Render::Json))
        },
        DevicesCmd::Name { device_uuid, set } => match set {
            Some(name) => {
                let body = obj1("name", Json::string(name.as_str()));
                let status = obj2(
                    "deviceUuid",
                    Json::string(device_uuid.as_str()),
                    "name",
                    Json::string(name.as_str()),
                );
                Ok(
                    make_call(
                        None,
                        Method::Put,
                        path2("/devices/name/", device_uuid.as_str()),
                        no_query(),
                        Body::Json(body),
                        Render::Status(concat3("Name set to `", name.as_str(), "`."), status),
                    ),
                )
            },
            None => Ok(get_call(path2("/devices/name/", device_uuid.as_str()), Render::Json)),
        },
        DevicesCmd::Notes { device_uuid, set } => match set {
            Some(notes) => {
                let body = obj1("notes", Json::string(notes.as_str()));
                let status = obj2(
                    "deviceUuid",
                    Json::string(device_uuid.as_str()),
                    "notes",
                    Json::string(notes.as_str()),
                );
                Ok(
                    make_call(
                        None,
                        Method::Put,
                        path2("/devices/notes/", device_uuid.as_str()),
                        no_query(),
                        Body::Json(body),
                        Render::Status(owned("Notes updated."), status),
                    ),
                )
            },
            None => Ok(get_call(path2("/devices/notes/", device_uuid.as_str()), Render::Json)),
        },
        DevicesCmd::Tags { device_uuid } => Ok(
            get_call(path2("/devices/tags/", device_uuid.as_str()), Render::Json),
        ),
        DevicesCmd::SetTags { device_uuid, tags } => {
            let body = tags_object(&tags);
            let status = obj2(
                "status",
                Json::string("updated"),
                "deviceUuid",
                Json::string(device_uuid.as_str()),
            );
            Ok(
                make_call(
                    None,
                    Method::Patch,
                    path2("/devices/tags/", device_uuid.as_str()),
                    no_query(),
                    Body::Json(body),
                    Render::Status(owned("Tags updated."), status),
                ),
            )
        },
        DevicesCmd::Hibernate { device_uuid, on, off } => {
            if !on && !off {
                return Err(CliError::HibernateNeedsOnOrOff);
            }
            let body = obj1("status", Json::boolean(on));
            let status = obj2(
                "deviceUuid",
                Json::string(device_uuid.as_str()),
                "hibernated",
                Json::boolean(on),
            );
            let b = bool_string(on);
            Ok(
                make_call(
                    None,
                    Method::Put,
                    path2("/devices/hibernation/", device_uuid.as_str()),
                    no_query(),
                    Body::Json(body),
                    Render::Status(concat3("Hibernation set to ", b.as_str(), "."), status),
                ),
            )
        },
        DevicesCmd::Create(a) => Ok(create_plan(a)),
        DevicesCmd::Delete { device_uuid, yes } => {
            let confirm = if yes {
                None
            } else {
                Some(concat3("Delete device ", device_uuid.as_str(), "?"))
            };
            let status = obj2(
                "status",
                Json::string("deleted"),
                "deviceUuid",
                Json::string(device_uuid.as_str()),
            );
            Ok(
                make_call(
                    confirm,
                    Method::Delete,
                    path2("/devices/", device_uuid.as_str()),
                    no_query(),
                    Body::Empty,
                    Render::Status(concat3("Device ", device_uuid.as_str(), " deleted."), status),
                ),
            )
        },
        DevicesCmd::Token => Ok(get_call(owned("/devices/token"), Render::Json)),
    }
}

} // verus!
