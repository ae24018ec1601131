//! `torizon fleets`: manage fleets and their device membership.

use vstd::prelude::*;

use super::{
    call_plan, get_call, get_plan, make_call, no_query, obj2, obj3, opt_decimal, opt_pair,
    pairs_view, path2, path3, push_field, push_paging, Body, BodyV, CliError, Columns, Plan,
    PlanV, Render, RenderV,
};
use super::updates::str_array;
use crate::client::Method;
use crate::json::{fields_view, Json, JsonV};
use crate::text::{concat3, decimal, decimal_u64, owned};

verus! {

/// `torizon fleets` subcommands.
pub enum FleetsCmd {
    /// List fleets in your repository.
    List(ListArgs),
    /// Show a single fleet.
    Get { fleet_id: String },
    /// Create a new fleet.
    Create(CreateArgs),
    /// Delete a fleet.
    Delete { fleet_id: String, yes: bool },
    /// List the devices belonging to a fleet.
    Devices { fleet_id: String },
    /// Add devices to a (static) fleet.
    AddDevices { fleet_id: String, devices: Vec<String> },
    /// Remove devices from a (static) fleet.
    RemoveDevices { fleet_id: String, devices: Vec<String>, yes: bool },
}

pub struct ListArgs {
    pub limit: Option<u32>,
    pub offset: Option<u32>,
}

/// The kind of a fleet.
#[derive(Debug, Clone, Copy, PartialEq, Eq, Structural)]
pub enum FleetType {
    Static,
    Dynamic,
}

pub open spec fn fleet_type_name(t: FleetType) -> Seq<char> {
    match t {
        FleetType::Static => "static"@,
        FleetType::Dynamic => "dynamic"@,
    }
}

impl FleetType {
    /// The API's name of the fleet type.
    pub fn as_str(self) -> (r: &'static str)
        ensures
            r@ == fleet_type_name(self),
    {
        match self {
            FleetType::Static => "static",
            FleetType::Dynamic => "dynamic",
        }
    }
}

pub struct CreateArgs {
    /// Fleet name.
    pub name: String,
    /// Fleet type.
    pub fleet_type: FleetType,
    /// Membership expression (required for dynamic fleets).
    pub expression: Option<String>,
}

/// The body of `fleets create`.
pub open spec fn create_body(a: CreateArgs) -> JsonV {
    JsonV::Object(
        seq![("name"@, JsonV::Str(a.name@)), ("fleetType"@, JsonV::Str(fleet_type_name(a.fleet_type)))]
            + match a.expression {
            Some(e) => seq![("expression"@, JsonV::Str(e@))],
            None => Seq::empty(),
        },
    )
}

/// The plan of each `fleets` subcommand.
pub open spec fn fleets_plan(cmd: FleetsCmd) -> Result<PlanV, CliError> {
    match cmd {
        FleetsCmd::List(a) => Ok(
            call_plan(
                None,
                Method::Get,
                "/fleets"@,
                opt_pair("limit"@, opt_decimal(a.limit)) + opt_pair("offset"@, opt_decimal(a.offset)),
                BodyV::Empty,
                RenderV::Table(Columns::Fleets),
            ),
        ),
        FleetsCmd::Get { fleet_id } => Ok(get_plan("/fleets/"@ + fleet_id@, RenderV::Json)),
        FleetsCmd::Create(a) => if a.fleet_type == FleetType::Dynamic && a.expression is None {
            Err(CliError::DynamicFleetNeedsExpression)
        } else {
            Ok(
                call_plan(
                    None,
                    Method::Post,
                    "/fleets"@,
                    Seq::empty(),
                    BodyV::Json(create_body(a)),
                    RenderV::Data("Fleet created."@),
                ),
            )
        },
        FleetsCmd::Delete { fleet_id, yes } => Ok(
            call_plan(
                if yes {
                    None
                } else {
                    Some("Delete fleet "@ + fleet_id@ + "?"@)
                },
                Method::Delete,
                "/fleets/"@ + fleet_id@,
                Seq::empty(),
                BodyV::Empty,
                RenderV::Status(
                    "Fleet "@ + fleet_id@ + " deleted."@,
                    JsonV::Object(
                        seq![("status"@, JsonV::Str("deleted"@)), ("fleetId"@, JsonV::Str(fleet_id@))],
                    ),
                ),
            ),
        ),
        FleetsCmd::Devices { fleet_id } => Ok(
            get_plan("/fleets/"@ + fleet_id@ + "/devices"@, RenderV::Table(Columns::FleetDevices)),
        ),
        FleetsCmd::AddDevices { fleet_id, devices } => Ok(
            call_plan(
                None,
                Method::Post,
                "/fleets/"@ + fleet_id@ + "/devices"@,
                Seq::empty(),
                BodyV::Json(str_array(devices@)),
                RenderV::Status(
                    "Added "@ + decimal(devices@.len()) + " device(s) to fleet "@ + fleet_id@ + "."@,
                    JsonV::Object(
                        seq![
                            ("status"@, JsonV::Str("added"@)),
                            ("fleetId"@, JsonV::Str(fleet_id@)),
                            ("devices"@, str_array(devices@)),
                        ],
                    ),
                ),
            ),
        ),
        FleetsCmd::RemoveDevices { fleet_id, devices, yes } => Ok(
            call_plan(
                if yes {
                    None
                } else {
                    Some(
                        "Remove "@ + decimal(devices@.len()) + " device(s) from fleet "@ + fleet_id@
                            + "?"@,
                    )
                },
                Method::Delete,
                "/fleets/"@ + fleet_id@ + "/devices"@,
                Seq::empty(),
                BodyV::Json(str_array(devices@)),
                RenderV::Status(
                    "Removed "@ + decimal(devices@.len()) + " device(s) from fleet "@ + fleet_id@
                        + "."@,
                    JsonV::Object(
                        seq![
                            ("status"@, JsonV::Str("removed"@)),
                            ("fleetId"@, JsonV::Str(fleet_id@)),
                            ("devices"@, str_array(devices@)),
                        ],
                    ),
                ),
            ),
        ),
    }
}

/// Fleet membership changes address the fleet's device list with the
/// devices as a JSON array of strings: removing sends a DELETE and asks first
/// unless `yes`; adding sends a POST without asking. So the two never send
/// the same request.
pub proof fn law_fleet_membership_requests(fleet_id: String, devices: Vec<String>, yes: bool)
    ensures
        ({
            let body = BodyV::Json(JsonV::Array(Seq::new(devices@.len(), |i: int| JsonV::Str(devices@[i]@))));
            let path = "/fleets/"@ + fleet_id@ + "/devices"@;
            &&& fleets_plan(FleetsCmd::RemoveDevices { fleet_id, devices, yes }) matches Ok(PlanV::Call(c))
                && c.request.method == Method::Delete && c.request.path == path && c.request.body == body
                && (c.confirm is Some <==> !yes)
            &&& fleets_plan(FleetsCmd::AddDevices { fleet_id, devices }) matches Ok(PlanV::Call(c))
                && c.request.method == Method::Post && c.request.path == path && c.request.body == body
                && c.confirm is None
        }),
{
    let a = JsonV::Array(Seq::new(devices@.len(), |i: int| JsonV::Str(devices@[i]@)));
    assert(str_array(devices@) == a);
}

/// Deleting a fleet sends a DELETE of the fleet, asking first unless `yes`.
pub proof fn law_fleet_delete_request(fleet_id: String, yes: bool)
    ensures
        fleets_plan(FleetsCmd::Delete { fleet_id, yes }) matches Ok(PlanV::Call(c)) && c.request.method
            == Method::Delete && c.request.path == "/fleets/"@ + fleet_id@ && c.request.body == BodyV::Empty
            && (c.confirm is Some <==> !yes),
{
}

/// Listing fleets passes each given paging parameter as a query pair.
pub proof fn law_fleet_list_paging(a: ListArgs)
    ensures
        fleets_plan(FleetsCmd::List(a)) matches Ok(PlanV::Call(c)) && c.request.method == Method::Get
            && (forall|n: u32| a.limit == Some(n) ==> c.request.query.contains(("limit"@, decimal(n as nat))))
            && (forall|n: u32| a.offset == Some(n) ==> c.request.query.contains(("offset"@, decimal(n as nat)))),
{
    let q = opt_pair("limit"@, opt_decimal(a.limit)) + opt_pair("offset"@, opt_decimal(a.offset));
    let k = opt_pair("limit"@, opt_decimal(a.limit)).len() as int;
    if let Some(n) = a.limit {
        assert(q[0] == ("limit"@, decimal(n as nat)));
    }
    if let Some(n) = a.offset {
        assert(q[k] == ("offset"@, decimal(n as nat)));
    }
}

/// `<a><n><b><id><c>` with `n` in decimal.
fn count_message(a: &str, n: usize, b: &str, id: &str, c: &str) -> (r: String)
    ensures
        r@ == a@ + decimal(n as nat) + b@ + id@ + c@,
{
    let d = decimal_u64(n as u64);
    let mut r = concat3(a, d.as_str(), b);
    r.append(id);
    r.append(c);
    r
}

/// Plans a `fleets` subcommand.
pub fn run(cmd: FleetsCmd) -> (r: Result<Plan, CliError>)
    ensures
        match fleets_plan(cmd) {
            Ok(p) => r matches Ok(q) && q@ == p,
            Err(e) => r == Err::<Plan, CliError>(e),
        },
{
    match cmd {
        FleetsCmd::List(a) => {
            let mut q: Vec<(String, String)> = Vec::new();
            assert(pairs_view(q@) =~= Seq::<(Seq<char>, Seq<char>)>::empty());
            push_paging(&mut q, a.limit, a.offset);
            Ok(make_call(None, Method::Get, owned("/fleets"), q, Body::Empty, Render::Table(Columns::Fleets)))
        },
        FleetsCmd::Get { fleet_id } => Ok(get_call(path2("/fleets/", fleet_id.as_str()), Render::Json)),
        FleetsCmd::Create(a) => {
            if a.fleet_type == FleetType::Dynamic && a.expression.is_none() {
                return Err(CliError::DynamicFleetNeedsExpression);
            }
            let mut fields: Vec<(String, Json)> = Vec::new();
            assert(fields_view(fields@) =~= Seq::<(Seq<char>, JsonV)>::empty());
            push_field(&mut fields, "name", Json::string(a.name.as_str()));
            push_field(&mut fields, "fleetType", Json::string(a.fleet_type.as_str()));
            if let Some(e) = &a.expression {
                push_field(&mut fields, "expression", Json::string(e.as_str()));
            }
            proof {
                match create_body(a) {
                    JsonV::Object(t) => {
                        assert(fields_view(fields@) =~= t);
                    },
                    _ => {},
                }
            }
            Ok(
                make_call(
                    None,
                    Method::Post,
                    owned("/fleets"),
                    no_query(),
                    Body::Json(Json::object(fields)),
                    Render::Data(owned("Fleet created.")),
                ),
            )
        },
        FleetsCmd::Delete { fleet_id, yes } => {
            let confirm = if yes {
                None
            } else {
                Some(concat3("Delete fleet ", fleet_id.as_str(), "?"))
            };
            let status = obj2("status", Json::string("deleted"), "fleetId", Json::string(fleet_id.as_str()));
            Ok(
                make_call(
                    confirm,
                    Method::Delete,
                    path2("/fleets/", fleet_id.as_str()),
                    no_query(),
                    Body::Empty,
                    Render::Status(concat3("Fleet ", fleet_id.as_str(), " deleted."), status),
                ),
            )
        },
        FleetsCmd::Devices { fleet_id } => Ok(
            get_call(path3("/fleets/", fleet_id.as_str(), "/devices"), Render::Table(Columns::FleetDevices)),
        ),
        FleetsCmd::AddDevices { fleet_id, devices } => {
            let msg = count_message("Added ", devices.len(), " device(s) to fleet ", fleet_id.as_str(), ".");
            let status = obj3(
                "status",
                Json::string("added"),
                "fleetId",
                Json::string(fleet_id.as_str()),
                "devices",
                Json::strings(&devices),
            );
            Ok(
                make_call(
                    None,
                    Method::Post,
                    path3("/fleets/", fleet_id.as_str(), "/devices"),
                    no_query(),
                    Body::Json(Json::strings(&devices)),
                    Render::Status(msg, status),
                ),
            )
        },
        FleetsCmd::RemoveDevices { fleet_id, devices, yes } => {
            let confirm = if yes {
                None
            } else {
                Some(count_message("Remove ", devices.len(), " device(s) from fleet ", fleet_id.as_str(), "?"))
            };
            let msg = count_message("Removed ", devices.len(), " device(s) from fleet ", fleet_id.as_str(), ".");
            let status = obj3(
                "status",
                Json::string("removed"),
                "fleetId",
                Json::string(fleet_id.as_str()),
                "devices",
                Json::strings(&devices),
            );
            Ok(
                make_call(
                    confirm,
                    Method::Delete,
                    path3("/fleets/", fleet_id.as_str(), "/devices"),
                    no_query(),
                    Body::Json(Json::strings(&devices)),
                    Render::Status(msg, status),
                ),
            )
        },
    }
}

} // verus!
