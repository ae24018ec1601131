//! `torizon lockboxes`: manage lockbox (offline-update) definitions.

use vstd::prelude::*;

use super::{
    call_plan, get_call, get_plan, make_call, no_query, obj2, path2, push_field, Body, BodyV,
    CliError, Plan, PlanV, Render, RenderV,
};
use super::updates::str_array;
use crate::client::Method;
use crate::json::{fields_view, Json, JsonV};
use crate::text::{concat3, owned};

verus! {

/// `torizon lockboxes` subcommands.
pub enum LockboxesCmd {
    /// List all lockboxes.
    List,
    /// List all lockboxes with their detailed contents.
    Details,
    /// Show the raw Uptane metadata for a lockbox.
    Get { name: String },
    /// Define or update a lockbox.
    Define(SetArgs),
    /// Delete a lockbox.
    Delete { name: String, yes: bool },
}

pub struct SetArgs {
    /// Lockbox name.
    pub name: String,
    /// Package IDs to include (at least one).
    pub packages: Vec<String>,
    /// Expiry timestamp (RFC 3339, e.g. 2026-12-31T00:00:00Z).
    pub expires_at: Option<String>,
}

/// The body of `lockboxes set`.
pub open spec fn set_body(a: SetArgs) -> JsonV {
    JsonV::Object(
        seq![("packageIds"@, str_array(a.packages@))] + match a.expires_at {
            Some(e) => seq![("expiresAt"@, JsonV::Str(e@))],
            None => Seq::empty(),
        },
    )
}

/// The plan of each `lockboxes` subcommand.
pub open spec fn lockboxes_plan(cmd: LockboxesCmd) -> Result<PlanV, CliError> {
    match cmd {
        LockboxesCmd::List => Ok(get_plan("/lockboxes"@, RenderV::List)),
        LockboxesCmd::Details => Ok(get_plan("/lockbox-details"@, RenderV::Json)),
        LockboxesCmd::Get { name } => Ok(get_plan("/lockboxes/"@ + name@, RenderV::Json)),
        LockboxesCmd::Define(a) => Ok(
            call_plan(
                None,
                Method::Post,
                "/lockboxes/"@ + a.name@,
                Seq::empty(),
                BodyV::Json(set_body(a)),
                RenderV::Data("Lockbox `"@ + a.name@ + "` saved."@),
            ),
        ),
        LockboxesCmd::Delete { name, yes } => Ok(
            call_plan(
                if yes {
                    None
                } else {
                    Some("Delete lockbox "@ + name@ + "?"@)
                },
                Method::Delete,
                "/lockboxes/"@ + name@,
                Seq::empty(),
                BodyV::Empty,
                RenderV::Status(
                    "Lockbox "@ + name@ + " deleted."@,
                    JsonV::Object(seq![("status"@, JsonV::Str("deleted"@)), ("name"@, JsonV::Str(name@))]),
                ),
            ),
        ),
    }
}

/// Deleting a lockbox sends a DELETE of the lockbox, asking first unless `yes`.
pub proof fn law_lockbox_delete_request(name: String, yes: bool)
    ensures
        lockboxes_plan(LockboxesCmd::Delete { name, yes }) matches Ok(PlanV::Call(c)) && c.request.method
            == Method::Delete && c.request.path == "/lockboxes/"@ + name@ && c.request.body == BodyV::Empty
            && (c.confirm is Some <==> !yes),
{
}

/// Defining a lockbox POSTs to the lockbox the package IDs as a JSON array
/// of strings, in order.
pub proof fn law_lockbox_define_request(a: SetArgs)
    ensures
        match lockboxes_plan(LockboxesCmd::Define(a)) {
            Ok(PlanV::Call(c)) => c.request.method == Method::Post && c.request.path == "/lockboxes/"@ + a.name@
                && match c.request.body {
                BodyV::Json(JsonV::Object(fs)) => fs.len() > 0 && fs[0] == (
                    "packageIds"@,
                    JsonV::Array(Seq::new(a.packages@.len(), |i: int| JsonV::Str(a.packages@[i]@))),
                ),
                _ => false,
            },
            _ => false,
        },
{
}

/// Plans a `lockboxes` subcommand.
pub fn run(cmd: LockboxesCmd) -> (r: Result<Plan, CliError>)
    ensures
        match lockboxes_plan(cmd) {
            Ok(p) => r matches Ok(q) && q@ == p,
            Err(e) => r == Err::<Plan, CliError>(e),
        },
{
    match cmd {
        LockboxesCmd::List => Ok(get_call(owned("/lockboxes"), Render::List)),
        LockboxesCmd::Details => Ok(get_call(owned("/lockbox-details"), Render::Json)),
        LockboxesCmd::Get { name } => Ok(get_call(path2("/lockboxes/", name.as_str()), Render::Json)),
        LockboxesCmd::Define(a) => {
            let mut fields: Vec<(String, Json)> = Vec::new();
            assert(fields_view(fields@) =~= Seq::<(Seq<char>, JsonV)>::empty());
            push_field(&mut fields, "packageIds", Json::strings(&a.packages));
            if let Some(e) = &a.expires_at {
                push_field(&mut fields, "expiresAt", Json::string(e.as_str()));
            }
            proof {
                match set_body(a) {
                    JsonV::Object(t) => {
                        assert(fields_view(fields@) =~= t);
                    },
                    _ => {},
                }
            }
            Ok(
                make_call(
                    None,
                    Method::Post,
                    path2("/lockboxes/", a.name.as_str()),
                    no_query(),
                    Body::Json(Json::object(fields)),
                    Render::Data(concat3("Lockbox `", a.name.as_str(), "` saved.")),
                ),
            )
        },
        LockboxesCmd::Delete { name, yes } => {
            let confirm = if yes {
                None
            } else {
                Some(concat3("Delete lockbox ", name.as_str(), "?"))
            };
            let status = obj2("status", Json::string("deleted"), "name", Json::string(name.as_str()));
            Ok(
                make_call(
                    confirm,
                    Method::Delete,
                    path2("/lockboxes/", name.as_str()),
                    no_query(),
                    Body::Empty,
                    Render::Status(concat3("Lockbox ", name.as_str(), " deleted."), status),
                ),
            )
        },
    }
}

} // verus!
