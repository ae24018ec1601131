//! `torizon packages`: list, inspect, upload, edit, and delete packages.

use vstd::prelude::*;

use super::{
    call_plan, get_call, get_plan, make_call, no_query, obj2, opt_decimal, opt_pair, opt_text,
    pairs_view, path2, push_field, push_opt, push_paging, push_pair, push_repeated, repeated,
    Body, BodyV, CliError, Columns, Plan, PlanV, Render, RenderV,
};
use super::updates::str_array;
use crate::client::Method;
use crate::json::{fields_view, lookup, Json, JsonV};
use crate::text::{concat3, decimal, owned};

verus! {

/// Package sort field.
#[derive(Debug, Clone, Copy, PartialEq, Eq, Structural)]
pub enum SortBy {
    Filename,
    CreatedAt,
}

/// Sort direction.
#[derive(Debug, Clone, Copy, PartialEq, Eq, Structural)]
pub enum SortDir {
    Asc,
    Desc,
}

pub open spec fn sort_by_name(s: SortBy) -> Seq<char> {
    match s {
        SortBy::Filename => "Filename"@,
        SortBy::CreatedAt => "CreatedAt"@,
    }
}

pub open spec fn sort_dir_name(s: SortDir) -> Seq<char> {
    match s {
        SortDir::Asc => "Asc"@,
        SortDir::Desc => "Desc"@,
    }
}

impl SortBy {
    /// The API's exact name of the sort field.
    pub fn api(self) -> (r: &'static str)
        ensures
            r@ == sort_by_name(self),
    {
        match self {
            SortBy::Filename => "Filename",
            SortBy::CreatedAt => "CreatedAt",
        }
    }
}

impl SortDir {
    /// The API's exact name of the sort direction.
    pub fn api(self) -> (r: &'static str)
        ensures
            r@ == sort_dir_name(self),
    {
        match self {
            SortDir::Asc => "Asc",
            SortDir::Desc => "Desc",
        }
    }
}

/// `torizon packages` subcommands.
pub enum PackagesCmd {
    /// List packages in your repository.
    List(ListArgs),
    /// Show metadata for a single package.
    Get { package_id: String },
    /// Upload a new package.
    Upload(UploadArgs),
    /// Edit metadata (comment / hardware IDs) of a package.
    Edit(EditArgs),
    /// Delete a package by ID.
    Delete(DeleteArgs),
    /// List packages from external sources.
    External,
}

pub struct ListArgs {
    pub limit: Option<u32>,
    pub offset: Option<u32>,
    /// Only packages whose name contains this substring.
    pub name_contains: Option<String>,
    /// Only packages whose ID contains this substring.
    pub id_contains: Option<String>,
    /// Filter by exact version.
    pub version: Option<String>,
    /// Filter by compatible hardware IDs.
    pub hardware_ids: Vec<String>,
    pub sort_by: Option<SortBy>,
    pub sort_direction: Option<SortDir>,
}

pub struct UploadArgs {
    pub name: String,
    pub version: String,
    /// Compatible hardware IDs (at least one).
    pub hardware_id: Vec<String>,
    /// Target format (e.g. "OSTREE" or "BINARY").
    pub format: String,
    /// Path of the package file to upload.
    pub file: String,
}

pub struct EditArgs {
    pub package_id: String,
    /// Replacement comment.
    pub comment: Option<String>,
    /// Replacement hardware IDs (replace the existing set).
    pub hardware_ids: Vec<String>,
}

pub struct DeleteArgs {
    pub package_id: String,
    /// Skip the confirmation prompt.
    pub yes: bool,
}

/// The query of `packages list`.
pub open spec fn list_query(a: ListArgs) -> Seq<(Seq<char>, Seq<char>)> {
    opt_pair("limit"@, opt_decimal(a.limit)) + opt_pair("offset"@, opt_decimal(a.offset)) + opt_pair(
        "nameContains"@,
        opt_text(a.name_contains),
    ) + opt_pair("idContains"@, opt_text(a.id_contains)) + opt_pair("version"@, opt_text(a.version))
        + repeated("hardwareIds"@, a.hardware_ids@) + opt_pair(
        "sortBy"@,
        match a.sort_by {
            Some(s) => Some(sort_by_name(s)),
            None => None,
        },
    ) + opt_pair(
        "sortDirection"@,
        match a.sort_direction {
            Some(s) => Some(sort_dir_name(s)),
            None => None,
        },
    )
}

/// The query of `packages upload`: the metadata travels as query parameters.
pub open spec fn upload_query(a: UploadArgs) -> Seq<(Seq<char>, Seq<char>)> {
    seq![("name"@, a.name@), ("version"@, a.version@), ("targetFormat"@, a.format@)] + repeated(
        "hardwareId"@,
        a.hardware_id@,
    )
}

/// The members of an edit: the comment and the hardware IDs that are given.
pub open spec fn edit_fields(a: EditArgs) -> Seq<(Seq<char>, JsonV)> {
    (match a.comment {
        Some(c) => seq![("comment"@, JsonV::Str(c@))],
        None => Seq::empty(),
    }) + (if a.hardware_ids@.len() > 0 {
        seq![("hardwareIds"@, str_array(a.hardware_ids@))]
    } else {
        Seq::empty()
    })
}

/// The plan of each `packages` subcommand.
pub open spec fn packages_plan(cmd: PackagesCmd) -> Result<PlanV, CliError> {
    match cmd {
        PackagesCmd::List(a) => Ok(
            call_plan(
                None,
                Method::Get,
                "/packages"@,
                list_query(a),
                BodyV::Empty,
                RenderV::Table(Columns::Packages),
            ),
        ),
        PackagesCmd::Get { package_id } => Ok(get_plan("/packages/"@ + package_id@, RenderV::Object)),
        PackagesCmd::Upload(a) => Ok(
            call_plan(
                None,
                Method::Post,
                "/packages"@,
                upload_query(a),
                BodyV::File(a.file@),
                RenderV::Data("Package uploaded."@),
            ),
        ),
        PackagesCmd::Edit(a) => if edit_fields(a).len() == 0 {
            Err(CliError::NothingToEdit)
        } else {
            Ok(
                call_plan(
                    None,
                    Method::Patch,
                    "/packages/"@ + a.package_id@,
                    Seq::empty(),
                    BodyV::Json(JsonV::Object(edit_fields(a))),
                    RenderV::Data("Package updated."@),
                ),
            )
        },
        PackagesCmd::Delete(a) => Ok(
            call_plan(
                if a.yes {
                    None
                } else {
                    Some("Delete package "@ + a.package_id@ + "?"@)
                },
                Method::Delete,
                "/packages/"@ + a.package_id@,
                Seq::empty(),
                BodyV::Empty,
                RenderV::Status(
                    "Package "@ + a.package_id@ + " deleted."@,
                    JsonV::Object(
                        seq![("status"@, JsonV::Str("deleted"@)), ("packageId"@, JsonV::Str(a.package_id@))],
                    ),
                ),
            ),
        ),
        PackagesCmd::External => Ok(get_plan("/packages_external"@, RenderV::Table(Columns::ExternalPackages))),
    }
}

/// Listing packages passes every given filter, paging and sorting parameter
/// as a query pair (sorting by the API's names), one pair per hardware ID.
#[verifier::rlimit(80)]
pub proof fn law_package_list_query(a: ListArgs)
    ensures
        ({
            let q = list_query(a);
            &&& packages_plan(PackagesCmd::List(a)) matches Ok(PlanV::Call(c)) && c.request.method == Method::Get
                && c.request.path == "/packages"@ && c.request.query == q
            &&& forall|n: u32| a.limit == Some(n) ==> q.contains(("limit"@, decimal(n as nat)))
            &&& forall|n: u32| a.offset == Some(n) ==> q.contains(("offset"@, decimal(n as nat)))
            &&& forall|t: String| a.name_contains == Some(t) ==> q.contains(("nameContains"@, t@))
            &&& forall|t: String| a.id_contains == Some(t) ==> q.contains(("idContains"@, t@))
            &&& forall|t: String| a.version == Some(t) ==> q.contains(("version"@, t@))
            &&& forall|i: int| 0 <= i < a.hardware_ids@.len() ==> q.contains(("hardwareIds"@, (#[trigger] a.hardware_ids@[i])@))
            &&& a.sort_by == Some(SortBy::Filename) ==> q.contains(("sortBy"@, "Filename"@))
            &&& a.sort_by == Some(SortBy::CreatedAt) ==> q.contains(("sortBy"@, "CreatedAt"@))
            &&& a.sort_direction == Some(SortDir::Asc) ==> q.contains(("sortDirection"@, "Asc"@))
            &&& a.sort_direction == Some(SortDir::Desc) ==> q.contains(("sortDirection"@, "Desc"@))
        }),
{
    let q = list_query(a);
    let l0 = opt_pair("limit"@, opt_decimal(a.limit)).len() as int;
    let l1 = opt_pair("offset"@, opt_decimal(a.offset)).len() as int;
    let l2 = opt_pair("nameContains"@, opt_text(a.name_contains)).len() as int;
    let l3 = opt_pair("idContains"@, opt_text(a.id_contains)).len() as int;
    let l4 = opt_pair("version"@, opt_text(a.version)).len() as int;
    let h = a.hardware_ids@.len() as int;
    let l5 = opt_pair(
        "sortBy"@,
        match a.sort_by {
            Some(s) => Some(sort_by_name(s)),
            None => None,
        },
    ).len() as int;
    if let Some(n) = a.limit {
        assert(q[0] == ("limit"@, decimal(n as nat)));
    }
    if let Some(n) = a.offset {
        assert(q[l0] == ("offset"@, decimal(n as nat)));
    }
    if let Some(t) = a.name_contains {
        assert(q[l0 + l1] == ("nameContains"@, t@));
    }
    if let Some(t) = a.id_contains {
        assert(q[l0 + l1 + l2] == ("idContains"@, t@));
    }
    if let Some(t) = a.version {
        assert(q[l0 + l1 + l2 + l3] == ("version"@, t@));
    }
    assert forall|i: int| 0 <= i < h implies q.contains(("hardwareIds"@, (#[trigger] a.hardware_ids@[i])@)) by {
        assert(q[l0 + l1 + l2 + l3 + l4 + i] == ("hardwareIds"@, a.hardware_ids@[i]@));
    }
    if let Some(x) = a.sort_by {
        assert(q[l0 + l1 + l2 + l3 + l4 + h] == ("sortBy"@, sort_by_name(x)));
    }
    if let Some(x) = a.sort_direction {
        assert(q[l0 + l1 + l2 + l3 + l4 + h + l5] == ("sortDirection"@, sort_dir_name(x)));
    }
}

/// Deleting a package sends a DELETE of the package, asking first unless `yes`.
pub proof fn law_package_delete_request(a: DeleteArgs)
    ensures
        packages_plan(PackagesCmd::Delete(a)) matches Ok(PlanV::Call(c)) && c.request.method == Method::Delete
            && c.request.path == "/packages/"@ + a.package_id@ && c.request.body == BodyV::Empty
            && (c.confirm is Some <==> !a.yes),
{
}

/// An edit sends exactly the given replacements: nothing at all when neither
/// a comment nor hardware IDs are given; otherwise a PATCH of the package whose
/// body has a `comment` member exactly when a comment is given and a
/// `hardwareIds` member exactly when hardware IDs are given.
pub proof fn law_package_edit_request(a: EditArgs)
    ensures
        a.comment is None && a.hardware_ids@.len() == 0 ==> packages_plan(PackagesCmd::Edit(a)) == Err::<
            PlanV,
            CliError,
        >(CliError::NothingToEdit),
        !(a.comment is None && a.hardware_ids@.len() == 0) ==> match packages_plan(PackagesCmd::Edit(a)) {
            Ok(PlanV::Call(c)) => c.request.method == Method::Patch && c.request.path == "/packages/"@
                + a.package_id@ && match c.request.body {
                BodyV::Json(JsonV::Object(fs)) => {
                    &&& forall|t: String| a.comment == Some(t) ==> lookup(fs, "comment"@) == Some(JsonV::Str(t@))
                    &&& a.comment is None ==> lookup(fs, "comment"@) is None
                    &&& a.hardware_ids@.len() > 0 <==> lookup(fs, "hardwareIds"@) is Some
                },
                _ => false,
            },
            _ => false,
        },
{
    reveal_strlit("comment");
    reveal_strlit("hardwareIds");
    assert("comment"@[0] != "hardwareIds"@[0]);
    let fs = edit_fields(a);
    reveal_with_fuel(lookup, 3);
}

fn list_plan(a: ListArgs) -> (r: Plan)
    ensures
        r@ == call_plan(
            None,
            Method::Get,
            "/packages"@,
            list_query(a),
            BodyV::Empty,
            RenderV::Table(Columns::Packages),
        ),
{
    let mut q: Vec<(String, String)> = Vec::new();
    assert(pairs_view(q@) =~= Seq::<(Seq<char>, Seq<char>)>::empty());
    push_paging(&mut q, a.limit, a.offset);
    push_opt(&mut q, "nameContains", a.name_contains);
    push_opt(&mut q, "idContains", a.id_contains);
    push_opt(&mut q, "version", a.version);
    push_repeated(&mut q, "hardwareIds", &a.hardware_ids);
    let ghost before = pairs_view(q@);
    if let Some(s) = a.sort_by {
        push_pair(&mut q, "sortBy", owned(s.api()));
    }
    let ghost mid = pairs_view(q@);
    assert(mid =~= before + opt_pair(
        "sortBy"@,
        match a.sort_by {
            Some(s) => Some(sort_by_name(s)),
            None => None,
        },
    ));
    if let Some(d) = a.sort_direction {
        push_pair(&mut q, "sortDirection", owned(d.api()));
    }
    assert(pairs_view(q@) =~= mid + opt_pair(
        "sortDirection"@,
        match a.sort_direction {
            Some(s) => Some(sort_dir_name(s)),
            None => None,
        },
    ));
    assert(pairs_view(q@) =~= list_query(a));
    make_call(None, Method::Get, owned("/packages"), q, Body::Empty, Render::Table(Columns::Packages))
}

fn upload_plan(a: UploadArgs) -> (r: Plan)
    ensures
        r@ == call_plan(
            None,
            Method::Post,
            "/packages"@,
            upload_query(a),
            BodyV::File(a.file@),
            RenderV::Data("Package uploaded."@),
        ),
{
    let mut q: Vec<(String, String)> = Vec::new();
    assert(pairs_view(q@) =~= Seq::<(Seq<char>, Seq<char>)>::empty());
    push_pair(&mut q, "name", a.name.clone());
    push_pair(&mut q, "version", a.version.clone());
    push_pair(&mut q, "targetFormat", a.format.clone());
    push_repeated(&mut q, "hardwareId", &a.hardware_id);
    assert(pairs_view(q@) =~= upload_query(a));
    make_call(
        None,
        Method::Post,
        owned("/packages"),
        q,
        Body::File(a.file.clone()),
        Render::Data(owned("Package uploaded.")),
    )
}

/// Plans a `packages` subcommand.
pub fn run(cmd: PackagesCmd) -> (r: Result<Plan, CliError>)
    ensures
        match packages_plan(cmd) {
            Ok(p) => r matches Ok(q) && q@ == p,
            Err(e) => r == Err::<Plan, CliError>(e),
        },
{
    match cmd {
        PackagesCmd::List(a) => Ok(list_plan(a)),
        PackagesCmd::Get { package_id } => Ok(
            get_call(path2("/packages/", package_id.as_str()), Render::Object),
        ),
        PackagesCmd::Upload(a) => Ok(upload_plan(a)),
        PackagesCmd::Edit(a) => {
            let mut fields: Vec<(String, Json)> = Vec::new();
            assert(fields_view(fields@) =~= Seq::<(Seq<char>, JsonV)>::empty());
            if let Some(c) = &a.comment {
                push_field(&mut fields, "comment", Json::string(c.as_str()));
            }
            if a.hardware_ids.len() > 0 {
                push_field(&mut fields, "hardwareIds", Json::strings(&a.hardware_ids));
            }
            assert(fields_view(fields@) =~= edit_fields(a));
            if fields.len() == 0 {
                proof {
                    crate::json::lemma_fields_view(fields@);
                }
                return Err(CliError::NothingToEdit);
            }
            proof {
                crate::json::lemma_fields_view(fields@);
            }
            Ok(
                make_call(
                    None,
                    Method::Patch,
                    path2("/packages/", a.package_id.as_str()),
                    no_query(),
                    Body::Json(Json::object(fields)),
                    Render::Data(owned("Package updated.")),
                ),
            )
        },
        PackagesCmd::Delete(a) => {
            let confirm = if a.yes {
                None
            } else {
                Some(concat3("Delete package ", a.package_id.as_str(), "?"))
            };
            let status = obj2(
                "status",
                Json::string("deleted"),
                "packageId",
                Json::string(a.package_id.as_str()),
            );
            Ok(
                make_call(
                    confirm,
                    Method::Delete,
                    path2("/packages/", a.package_id.as_str()),
                    no_query(),
                    Body::Empty,
                    Render::Status(concat3("Package ", a.package_id.as_str(), " deleted."), status),
                ),
            )
        },
        PackagesCmd::External => Ok(
            get_call(owned("/packages_external"), Render::Table(Columns::ExternalPackages)),
        ),
    }
}

} // verus!
