//! Subcommands. Each subcommand is planned here as the API call to make
//! (method, path, query, body), whether to ask for confirmation first, and
//! how to present the reply; the caller performs the call and prints what
//! `render` returns.

pub mod devices;
pub mod fleets;
pub mod lockboxes;
pub mod login;
pub mod metrics;
pub mod packages;
pub mod remote_access;
pub mod updates;

use vstd::prelude::*;

use crate::client::Method;
use crate::json::{fields_view, lemma_fields_view, Json, JsonV};
use crate::json::{items_view, json_view, lemma_items_view, lemma_items_view_ext};
use crate::output::{
    col_views, data_output, lines_out, list_output, object_output, outs, paginated,
    paginated_values, render_list, render_object, render_table, report_data, report_status,
    status_output, string_views, table_lines, Format, Out, OutV,
};
use updates::{flatten_update, flattened, latest, latest_update};
use crate::text::{ascii_lowercase, concat, owned, to_ascii_lowercase, trim, trim_str};

verus! {

/// Shared context passed to every subcommand.
pub struct Ctx {
    pub format: Format,
    /// Profile name from `--profile`, if any.
    pub profile: Option<String>,
}

/// Arguments that the API would refuse or that select nothing.
#[derive(Debug, Clone, Copy, PartialEq, Eq, Structural)]
pub enum CliError {
    HibernateNeedsOnOrOff,
    DynamicFleetNeedsExpression,
    NothingToEdit,
    NoUpdateTarget,
}

impl CliError {
    /// The message shown to the user.
    pub fn message(&self) -> (r: String)
        ensures
            r@ == match self {
                CliError::HibernateNeedsOnOrOff => "specify --on or --off"@,
                CliError::DynamicFleetNeedsExpression => "dynamic fleets require --expression"@,
                CliError::NothingToEdit => "nothing to edit; pass --comment and/or --hardware-id"@,
                CliError::NoUpdateTarget => "specify at least one --device or --fleet target"@,
            },
    {
        match self {
            CliError::HibernateNeedsOnOrOff => owned("specify --on or --off"),
            CliError::DynamicFleetNeedsExpression => owned("dynamic fleets require --expression"),
            CliError::NothingToEdit => owned("nothing to edit; pass --comment and/or --hardware-id"),
            CliError::NoUpdateTarget => owned("specify at least one --device or --fleet target"),
        }
    }
}

/// The body of a request.
pub enum Body {
    Empty,
    Json(Json),
    /// The contents of the named file, sent as `application/octet-stream`.
    File(String),
}

pub enum BodyV {
    Empty,
    Json(JsonV),
    File(Seq<char>),
}

impl View for Body {
    type V = BodyV;

    open spec fn view(&self) -> BodyV {
        match self {
            Body::Empty => BodyV::Empty,
            Body::Json(j) => BodyV::Json(j@),
            Body::File(p) => BodyV::File(p@),
        }
    }
}

pub open spec fn pairs_view(q: Seq<(String, String)>) -> Seq<(Seq<char>, Seq<char>)> {
    q.map_values(|p: (String, String)| (p.0@, p.1@))
}

/// An API request: method, path below the API base, query parameters (a
/// repeated key expresses several values), body.
pub struct Request {
    pub method: Method,
    pub path: String,
    pub query: Vec<(String, String)>,
    pub body: Body,
}

pub struct RequestV {
    pub method: Method,
    pub path: Seq<char>,
    pub query: Seq<(Seq<char>, Seq<char>)>,
    pub body: BodyV,
}

impl View for Request {
    type V = RequestV;

    open spec fn view(&self) -> RequestV {
        RequestV {
            method: self.method,
            path: self.path@,
            query: pairs_view(self.query@),
            body: self.body@,
        }
    }
}

/// The tables the CLI prints.
#[derive(Debug, Clone, Copy, PartialEq, Eq, Structural)]
pub enum Columns {
    Devices,
    Fleets,
    FleetDevices,
    Packages,
    ExternalPackages,
    Updates,
}

/// `(member, header)` pairs of each table.
pub open spec fn columns_spec(c: Columns) -> Seq<(Seq<char>, Seq<char>)> {
    match c {
        Columns::Devices => seq![
            ("deviceUuid"@, "UUID"@),
            ("deviceName"@, "NAME"@),
            ("deviceId"@, "DEVICE-ID"@),
            ("deviceStatus"@, "STATUS"@),
            ("lastSeen"@, "LAST-SEEN"@),
            ("hibernated"@, "HIBERNATED"@),
        ],
        Columns::Fleets => seq![
            ("id"@, "ID"@),
            ("name"@, "NAME"@),
            ("fleetType"@, "TYPE"@),
            ("expression"@, "EXPRESSION"@),
            ("createdAt"@, "CREATED-AT"@),
        ],
        Columns::FleetDevices => seq![
            ("deviceUuid"@, "UUID"@),
            ("deviceName"@, "NAME"@),
            ("deviceId"@, "DEVICE-ID"@),
            ("deviceStatus"@, "STATUS"@),
            ("lastSeen"@, "LAST-SEEN"@),
        ],
        Columns::Packages => seq![
            ("packageId"@, "ID"@),
            ("name"@, "NAME"@),
            ("version"@, "VERSION"@),
            ("pkgType"@, "TYPE"@),
            ("hardwareIds"@, "HARDWARE-IDS"@),
            ("size"@, "SIZE"@),
            ("createdAt"@, "CREATED-AT"@),
        ],
        Columns::ExternalPackages => seq![
            ("packageId"@, "ID"@),
            ("name"@, "NAME"@),
            ("version"@, "VERSION"@),
            ("packageSource"@, "SOURCE"@),
        ],
        Columns::Updates => seq![
            ("updateId"@, "UPDATE-ID"@),
            ("status"@, "STATUS"@),
            ("result"@, "RESULT"@),
            ("createdAt"@, "CREATED-AT"@),
            ("completedAt"@, "COMPLETED-AT"@),
            ("packages"@, "PACKAGES"@),
        ],
    }
}

impl Columns {
    /// The `(member, header)` pairs of the table.
    pub fn pairs(self) -> (r: Vec<(&'static str, &'static str)>)
        ensures
            col_views(r@) == columns_spec(self),
    {
        let v = match self {
            Columns::Devices => vec![
                ("deviceUuid", "UUID"),
                ("deviceName", "NAME"),
                ("deviceId", "DEVICE-ID"),
                ("deviceStatus", "STATUS"),
                ("lastSeen", "LAST-SEEN"),
                ("hibernated", "HIBERNATED"),
            ],
            Columns::Fleets => vec![
                ("id", "ID"),
                ("name", "NAME"),
                ("fleetType", "TYPE"),
                ("expression", "EXPRESSION"),
                ("createdAt", "CREATED-AT"),
            ],
            Columns::FleetDevices => vec![
                ("deviceUuid", "UUID"),
                ("deviceName", "NAME"),
                ("deviceId", "DEVICE-ID"),
                ("deviceStatus", "STATUS"),
                ("lastSeen", "LAST-SEEN"),
            ],
            Columns::Packages => vec![
                ("packageId", "ID"),
                ("name", "NAME"),
                ("version", "VERSION"),
                ("pkgType", "TYPE"),
                ("hardwareIds", "HARDWARE-IDS"),
                ("size", "SIZE"),
                ("createdAt", "CREATED-AT"),
            ],
            Columns::ExternalPackages => vec![
                ("packageId", "ID"),
                ("name", "NAME"),
                ("version", "VERSION"),
                ("packageSource", "SOURCE"),
            ],
            Columns::Updates => vec![
                ("updateId", "UPDATE-ID"),
                ("status", "STATUS"),
                ("result", "RESULT"),
                ("createdAt", "CREATED-AT"),
                ("completedAt", "COMPLETED-AT"),
                ("packages", "PACKAGES"),
            ],
        };
        assert(col_views(v@) =~= columns_spec(self));
        v
    }
}

/// How the reply to a call is presented.
pub enum Render {
    /// The reply as a JSON document.
    Json,
    /// The reply as `key: value` lines (`Object` output).
    Object,
    /// The rows of the reply as a table (the reply itself in JSON mode).
    Table(Columns),
    /// The rows of the reply one per line (the reply itself in JSON mode).
    List,
    /// A message, then the reply (only the reply in JSON mode).
    Data(String),
    /// A message (the given status document in JSON mode); the reply is ignored.
    Status(String, Json),
    /// An update history as a table of flattened records.
    UpdateHistory,
    /// The most recent update of a history, flattened.
    LatestUpdate,
}

pub enum RenderV {
    Json,
    Object,
    Table(Columns),
    List,
    Data(Seq<char>),
    Status(Seq<char>, JsonV),
    UpdateHistory,
    LatestUpdate,
}

impl View for Render {
    type V = RenderV;

    open spec fn view(&self) -> RenderV {
        match self {
            Render::Json => RenderV::Json,
            Render::Object => RenderV::Object,
            Render::Table(c) => RenderV::Table(*c),
            Render::List => RenderV::List,
            Render::Data(m) => RenderV::Data(m@),
            Render::Status(m, j) => RenderV::Status(m@, j@),
            Render::UpdateHistory => RenderV::UpdateHistory,
            Render::LatestUpdate => RenderV::LatestUpdate,
        }
    }
}

/// One API call: an optional yes/no question to ask first (a negative answer
/// aborts), the request, and how to present the reply.
pub struct Call {
    pub confirm: Option<String>,
    pub request: Request,
    pub render: Render,
}

pub struct CallV {
    pub confirm: Option<Seq<char>>,
    pub request: RequestV,
    pub render: RenderV,
}

impl View for Call {
    type V = CallV;

    open spec fn view(&self) -> CallV {
        CallV {
            confirm: match self.confirm {
                Some(q) => Some(q@),
                None => None,
            },
            request: self.request@,
            render: self.render@,
        }
    }
}

/// What a subcommand does: one call, or polling a device until its update ends.
pub enum Plan {
    Call(Call),
    Watch(updates::WatchArgs),
}

pub enum PlanV {
    Call(CallV),
    Watch { device_uuid: Seq<char>, interval: u64, timeout: u64 },
}

impl View for Plan {
    type V = PlanV;

    open spec fn view(&self) -> PlanV {
        match self {
            Plan::Call(c) => PlanV::Call(c@),
            Plan::Watch(w) => PlanV::Watch {
                device_uuid: w.device_uuid@,
                interval: w.interval,
                timeout: w.timeout,
            },
        }
    }
}

/// A call with the given request parts.
pub open spec fn call_plan(
    confirm: Option<Seq<char>>,
    method: Method,
    path: Seq<char>,
    query: Seq<(Seq<char>, Seq<char>)>,
    body: BodyV,
    render: RenderV,
) -> PlanV {
    PlanV::Call(
        CallV {
            confirm,
            request: RequestV { method, path, query, body },
            render,
        },
    )
}

/// A GET without query parameters.
pub open spec fn get_plan(path: Seq<char>, render: RenderV) -> PlanV {
    call_plan(None, Method::Get, path, Seq::empty(), BodyV::Empty, render)
}

/// Builds a call.
pub fn make_call(
    confirm: Option<String>,
    method: Method,
    path: String,
    query: Vec<(String, String)>,
    body: Body,
    render: Render,
) -> (r: Plan)
    ensures
        r@ == call_plan(
            match confirm {
                Some(q) => Some(q@),
                None => None,
            },
            method,
            path@,
            pairs_view(query@),
            body@,
            render@,
        ),
{
    Plan::Call(Call { confirm, request: Request { method, path, query, body }, render })
}

/// Builds a GET without query parameters.
pub fn get_call(path: String, render: Render) -> (r: Plan)
    ensures
        r@ == get_plan(path@, render@),
{
    let q: Vec<(String, String)> = Vec::new();
    assert(pairs_view(q@) =~= Seq::<(Seq<char>, Seq<char>)>::empty());
    make_call(None, Method::Get, path, q, Body::Empty, render)
}

/// A JSON object with one string member.
pub fn obj1(k1: &str, v1: Json) -> (r: Json)
    ensures
        r@ == JsonV::Object(seq![(k1@, v1@)]),
{
    let ghost m = seq![(k1@, v1@)];
    let v = vec![(owned(k1), v1)];
    proof {
        crate::json::lemma_fields_view_ext(v@, m);
    }
    Json::object(v)
}

/// A JSON object with two members, in this order.
pub fn obj2(k1: &str, v1: Json, k2: &str, v2: Json) -> (r: Json)
    ensures
        r@ == JsonV::Object(seq![(k1@, v1@), (k2@, v2@)]),
{
    let ghost m = seq![(k1@, v1@), (k2@, v2@)];
    let v = vec![(owned(k1), v1), (owned(k2), v2)];
    proof {
        crate::json::lemma_fields_view_ext(v@, m);
    }
    Json::object(v)
}

/// A JSON object with three members, in this order.
pub fn obj3(k1: &str, v1: Json, k2: &str, v2: Json, k3: &str, v3: Json) -> (r: Json)
    ensures
        r@ == JsonV::Object(seq![(k1@, v1@), (k2@, v2@), (k3@, v3@)]),
{
    let ghost m = seq![(k1@, v1@), (k2@, v2@), (k3@, v3@)];
    let v = vec![(owned(k1), v1), (owned(k2), v2), (owned(k3), v3)];
    proof {
        crate::json::lemma_fields_view_ext(v@, m);
    }
    Json::object(v)
}

/// `prefix` followed by `s`.
pub fn path2(prefix: &str, s: &str) -> (r: String)
    ensures
        r@ == prefix@ + s@,
{
    concat(prefix, s)
}

/// `prefix`, `s`, `suffix`.
pub fn path3(prefix: &str, s: &str, suffix: &str) -> (r: String)
    ensures
        r@ == prefix@ + s@ + suffix@,
{
    crate::text::concat3(prefix, s, suffix)
}

/// Whether an answer to a yes/no question is a yes: `y` or `yes` in any
/// letter case, ignoring surrounding whitespace.
pub open spec fn is_yes(line: Seq<char>) -> bool {
    let a = ascii_lowercase(trim(line));
    a == "y"@ || a == "yes"@
}

/// Reads an answer to a yes/no question (`[y/N]`, so anything else is no).
pub fn confirm_answer(line: &str) -> (r: bool)
    ensures
        r == is_yes(line@),
{
    let t = trim_str(line);
    let a = to_ascii_lowercase(t.as_str());
    let y = owned("y");
    let yes = owned("yes");
    a == y || a == yes
}

/// The prompt for a yes/no question.
pub fn confirm_prompt(question: &str) -> (r: String)
    ensures
        r@ == question@ + " [y/N] "@,
{
    concat(question, " [y/N] ")
}

/// An output stream of the terminal.
#[derive(Debug, Clone, Copy, PartialEq, Eq, Structural)]
pub enum Stream {
    Stdout,
    Stderr,
}

/// Where the question of a confirmation is written: standard output in human
/// mode; standard error in JSON mode, so that standard output holds JSON only.
pub open spec fn question_stream(format: Format) -> Stream {
    if format == Format::Json {
        Stream::Stderr
    } else {
        Stream::Stdout
    }
}

/// The stream for the question of a confirmation (see `question_stream`).
pub fn prompt_stream(format: Format) -> (r: Stream)
    ensures
        r == question_stream(format),
{
    match format {
        Format::Json => Stream::Stderr,
        Format::Human => Stream::Stdout,
    }
}

/// What is printed when a confirmation is declined and nothing is sent: the
/// status document `{"status": "aborted"}` in JSON mode, `Aborted.` otherwise.
pub open spec fn aborted_output(format: Format) -> Seq<OutV> {
    if format == Format::Json {
        seq![OutV::Pretty(JsonV::Object(seq![("status"@, JsonV::Str("aborted"@))]))]
    } else {
        seq![OutV::Line("Aborted."@)]
    }
}

/// The output of a declined confirmation (see `aborted_output`).
pub fn aborted(format: Format) -> (r: Vec<Out>)
    ensures
        outs(r@) == aborted_output(format),
{
    let v = match format {
        Format::Json => vec![Out::Pretty(obj1("status", Json::string("aborted")))],
        Format::Human => vec![Out::Line(owned("Aborted."))],
    };
    assert(outs(v@) =~= aborted_output(format));
    v
}

/// What is printed for the reply `resp` to a call.
pub open spec fn rendered(format: Format, render: RenderV, resp: JsonV) -> Seq<OutV> {
    match render {
        RenderV::Json => seq![OutV::Pretty(resp)],
        RenderV::Object => object_output(format, resp),
        RenderV::Table(c) => if format == Format::Json {
            seq![OutV::Pretty(resp)]
        } else {
            lines_out(table_lines(paginated(resp), columns_spec(c)))
        },
        RenderV::List => list_output(format, resp),
        RenderV::Data(m) => data_output(format, m, resp),
        RenderV::Status(m, st) => status_output(format, m, st),
        RenderV::UpdateHistory => if format == Format::Json {
            seq![OutV::Pretty(resp)]
        } else {
            lines_out(
                table_lines(
                    paginated(resp).map_values(|u: JsonV| flattened(u)),
                    columns_spec(Columns::Updates),
                ),
            )
        },
        RenderV::LatestUpdate => match latest(paginated(resp)) {
            Some(u) => object_output(format, flattened(u)),
            None => if format == Format::Json {
                seq![OutV::Pretty(JsonV::Null)]
            } else {
                seq![OutV::Line("(no updates for this device)"@)]
            },
        },
    }
}

/// In JSON mode standard output gets exactly one JSON document and no
/// message, so it stays machine-readable: every reply is printed as one
/// document (the status of a device without any update is `null`), a
/// declined confirmation prints one status document, and the question of a
/// confirmation goes to standard error.
pub proof fn law_json_mode_prints_one_document(render: RenderV, resp: JsonV)
    ensures
        rendered(Format::Json, render, resp).len() == 1,
        rendered(Format::Json, render, resp)[0] is Pretty,
        aborted_output(Format::Json).len() == 1,
        aborted_output(Format::Json)[0] is Pretty,
        question_stream(Format::Json) == Stream::Stderr,
{
    match render {
        RenderV::LatestUpdate => match latest(paginated(resp)) {
            Some(u) => assert(rendered(Format::Json, render, resp) == seq![OutV::Pretty(flattened(u))]),
            None => assert(rendered(Format::Json, render, resp) == seq![OutV::Pretty(JsonV::Null)]),
        },
        _ => {},
    }
}

fn lines_to_out(v: Vec<String>) -> (r: Vec<Out>)
    ensures
        outs(r@) == lines_out(string_views(v@)),
{
    let mut out: Vec<Out> = Vec::new();
    let mut i: usize = 0;
    while i < v.len()
        invariant
            i <= v@.len(),
            outs(out@) =~= lines_out(string_views(v@)).take(i as int),
        decreases v.len() - i,
    {
        let o = Out::Line(v[i].clone());
        let ghost prev = out@;
        out.push(o);
        proof {
            assert(out@ == prev.push(o));
            assert(outs(out@) =~= outs(prev).push(o@));
            assert(lines_out(string_views(v@)).take(i + 1) =~= lines_out(string_views(v@)).take(
                i as int,
            ).push(OutV::Line(v@[i as int]@)));
        }
        i = i + 1;
    }
    assert(lines_out(string_views(v@)).take(v@.len() as int) =~= lines_out(string_views(v@)));
    out
}

/// What to print for the reply `resp` to a call.
pub fn render(format: Format, how: &Render, resp: &Json) -> (r: Vec<Out>)
    ensures
        outs(r@) == rendered(format, how@, resp@),
{
    match how {
        Render::Json => {
            let v = vec![Out::Pretty(resp.copy())];
            assert(outs(v@) =~= rendered(format, how@, resp@));
            v
        },
        Render::Object => render_object(format, resp),
        Render::Table(c) => {
            if format == Format::Json {
                let v = vec![Out::Pretty(resp.copy())];
                assert(outs(v@) =~= rendered(format, how@, resp@));
                v
            } else {
                let rows = paginated_values(resp);
                let cols = c.pairs();
                let lines = render_table(rows.as_slice(), cols.as_slice());
                lines_to_out(lines)
            }
        },
        Render::List => render_list(format, resp),
        Render::Data(m) => report_data(format, m.as_str(), resp),
        Render::Status(m, st) => report_status(format, m.as_str(), st),
        Render::UpdateHistory => {
            if format == Format::Json {
                let v = vec![Out::Pretty(resp.copy())];
                assert(outs(v@) =~= rendered(format, how@, resp@));
                v
            } else {
                let vals = paginated_values(resp);
                let ghost p = paginated(resp@);
                proof {
                    lemma_items_view(vals@);
                }
                let mut rows: Vec<Json> = Vec::new();
                let mut i: usize = 0;
                while i < vals.len()
                    invariant
                        i <= vals@.len() == p.len(),
                        p == items_view(vals@),
                        forall|j: int| 0 <= j < vals@.len() ==> #[trigger] p[j] == json_view(vals@[j]),
                        rows@.len() == i,
                        forall|j: int| 0 <= j < i ==> json_view(#[trigger] rows@[j]) == flattened(p[j]),
                    decreases vals.len() - i,
                {
                    rows.push(flatten_update(&vals[i]));
                    i = i + 1;
                }
                proof {
                    lemma_items_view_ext(rows@, p.map_values(|u: JsonV| flattened(u)));
                }
                let cols = Columns::Updates.pairs();
                let lines = render_table(rows.as_slice(), cols.as_slice());
                lines_to_out(lines)
            }
        },
        Render::LatestUpdate => {
            match latest_update(resp) {
                Some(u) => {
                    let f = flatten_update(&u);
                    render_object(format, &f)
                },
                None => {
                    let v = if format == Format::Json {
                        vec![Out::Pretty(Json::Null)]
                    } else {
                        vec![Out::Line(owned("(no updates for this device)"))]
                    };
                    assert(outs(v@) =~= rendered(format, how@, resp@));
                    v
                },
            }
        },
    }
}

/// A query parameter when the value is given.
pub open spec fn opt_pair(k: Seq<char>, v: Option<Seq<char>>) -> Seq<(Seq<char>, Seq<char>)> {
    match v {
        Some(x) => seq![(k, x)],
        None => Seq::empty(),
    }
}

/// The same key with each of the values, in order.
pub open spec fn repeated(k: Seq<char>, vs: Seq<String>) -> Seq<(Seq<char>, Seq<char>)> {
    vs.map_values(|v: String| (k, v@))
}

/// Adds a query parameter.
pub fn push_pair(q: &mut Vec<(String, String)>, k: &str, v: String)
    ensures
        pairs_view(final(q)@) == pairs_view(old(q)@).push((k@, v@)),
{
    let ghost kv = (k@, v@);
    q.push((owned(k), v));
    assert(pairs_view(q@) =~= pairs_view(old(q)@).push(kv));
}

/// Adds the key with each of the values.
pub fn push_repeated(q: &mut Vec<(String, String)>, k: &str, vs: &Vec<String>)
    ensures
        pairs_view(final(q)@) == pairs_view(old(q)@) + repeated(k@, vs@),
{
    let mut i: usize = 0;
    let ghost start = pairs_view(q@);
    while i < vs.len()
        invariant
            i <= vs@.len(),
            start == pairs_view(old(q)@),
            pairs_view(q@) == start + repeated(k@, vs@.take(i as int)),
        decreases vs.len() - i,
    {
        push_pair(q, k, vs[i].clone());
        assert(repeated(k@, vs@.take(i + 1)) =~= repeated(k@, vs@.take(i as int)).push((k@, vs@[i as int]@)));
        i = i + 1;
    }
    assert(vs@.take(vs@.len() as int) =~= vs@);
}

/// `true` or `false`.
pub open spec fn bool_text(b: bool) -> Seq<char> {
    if b {
        "true"@
    } else {
        "false"@
    }
}

/// Renders a boolean (`bool::to_string`).
pub fn bool_string(b: bool) -> (r: String)
    ensures
        r@ == bool_text(b),
{
    if b {
        owned("true")
    } else {
        owned("false")
    }
}

pub open spec fn opt_decimal(v: Option<u32>) -> Option<Seq<char>> {
    match v {
        Some(n) => Some(crate::text::decimal(n as nat)),
        None => None,
    }
}

pub open spec fn opt_text(v: Option<String>) -> Option<Seq<char>> {
    match v {
        Some(s) => Some(s@),
        None => None,
    }
}

/// Query parameters for `limit` and `offset` when given.
pub fn push_paging(q: &mut Vec<(String, String)>, limit: Option<u32>, offset: Option<u32>)
    ensures
        pairs_view(final(q)@) == pairs_view(old(q)@) + opt_pair("limit"@, opt_decimal(limit)) + opt_pair(
            "offset"@,
            opt_decimal(offset),
        ),
{
    let ghost start = pairs_view(q@);
    if let Some(v) = limit {
        push_pair(q, "limit", crate::text::decimal_u32(v));
    }
    assert(pairs_view(q@) =~= start + opt_pair("limit"@, opt_decimal(limit)));
    let ghost mid = pairs_view(q@);
    if let Some(v) = offset {
        push_pair(q, "offset", crate::text::decimal_u32(v));
    }
    assert(pairs_view(q@) =~= mid + opt_pair("offset"@, opt_decimal(offset)));
}

/// Adds a query parameter when the value is given.
pub fn push_opt(q: &mut Vec<(String, String)>, k: &str, v: Option<String>)
    ensures
        pairs_view(final(q)@) == pairs_view(old(q)@) + opt_pair(k@, opt_text(v)),
{
    let ghost start = pairs_view(q@);
    if let Some(x) = v {
        push_pair(q, k, x);
    }
    assert(pairs_view(q@) =~= start + opt_pair(k@, opt_text(v)));
}

/// Appends a member (the keys used are distinct, so appending is inserting).
pub fn push_field(fields: &mut Vec<(String, Json)>, k: &str, v: Json)
    ensures
        fields_view(final(fields)@) == fields_view(old(fields)@).push((k@, v@)),
{
    let ghost m = fields_view(fields@).push((k@, v@));
    proof {
        lemma_fields_view(fields@);
    }
    fields.push((owned(k), v));
    proof {
        crate::json::lemma_fields_view_ext(fields@, m);
    }
}

/// A query without parameters.
pub fn no_query() -> (r: Vec<(String, String)>)
    ensures
        pairs_view(r@) == Seq::<(Seq<char>, Seq<char>)>::empty(),
{
    let q: Vec<(String, String)> = Vec::new();
    assert(pairs_view(q@) =~= Seq::<(Seq<char>, Seq<char>)>::empty());
    q
}

} // verus!
