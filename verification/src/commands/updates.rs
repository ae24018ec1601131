//! `torizon updates`: launch, cancel, list, and watch updates.

use vstd::prelude::*;

use super::{
    call_plan, get_call, get_plan, make_call, obj2, path2, BodyV, CliError, Plan, PlanV, Render,
    RenderV,
};
use crate::client::Method;
use crate::json::{
    fields_view, jbool, jget, json_view, jstr, lemma_fields_view, lookup, lemma_fields_view_ext, lemma_items_view,
    Json, JsonV,
};
use crate::text::{chars_of, concat, concat3, decimal, decimal_u64, join, owned, spaces, trim, trim_str};

verus! {

/// `torizon updates` subcommands.
pub enum UpdatesCmd {
    /// Launch an update to one or more devices or fleets.
    Launch(LaunchArgs),
    /// Cancel a pending update.
    Cancel { update_id: String },
    /// List the update history for a device.
    List { device_uuid: String },
    /// Show the most recent update for a device.
    Status { device_uuid: String },
    /// Poll a device until its current update finishes (or times out).
    Watch(WatchArgs),
}

pub struct LaunchArgs {
    /// Package IDs to deploy (at least one).
    pub packages: Vec<String>,
    /// Target device UUIDs.
    pub devices: Vec<String>,
    /// Target fleet IDs.
    pub fleets: Vec<String>,
}

pub struct WatchArgs {
    pub device_uuid: String,
    /// Seconds between polls.
    pub interval: u64,
    /// Give up after this many seconds.
    pub timeout: u64,
}

/// A present member, or `null`.
pub open spec fn or_null(v: Option<JsonV>) -> JsonV {
    match v {
        Some(x) => x,
        None => JsonV::Null,
    }
}

/// The outcome of an update record: `OK <code>` or `FAIL <code>` from its
/// `deviceResult` object, trimmed; empty when there is no such object.
pub open spec fn result_text(u: JsonV) -> Seq<char> {
    match jget(u, "deviceResult"@) {
        Some(JsonV::Object(fs)) => {
            let d = JsonV::Object(fs);
            let code = match jstr(jget(d, "resultCode"@)) {
                Some(c) => c,
                None => Seq::empty(),
            };
            let ok = jbool(jget(d, "success"@)) == Some(true);
            trim(
                (if ok {
                    "OK"@
                } else {
                    "FAIL"@
                }) + " "@ + code,
            )
        },
        _ => Seq::empty(),
    }
}

/// The string values among the members, in order.
pub open spec fn string_members(fs: Seq<(Seq<char>, JsonV)>) -> Seq<Seq<char>>
    decreases fs.len(),
{
    if fs.len() == 0 {
        Seq::empty()
    } else {
        let rest = string_members(fs.drop_last());
        match fs.last().1 {
            JsonV::Str(s) => rest.push(s),
            _ => rest,
        }
    }
}

/// The packages of an update record (the string values of its `packages`
/// object), joined with `, `.
pub open spec fn packages_text(u: JsonV) -> Seq<char> {
    match jget(u, "packages"@) {
        Some(JsonV::Object(fs)) => join(string_members(fs), ", "@),
        _ => Seq::empty(),
    }
}

/// An update record with its nested `deviceResult` and `packages` turned into
/// scalar members (members in key order).
pub open spec fn flattened(u: JsonV) -> JsonV {
    JsonV::Object(
        seq![
            ("completedAt"@, or_null(jget(u, "completedAt"@))),
            ("createdAt"@, or_null(jget(u, "createdAt"@))),
            ("packages"@, JsonV::Str(packages_text(u))),
            ("result"@, JsonV::Str(result_text(u))),
            ("status"@, or_null(jget(u, "status"@))),
            ("updateId"@, or_null(jget(u, "updateId"@))),
        ],
    )
}

fn member_or_null(u: &Json, key: &str) -> (r: Json)
    ensures
        r@ == or_null(jget(u@, key@)),
{
    match u.get(key) {
        Some(x) => x.copy(),
        None => Json::Null,
    }
}

fn result_of(u: &Json) -> (r: String)
    ensures
        r@ == result_text(u@),
{
    match u.get("deviceResult") {
        Some(d) => match d {
            Json::Object(_) => {
                let code: String = match d.get("resultCode") {
                    Some(c) => match c.as_str() {
                        Some(s) => s.clone(),
                        None => String::new(),
                    },
                    None => String::new(),
                };
                let ok = match d.get("success") {
                    Some(b) => match b.as_bool() {
                        Some(x) => x,
                        None => false,
                    },
                    None => false,
                };
                let mut s = if ok {
                    owned("OK")
                } else {
                    owned("FAIL")
                };
                s.append(" ");
                s.append(code.as_str());
                trim_str(s.as_str())
            },
            _ => String::new(),
        },
        None => String::new(),
    }
}

fn packages_of(u: &Json) -> (r: String)
    ensures
        r@ == packages_text(u@),
{
    match u.get("packages") {
        Some(Json::Object(fs)) => {
            let ghost m = fields_view(fs@);
            proof {
                lemma_fields_view(fs@);
                assert(m.take(0) =~= Seq::<(Seq<char>, JsonV)>::empty());
            }
            let mut r = String::new();
            let mut n: usize = 0;
            let mut i: usize = 0;
            while i < fs.len()
                invariant
                    i <= fs@.len() == m.len(),
                    m == fields_view(fs@),
                    forall|j: int| 0 <= j < fs@.len() ==> #[trigger] m[j] == (fs@[j].0@, json_view(fs@[j].1)),
                    n == string_members(m.take(i as int)).len(),
                    n <= i,
                    r@ == join(string_members(m.take(i as int)), ", "@),
                decreases fs.len() - i,
            {
                proof {
                    assert(m.take(i + 1).drop_last() =~= m.take(i as int));
                    assert(m.take(i + 1).last() == m[i as int]);
                }
                match &fs[i].1 {
                    Json::Str(s) => {
                        proof {
                            let p = string_members(m.take(i + 1));
                            assert(p == string_members(m.take(i as int)).push(s@));
                            assert(p.drop_last() =~= string_members(m.take(i as int)));
                        }
                        if n > 0 {
                            r.append(", ");
                        }
                        r.append(s.as_str());
                        n = n + 1;
                    },
                    _ => {},
                }
                i = i + 1;
            }
            assert(m.take(fs@.len() as int) =~= m);
            r
        },
        _ => String::new(),
    }
}

/// Flattens an update record for tables and `key: value` display.
pub fn flatten_update(u: &Json) -> (r: Json)
    ensures
        r@ == flattened(u@),
{
    let result = result_of(u);
    let packages = packages_of(u);
    let fields = vec![
        (owned("completedAt"), member_or_null(u, "completedAt")),
        (owned("createdAt"), member_or_null(u, "createdAt")),
        (owned("packages"), Json::Str(packages)),
        (owned("result"), Json::Str(result)),
        (owned("status"), member_or_null(u, "status")),
        (owned("updateId"), member_or_null(u, "updateId")),
    ];
    proof {
        match flattened(u@) {
            JsonV::Object(t) => lemma_fields_view_ext(fields@, t),
            _ => {},
        }
    }
    Json::object(fields)
}

/// The record members that are copied into the flattened record: each is
/// the same-named member of the input, or `null` when the input lacks it.
pub proof fn law_flatten_copies_members(u: JsonV, k: Seq<char>)
    requires
        k == "updateId"@ || k == "status"@ || k == "createdAt"@ || k == "completedAt"@,
    ensures
        jget(flattened(u), k) == Some(
            match jget(u, k) {
                Some(x) => x,
                None => JsonV::Null,
            },
        ),
{
    reveal_strlit("updateId");
    reveal_strlit("status");
    reveal_strlit("createdAt");
    reveal_strlit("completedAt");
    reveal_strlit("packages");
    reveal_strlit("result");
    let v = match jget(u, k) {
        Some(x) => x,
        None => JsonV::Null,
    };
    let m = seq![
        ("completedAt"@, or_null(jget(u, "completedAt"@))),
        ("createdAt"@, or_null(jget(u, "createdAt"@))),
        ("packages"@, JsonV::Str(packages_text(u))),
        ("result"@, JsonV::Str(result_text(u))),
        ("status"@, or_null(jget(u, "status"@))),
        ("updateId"@, or_null(jget(u, "updateId"@))),
    ];
    assert(flattened(u) == JsonV::Object(m));
    assert("completedAt"@[1] != "createdAt"@[1]);
    assert("completedAt"@[0] != "packages"@[0] && "createdAt"@[0] != "packages"@[0]);
    assert("completedAt"@[0] != "result"@[0] && "createdAt"@[0] != "result"@[0]);
    assert("packages"@[0] != "status"@[0] && "result"@[0] != "status"@[0]);
    assert("completedAt"@[0] != "status"@[0] && "createdAt"@[0] != "status"@[0]);
    assert("completedAt"@[0] != "updateId"@[0] && "createdAt"@[0] != "updateId"@[0]);
    assert("packages"@[0] != "updateId"@[0] && "result"@[0] != "updateId"@[0]);
    assert("status"@[0] != "updateId"@[0]);
    let i: int = if k == "completedAt"@ {
        0
    } else if k == "createdAt"@ {
        1
    } else if k == "status"@ {
        4
    } else {
        5
    };
    assert(m[i] == (k, v));
    assert forall|j: int| 0 <= j < i implies m[j].0 != k by {}
    crate::json::lemma_lookup_first(m, k, v, i);
}

/// The `result` member of a flattened record reports the device result: it
/// starts with `OK` when the result says `success: true`, with `FAIL` when it
/// is an object that does not, and is empty without a result object.
pub proof fn law_flatten_result(u: JsonV)
    ensures
        ({
            let r = jget(flattened(u), "result"@);
            &&& (jget(u, "deviceResult"@) matches Some(JsonV::Object(fs)) && lookup(fs, "success"@) == Some(
                JsonV::Bool(true),
            )) ==> (r matches Some(JsonV::Str(t)) && t.len() >= 2 && t.take(2) == "OK"@)
            &&& (jget(u, "deviceResult"@) matches Some(JsonV::Object(fs)) && lookup(fs, "success"@) != Some(
                JsonV::Bool(true),
            )) ==> (r matches Some(JsonV::Str(t)) && t.len() >= 4 && t.take(4) == "FAIL"@)
            &&& !(jget(u, "deviceResult"@) matches Some(JsonV::Object(_))) ==> r == Some(JsonV::Str(Seq::<char>::empty()))
        }),
{
    reveal_strlit("updateId");
    reveal_strlit("status");
    reveal_strlit("createdAt");
    reveal_strlit("completedAt");
    reveal_strlit("packages");
    reveal_strlit("result");
    reveal_strlit("OK");
    reveal_strlit("FAIL");
    reveal_strlit(" ");
    let m = seq![
        ("completedAt"@, or_null(jget(u, "completedAt"@))),
        ("createdAt"@, or_null(jget(u, "createdAt"@))),
        ("packages"@, JsonV::Str(packages_text(u))),
        ("result"@, JsonV::Str(result_text(u))),
        ("status"@, or_null(jget(u, "status"@))),
        ("updateId"@, or_null(jget(u, "updateId"@))),
    ];
    assert(flattened(u) == JsonV::Object(m));
    assert("completedAt"@[0] != "result"@[0] && "createdAt"@[0] != "result"@[0] && "packages"@[0] != "result"@[0]);
    assert forall|j: int| 0 <= j < 3 implies m[j].0 != "result"@ by {}
    crate::json::lemma_lookup_first(m, "result"@, JsonV::Str(result_text(u)), 3);
    if let Some(JsonV::Object(fs)) = jget(u, "deviceResult"@) {
        let d = JsonV::Object(fs);
        let code = match jstr(jget(d, "resultCode"@)) {
            Some(c) => c,
            None => Seq::empty(),
        };
        let ok = jbool(jget(d, "success"@)) == Some(true);
        assert(ok == (lookup(fs, "success"@) == Some(JsonV::Bool(true))));
        let w: Seq<char> = if ok {
            "OK"@
        } else {
            "FAIL"@
        };
        let s0 = w + " "@ + code;
        assert(s0[0] == w[0]);
        assert(s0[w.len() - 1] == w[w.len() - 1]);
        crate::text::lemma_trim_keeps_prefix(s0, w.len() - 1);
        assert(result_text(u) == trim(s0));
        assert forall|j: int| 0 <= j < w.len() implies trim(s0).take(w.len() as int)[j] == w[j] by {
            assert(s0[j] == w[j]);
        }
        assert(trim(s0).take(w.len() as int) =~= w);
    }
}

/// Lexicographic order of character sequences (the order of `str`).
pub open spec fn seq_le(a: Seq<char>, b: Seq<char>) -> bool
    decreases a.len(),
{
    if a.len() == 0 {
        true
    } else if b.len() == 0 {
        false
    } else if a[0] != b[0] {
        a[0] < b[0]
    } else {
        seq_le(a.drop_first(), b.drop_first())
    }
}

/// The order of `Option<&str>`: a missing value first.
pub open spec fn key_le(a: Option<Seq<char>>, b: Option<Seq<char>>) -> bool {
    match (a, b) {
        (None, _) => true,
        (Some(_), None) => false,
        (Some(x), Some(y)) => seq_le(x, y),
    }
}

/// The `createdAt` text of a record, if it has one.
pub open spec fn created_key(v: JsonV) -> Option<Seq<char>> {
    jstr(jget(v, "createdAt"@))
}

/// Whether `vals[i]` is the most recent record: no record has a later
/// `createdAt`, and every record after it has an earlier one (the last element
/// after a stable sort by `createdAt`).
pub open spec fn is_latest(vals: Seq<JsonV>, i: int) -> bool {
    &&& 0 <= i < vals.len()
    &&& forall|j: int| 0 <= j < vals.len() ==> key_le(created_key(#[trigger] vals[j]), created_key(vals[i]))
    &&& forall|j: int| i < j < vals.len() ==> !key_le(created_key(vals[i]), created_key(#[trigger] vals[j]))
}

/// The most recent record, if any.
pub open spec fn latest(vals: Seq<JsonV>) -> Option<JsonV> {
    if exists|i: int| is_latest(vals, i) {
        Some(vals[choose|i: int| is_latest(vals, i)])
    } else {
        None
    }
}

proof fn lemma_seq_le_total(a: Seq<char>, b: Seq<char>)
    ensures
        seq_le(a, b) || seq_le(b, a),
        seq_le(a, b) && seq_le(b, a) ==> a == b,
    decreases a.len(),
{
    if a.len() > 0 && b.len() > 0 && a[0] == b[0] {
        lemma_seq_le_total(a.drop_first(), b.drop_first());
        if seq_le(a, b) && seq_le(b, a) {
            assert(a =~= seq![a[0]] + a.drop_first());
            assert(b =~= seq![b[0]] + b.drop_first());
        }
    } else if a.len() == 0 && b.len() == 0 {
        assert(a =~= b);
    }
}

proof fn lemma_seq_le_trans(a: Seq<char>, b: Seq<char>, c: Seq<char>)
    requires
        seq_le(a, b),
        seq_le(b, c),
    ensures
        seq_le(a, c),
    decreases a.len(),
{
    if a.len() > 0 && b.len() > 0 && c.len() > 0 && a[0] == b[0] && b[0] == c[0] {
        lemma_seq_le_trans(a.drop_first(), b.drop_first(), c.drop_first());
    }
}

proof fn lemma_key_le_total(a: Option<Seq<char>>, b: Option<Seq<char>>)
    ensures
        key_le(a, b) || key_le(b, a),
{
    match (a, b) {
        (Some(x), Some(y)) => lemma_seq_le_total(x, y),
        _ => {},
    }
}

proof fn lemma_key_le_trans(a: Option<Seq<char>>, b: Option<Seq<char>>, c: Option<Seq<char>>)
    requires
        key_le(a, b),
        key_le(b, c),
    ensures
        key_le(a, c),
{
    match (a, b, c) {
        (Some(x), Some(y), Some(z)) => lemma_seq_le_trans(x, y, z),
        _ => {},
    }
}

/// Exactly one record is the most recent one of a non-empty history.
pub proof fn law_latest_is_unique(vals: Seq<JsonV>, i: int, k: int)
    requires
        is_latest(vals, i),
        is_latest(vals, k),
    ensures
        i == k,
{
    if i < k {
        assert(key_le(created_key(vals[i]), created_key(vals[k])));
        assert(!key_le(created_key(vals[i]), created_key(vals[k])));
    } else if k < i {
        assert(key_le(created_key(vals[k]), created_key(vals[i])));
        assert(!key_le(created_key(vals[k]), created_key(vals[i])));
    }
}

/// Compares two strings in the order of `str`.
fn text_le(a: &str, b: &str) -> (r: bool)
    ensures
        r == seq_le(a@, b@),
{
    let x = chars_of(a);
    let y = chars_of(b);
    let mut i: usize = 0;
    assert(a@.skip(0) =~= a@);
    assert(b@.skip(0) =~= b@);
    while i < x.len() && i < y.len() && x[i] == y[i]
        invariant
            i <= x@.len(),
            i <= y@.len(),
            x@ == a@,
            y@ == b@,
            seq_le(a@, b@) == seq_le(a@.skip(i as int), b@.skip(i as int)),
        decreases x.len() - i,
    {
        proof {
            assert(a@.skip(i as int).drop_first() =~= a@.skip(i + 1));
            assert(b@.skip(i as int).drop_first() =~= b@.skip(i + 1));
        }
        i = i + 1;
    }
    if i == x.len() {
        true
    } else if i == y.len() {
        false
    } else {
        assert(a@.skip(i as int)[0] == x@[i as int]);
        assert(b@.skip(i as int)[0] == y@[i as int]);
        x[i] < y[i]
    }
}

fn created_of(v: &Json) -> (r: Option<&String>)
    ensures
        match r {
            Some(s) => created_key(v@) == Some(s@),
            None => created_key(v@) is None,
        },
{
    match v.get("createdAt") {
        Some(c) => c.as_str(),
        None => None,
    }
}

fn key_le_exec(a: Option<&String>, b: Option<&String>) -> (r: bool)
    ensures
        r == key_le(
            match a {
                Some(s) => Some(s@),
                None => None,
            },
            match b {
                Some(s) => Some(s@),
                None => None,
            },
        ),
{
    match (a, b) {
        (None, _) => true,
        (Some(_), None) => false,
        (Some(x), Some(y)) => text_le(x.as_str(), y.as_str()),
    }
}

/// The most recent update record of a history response.
pub fn latest_update(resp: &Json) -> (r: Option<Json>)
    ensures
        match r {
            Some(u) => latest(crate::output::paginated(resp@)) == Some(u@),
            None => latest(crate::output::paginated(resp@)) is None,
        },
        r is Some <==> crate::output::paginated(resp@).len() > 0,
{
    let vals = crate::output::paginated_values(resp);
    let ghost p = crate::output::paginated(resp@);
    proof {
        lemma_items_view(vals@);
    }
    if vals.len() == 0 {
        assert(!exists|i: int| is_latest(p, i));
        return None;
    }
    let mut best: usize = 0;
    let mut i: usize = 1;
    proof {
        lemma_key_le_total(created_key(p[0]), created_key(p[0]));
    }
    while i < vals.len()
        invariant
            1 <= i <= vals@.len() == p.len(),
            best < i,
            p == crate::json::items_view(vals@),
            forall|j: int| 0 <= j < vals@.len() ==> #[trigger] p[j] == json_view(vals@[j]),
            forall|j: int| 0 <= j < i ==> key_le(created_key(#[trigger] p[j]), created_key(p[best as int])),
            forall|j: int| best < j < i ==> !key_le(created_key(p[best as int]), created_key(#[trigger] p[j])),
        decreases vals.len() - i,
    {
        let kb = created_of(&vals[best]);
        let ki = created_of(&vals[i]);
        if key_le_exec(kb, ki) {
            proof {
                assert forall|j: int| 0 <= j < i + 1 implies key_le(created_key(#[trigger] p[j]), created_key(p[i as int])) by {
                    if j < i {
                        lemma_key_le_trans(created_key(p[j]), created_key(p[best as int]), created_key(p[i as int]));
                    } else {
                        lemma_key_le_total(created_key(p[j]), created_key(p[j]));
                    }
                }
            }
            best = i;
        } else {
            proof {
                lemma_key_le_total(created_key(p[best as int]), created_key(p[i as int]));
            }
        }
        i = i + 1;
    }
    proof {
        assert(is_latest(p, best as int));
        let c = choose|k: int| is_latest(p, k);
        law_latest_is_unique(p, best as int, c);
    }
    Some(vals[best].copy())
}

/// The device status shown while watching (`?` when unknown).
pub open spec fn device_status(dev: JsonV) -> Seq<char> {
    match jstr(jget(dev, "deviceStatus"@)) {
        Some(s) => s,
        None => "?"@,
    }
}

/// When the device was last seen (`?` when unknown).
pub open spec fn last_seen(dev: JsonV) -> Seq<char> {
    match jstr(jget(dev, "lastSeen"@)) {
        Some(s) => s,
        None => "?"@,
    }
}

/// The status of the latest update (`(none)` without one, `?` when unknown).
pub open spec fn update_status(latest: Option<JsonV>) -> Seq<char> {
    match latest {
        Some(u) => match jstr(jget(u, "status"@)) {
            Some(s) => s,
            None => "?"@,
        },
        None => "(none)"@,
    }
}

/// The outcome text of the latest update (empty without one).
pub open spec fn latest_result(latest: Option<JsonV>) -> Seq<char> {
    match latest {
        Some(u) => result_text(u),
        None => Seq::empty(),
    }
}

/// Whether the latest update has a (non-null) device result.
pub open spec fn has_result(latest: Option<JsonV>) -> bool {
    match latest {
        Some(u) => match jget(u, "deviceResult"@) {
            Some(x) => !(x is Null),
            None => false,
        },
        None => false,
    }
}

/// Whether the latest update's device result reports success.
pub open spec fn succeeded(latest: Option<JsonV>) -> bool {
    match latest {
        Some(u) => match jget(u, "deviceResult"@) {
            Some(d) => jbool(jget(d, "success"@)) == Some(true),
            None => false,
        },
        None => false,
    }
}

/// `s` right-aligned in a field of `w` characters.
pub open spec fn right_aligned(s: Seq<char>, w: nat) -> Seq<char> {
    spaces(
        if w > s.len() {
            (w - s.len()) as nat
        } else {
            0
        },
    ) + s
}

/// The progress line of one poll.
pub open spec fn watch_line(dev: JsonV, latest: Option<JsonV>, shown_secs: u64) -> Seq<char> {
    "["@ + right_aligned(decimal(shown_secs as nat), 4) + "s] device="@ + device_status(dev)
        + " update="@ + update_status(latest) + " result="@ + latest_result(latest)
        + " lastSeen="@ + last_seen(dev)
}

/// Whether to stop watching, and how.
pub enum Verdict {
    /// Finished successfully, with this message.
    Done(String),
    /// Finished unsuccessfully, with this error.
    Failed(String),
    /// Poll again after the interval.
    Wait,
}

pub enum VerdictV {
    Done(Seq<char>),
    Failed(Seq<char>),
    Wait,
}

impl View for Verdict {
    type V = VerdictV;

    open spec fn view(&self) -> VerdictV {
        match self {
            Verdict::Done(m) => VerdictV::Done(m@),
            Verdict::Failed(m) => VerdictV::Failed(m@),
            Verdict::Wait => VerdictV::Wait,
        }
    }
}

/// The decision after one poll: done when the device is up to date or the
/// update has a successful result; failed when the result is a failure or the
/// time is up; otherwise poll again.
pub open spec fn watch_verdict(dev: JsonV, latest: Option<JsonV>, elapsed_secs: u64, timeout: u64) -> VerdictV {
    if device_status(dev) == "UpToDate"@ {
        VerdictV::Done("Done: device is UpToDate."@)
    } else if has_result(latest) {
        if succeeded(latest) {
            VerdictV::Done("Done: update succeeded ("@ + latest_result(latest) + ")."@)
        } else {
            VerdictV::Failed("update failed: "@ + latest_result(latest))
        }
    } else if elapsed_secs >= timeout {
        VerdictV::Failed(
            "timed out after "@ + decimal(timeout as nat) + "s; last device status: "@
                + device_status(dev),
        )
    } else {
        VerdictV::Wait
    }
}

/// Watching never goes on once the time is up.
pub proof fn law_watch_stops_at_timeout(dev: JsonV, latest: Option<JsonV>, elapsed_secs: u64, timeout: u64)
    requires
        elapsed_secs >= timeout,
    ensures
        watch_verdict(dev, latest, elapsed_secs, timeout) != VerdictV::Wait,
{
}

/// While the device is not up to date and the time is not up, an update
/// without a device result (no `deviceResult`, or `deviceResult: null`, as a
/// pending update reports it) keeps the watch polling.
pub proof fn law_pending_update_keeps_waiting(
    dev: JsonV,
    latest: Option<JsonV>,
    elapsed_secs: u64,
    timeout: u64,
)
    requires
        jstr(jget(dev, "deviceStatus"@)) != Some("UpToDate"@),
        latest matches Some(u) ==> (jget(u, "deviceResult"@) is None || jget(u, "deviceResult"@)
            == Some(JsonV::Null)),
        elapsed_secs < timeout,
    ensures
        watch_verdict(dev, latest, elapsed_secs, timeout) == VerdictV::Wait,
{
    lemma_not_up_to_date(dev);
    assert(!has_result(latest));
}

proof fn lemma_not_up_to_date(dev: JsonV)
    requires
        jstr(jget(dev, "deviceStatus"@)) != Some("UpToDate"@),
    ensures
        device_status(dev) != "UpToDate"@,
{
    reveal_strlit("?");
    reveal_strlit("UpToDate");
    if jstr(jget(dev, "deviceStatus"@)) is None {
        assert("?"@.len() != "UpToDate"@.len());
    }
}

/// A device that reports `UpToDate` ends the watch as done, whatever the
/// update and the time.
pub proof fn law_up_to_date_is_done(dev: JsonV, latest: Option<JsonV>, elapsed_secs: u64, timeout: u64)
    requires
        jstr(jget(dev, "deviceStatus"@)) == Some("UpToDate"@),
    ensures
        watch_verdict(dev, latest, elapsed_secs, timeout) is Done,
{
}

/// Otherwise a (non-null) device result settles the watch, whatever the
/// time: done when it reports `success: true`, failed in every other case.
pub proof fn law_device_result_settles(dev: JsonV, u: JsonV, d: JsonV, elapsed_secs: u64, timeout: u64)
    requires
        jstr(jget(dev, "deviceStatus"@)) != Some("UpToDate"@),
        jget(u, "deviceResult"@) == Some(d),
        !(d is Null),
    ensures
        jget(d, "success"@) == Some(JsonV::Bool(true)) ==> watch_verdict(dev, Some(u), elapsed_secs, timeout) is Done,
        jget(d, "success"@) != Some(JsonV::Bool(true)) ==> watch_verdict(dev, Some(u), elapsed_secs, timeout) is Failed,
{
    lemma_not_up_to_date(dev);
    assert(has_result(Some(u)));
    assert(succeeded(Some(u)) == (jget(d, "success"@) == Some(JsonV::Bool(true))));
}

/// What one poll prints and decides.
pub struct WatchReport {
    pub line: String,
    pub verdict: Verdict,
}

fn str_member_or(v: &Json, key: &str, fallback: &str) -> (r: String)
    ensures
        r@ == match jstr(jget(v@, key@)) {
            Some(s) => s,
            None => fallback@,
        },
{
    match v.get(key) {
        Some(x) => match x.as_str() {
            Some(s) => s.clone(),
            None => owned(fallback),
        },
        None => owned(fallback),
    }
}

/// One poll of `updates watch`: the device record `dev`, the latest update
/// (if any), the seconds shown in the progress line, and the seconds elapsed
/// when the timeout is checked.
#[verifier::rlimit(40)]
pub fn watch_step(dev: &Json, latest: Option<&Json>, shown_secs: u64, elapsed_secs: u64, timeout: u64) -> (r: WatchReport)
    ensures
        r.line@ == watch_line(dev@, crate::output::opt_view(latest), shown_secs),
        r.verdict@ == watch_verdict(dev@, crate::output::opt_view(latest), elapsed_secs, timeout),
{
    let ghost lv = crate::output::opt_view(latest);
    let dev_status = str_member_or(dev, "deviceStatus", "?");
    let seen = str_member_or(dev, "lastSeen", "?");
    let (upd_status, result, has, ok) = match latest {
        Some(u) => {
            let s = str_member_or(u, "status", "?");
            let res = result_of(u);
            let (has, ok) = match u.get("deviceResult") {
                Some(d) => {
                    let ok = match d.get("success") {
                        Some(b) => match b.as_bool() {
                            Some(x) => x,
                            None => false,
                        },
                        None => false,
                    };
                    (!d.is_null(), ok)
                },
                None => (false, false),
            };
            (s, res, has, ok)
        },
        None => (owned("(none)"), String::new(), false, false),
    };
    assert(upd_status@ == update_status(lv));
    assert(result@ == latest_result(lv));
    assert(has == has_result(lv));
    assert(ok == succeeded(lv));
    let secs = decimal_u64(shown_secs);
    let n = chars_of(secs.as_str()).len();
    let pad: usize = if n < 4 {
        4 - n
    } else {
        0
    };
    let fill = crate::text::repeat_char(' ', pad);
    assert(fill@ =~= spaces(pad as nat));
    let mut line = concat3("[", fill.as_str(), secs.as_str());
    line.append("s] device=");
    line.append(dev_status.as_str());
    line.append(" update=");
    line.append(upd_status.as_str());
    line.append(" result=");
    line.append(result.as_str());
    line.append(" lastSeen=");
    line.append(seen.as_str());
    let up_to_date = owned("UpToDate");
    let verdict = if dev_status == up_to_date {
        Verdict::Done(owned("Done: device is UpToDate."))
    } else if has {
        if ok {
            Verdict::Done(concat3("Done: update succeeded (", result.as_str(), ")."))
        } else {
            Verdict::Failed(concat("update failed: ", result.as_str()))
        }
    } else if elapsed_secs >= timeout {
        let t = decimal_u64(timeout);
        let mut m = concat3("timed out after ", t.as_str(), "s; last device status: ");
        m.append(dev_status.as_str());
        Verdict::Failed(m)
    } else {
        Verdict::Wait
    };
    WatchReport { line, verdict }
}

/// The request body of a launch: the packages, and the devices and fleets
/// that are given.
pub open spec fn launch_body(packages: Seq<String>, devices: Seq<String>, fleets: Seq<String>) -> JsonV {
    JsonV::Object(
        seq![("packageIds"@, str_array(packages))] + (if devices.len() > 0 {
            seq![("devices"@, str_array(devices))]
        } else {
            Seq::empty()
        }) + (if fleets.len() > 0 {
            seq![("fleets"@, str_array(fleets))]
        } else {
            Seq::empty()
        }),
    )
}

/// A JSON array of the strings.
pub open spec fn str_array(v: Seq<String>) -> JsonV {
    JsonV::Array(Seq::new(v.len(), |i: int| JsonV::Str(v[i]@)))
}

/// The plan of each `updates` subcommand.
pub open spec fn updates_plan(cmd: UpdatesCmd) -> Result<PlanV, CliError> {
    match cmd {
        UpdatesCmd::Launch(a) => if a.devices@.len() == 0 && a.fleets@.len() == 0 {
            Err(CliError::NoUpdateTarget)
        } else {
            Ok(
                call_plan(
                    None,
                    Method::Post,
                    "/updates"@,
                    Seq::empty(),
                    BodyV::Json(launch_body(a.packages@, a.devices@, a.fleets@)),
                    RenderV::Data("Update launched."@),
                ),
            )
        },
        UpdatesCmd::Cancel { update_id } => Ok(
            call_plan(
                None,
                Method::Patch,
                "/updates/"@ + update_id@,
                Seq::empty(),
                BodyV::Empty,
                RenderV::Status(
                    "Update "@ + update_id@ + " cancelled."@,
                    JsonV::Object(
                        seq![("status"@, JsonV::Str("cancelled"@)), ("updateId"@, JsonV::Str(update_id@))],
                    ),
                ),
            ),
        ),
        UpdatesCmd::List { device_uuid } => Ok(
            get_plan("/updates/devices/"@ + device_uuid@, RenderV::UpdateHistory),
        ),
        UpdatesCmd::Status { device_uuid } => Ok(
            get_plan("/updates/devices/"@ + device_uuid@, RenderV::LatestUpdate),
        ),
        UpdatesCmd::Watch(w) => Ok(
            PlanV::Watch { device_uuid: w.device_uuid@, interval: w.interval, timeout: w.timeout },
        ),
    }
}

/// A launch needs a target: without devices and fleets nothing is sent;
/// otherwise one POST to `/updates` carries the package IDs, and the
/// devices and fleets that are given, as JSON arrays of strings.
pub proof fn law_launch_request(a: LaunchArgs)
    ensures
        a.devices@.len() == 0 && a.fleets@.len() == 0 ==> updates_plan(UpdatesCmd::Launch(a)) == Err::<
            PlanV,
            CliError,
        >(CliError::NoUpdateTarget),
        !(a.devices@.len() == 0 && a.fleets@.len() == 0) ==> match updates_plan(UpdatesCmd::Launch(a)) {
            Ok(PlanV::Call(c)) => c.request.method == Method::Post && c.request.path == "/updates"@
                && match c.request.body {
                BodyV::Json(JsonV::Object(fs)) => {
                    &&& crate::json::lookup(fs, "packageIds"@) == Some(JsonV::Array(Seq::new(a.packages@.len(), |i: int| JsonV::Str(a.packages@[i]@))))
                    &&& a.devices@.len() > 0 ==> crate::json::lookup(fs, "devices"@) == Some(JsonV::Array(Seq::new(a.devices@.len(), |i: int| JsonV::Str(a.devices@[i]@))))
                    &&& a.fleets@.len() > 0 ==> crate::json::lookup(fs, "fleets"@) == Some(JsonV::Array(Seq::new(a.fleets@.len(), |i: int| JsonV::Str(a.fleets@[i]@))))
                    &&& a.devices@.len() == 0 ==> crate::json::lookup(fs, "devices"@) is None
                    &&& a.fleets@.len() == 0 ==> crate::json::lookup(fs, "fleets"@) is None
                },
                _ => false,
            },
            _ => false,
        },
{
    reveal_strlit("packageIds");
    reveal_strlit("devices");
    reveal_strlit("fleets");
    assert("packageIds"@[0] != "devices"@[0] && "packageIds"@[0] != "fleets"@[0] && "devices"@[0] != "fleets"@[0]);
    reveal_with_fuel(crate::json::lookup, 4);
    assert(str_array(a.packages@) == JsonV::Array(Seq::new(a.packages@.len(), |i: int| JsonV::Str(a.packages@[i]@))));
    assert(str_array(a.devices@) == JsonV::Array(Seq::new(a.devices@.len(), |i: int| JsonV::Str(a.devices@[i]@))));
    assert(str_array(a.fleets@) == JsonV::Array(Seq::new(a.fleets@.len(), |i: int| JsonV::Str(a.fleets@[i]@))));
}

/// Cancelling an update sends a PATCH of the update without a body;
/// `updates list` and `updates status` both read the device's history.
pub proof fn law_cancel_and_history_requests(update_id: String, device_uuid: String)
    ensures
        updates_plan(UpdatesCmd::Cancel { update_id }) matches Ok(PlanV::Call(c)) && c.request.method
            == Method::Patch && c.request.path == "/updates/"@ + update_id@ && c.request.body == BodyV::Empty,
        updates_plan(UpdatesCmd::List { device_uuid }) matches Ok(PlanV::Call(c)) && c.request.method
            == Method::Get && c.request.path == "/updates/devices/"@ + device_uuid@ && c.render
            == RenderV::UpdateHistory,
        updates_plan(UpdatesCmd::Status { device_uuid }) matches Ok(PlanV::Call(c)) && c.request.method
            == Method::Get && c.request.path == "/updates/devices/"@ + device_uuid@ && c.render
            == RenderV::LatestUpdate,
{
}

/// Plans an `updates` subcommand.
pub fn run(cmd: UpdatesCmd) -> (r: Result<Plan, CliError>)
    ensures
        match updates_plan(cmd) {
            Ok(p) => r matches Ok(q) && q@ == p,
            Err(e) => r == Err::<Plan, CliError>(e),
        },
{
    match cmd {
        UpdatesCmd::Launch(a) => {
            if a.devices.len() == 0 && a.fleets.len() == 0 {
                return Err(CliError::NoUpdateTarget);
            }
            let mut fields: Vec<(String, Json)> = Vec::new();
            fields.push((owned("packageIds"), Json::strings(&a.packages)));
            if a.devices.len() > 0 {
                fields.push((owned("devices"), Json::strings(&a.devices)));
            }
            if a.fleets.len() > 0 {
                fields.push((owned("fleets"), Json::strings(&a.fleets)));
            }
            proof {
                match launch_body(a.packages@, a.devices@, a.fleets@) {
                    JsonV::Object(t) => lemma_fields_view_ext(fields@, t),
                    _ => {},
                }
            }
            let q: Vec<(String, String)> = Vec::new();
            assert(super::pairs_view(q@) =~= Seq::<(Seq<char>, Seq<char>)>::empty());
            Ok(
                make_call(
                    None,
                    Method::Post,
                    owned("/updates"),
                    q,
                    super::Body::Json(Json::object(fields)),
                    Render::Data(owned("Update launched.")),
                ),
            )
        },
        UpdatesCmd::Cancel { update_id } => {
            let msg = concat3("Update ", update_id.as_str(), " cancelled.");
            let status = obj2(
                "status",
                Json::string("cancelled"),
                "updateId",
                Json::string(update_id.as_str()),
            );
            let q: Vec<(String, String)> = Vec::new();
            assert(super::pairs_view(q@) =~= Seq::<(Seq<char>, Seq<char>)>::empty());
            Ok(
                make_call(
                    None,
                    Method::Patch,
                    path2("/updates/", update_id.as_str()),
                    q,
                    super::Body::Empty,
                    Render::Status(msg, status),
                ),
            )
        },
        UpdatesCmd::List { device_uuid } => Ok(
            get_call(path2("/updates/devices/", device_uuid.as_str()), Render::UpdateHistory),
        ),
        UpdatesCmd::Status { device_uuid } => Ok(
            get_call(path2("/updates/devices/", device_uuid.as_str()), Render::LatestUpdate),
        ),
        UpdatesCmd::Watch(w) => Ok(Plan::Watch(w)),
    }
}

} // verus!
