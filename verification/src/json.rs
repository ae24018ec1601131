//! JSON values as the API sends and receives them, with a mathematical model
//! (`JsonV`), field lookup and update, and the compact text rendering.

use vstd::prelude::*;

use crate::text::{join, owned, push_char};

verus! {

/// A JSON value. A number carries two renderings: `display` is how the
/// number prints on its own, `json` is how it is written inside JSON text
/// (the two differ only for some floating-point values).
pub enum Json {
    Null,
    Bool(bool),
    Number { display: String, json: String },
    Str(String),
    Array(Vec<Json>),
    Object(Vec<(String, Json)>),
}

/// The model of a JSON value: strings as character sequences, an object as
/// the sequence of its fields in order.
pub enum JsonV {
    Null,
    Bool(bool),
    Number(Seq<char>, Seq<char>),
    Str(Seq<char>),
    Array(Seq<JsonV>),
    Object(Seq<(Seq<char>, JsonV)>),
}

pub open spec fn json_view(j: Json) -> JsonV
    decreases j,
{
    match j {
        Json::Null => JsonV::Null,
        Json::Bool(b) => JsonV::Bool(b),
        Json::Number { display, json } => JsonV::Number(display@, json@),
        Json::Str(s) => JsonV::Str(s@),
        Json::Array(a) => JsonV::Array(items_view(a@)),
        Json::Object(fs) => JsonV::Object(fields_view(fs@)),
    }
}

pub open spec fn items_view(s: Seq<Json>) -> Seq<JsonV>
    decreases s,
{
    if s.len() == 0 {
        Seq::empty()
    } else {
        seq![json_view(s[0])] + items_view(s.drop_first())
    }
}

pub open spec fn fields_view(s: Seq<(String, Json)>) -> Seq<(Seq<char>, JsonV)>
    decreases s,
{
    if s.len() == 0 {
        Seq::empty()
    } else {
        seq![(s[0].0@, json_view(s[0].1))] + fields_view(s.drop_first())
    }
}

impl View for Json {
    type V = JsonV;

    open spec fn view(&self) -> JsonV {
        json_view(*self)
    }
}

pub proof fn lemma_items_view(s: Seq<Json>)
    ensures
        items_view(s).len() == s.len(),
        forall|i: int| 0 <= i < s.len() ==> #[trigger] items_view(s)[i] == json_view(s[i]),
    decreases s.len(),
{
    if s.len() > 0 {
        lemma_items_view(s.drop_first());
        assert forall|i: int| 0 <= i < s.len() implies #[trigger] items_view(s)[i] == json_view(
            s[i],
        ) by {
            if i > 0 {
                assert(s.drop_first()[i - 1] == s[i]);
            }
        }
    }
}

pub proof fn lemma_fields_view(s: Seq<(String, Json)>)
    ensures
        fields_view(s).len() == s.len(),
        forall|i: int|
            0 <= i < s.len() ==> #[trigger] fields_view(s)[i] == (s[i].0@, json_view(s[i].1)),
    decreases s.len(),
{
    if s.len() > 0 {
        lemma_fields_view(s.drop_first());
        assert forall|i: int| 0 <= i < s.len() implies #[trigger] fields_view(s)[i] == (
            s[i].0@,
            json_view(s[i].1),
        ) by {
            if i > 0 {
                assert(s.drop_first()[i - 1] == s[i]);
            }
        }
    }
}

/// Two sequences of values with the same models elementwise have the same model.
pub proof fn lemma_items_view_ext(s: Seq<Json>, t: Seq<JsonV>)
    requires
        s.len() == t.len(),
        forall|i: int| 0 <= i < s.len() ==> json_view(#[trigger] s[i]) == t[i],
    ensures
        items_view(s) == t,
{
    lemma_items_view(s);
    assert(items_view(s) =~= t);
}

pub proof fn lemma_fields_view_ext(s: Seq<(String, Json)>, t: Seq<(Seq<char>, JsonV)>)
    requires
        s.len() == t.len(),
        forall|i: int| 0 <= i < s.len() ==> (#[trigger] s[i]).0@ == t[i].0 && json_view(s[i].1) == t[i].1,
    ensures
        fields_view(s) == t,
{
    lemma_fields_view(s);
    assert(fields_view(s) =~= t);
}

/// The value of the first field named `k`, if any.
pub open spec fn lookup(fs: Seq<(Seq<char>, JsonV)>, k: Seq<char>) -> Option<JsonV>
    decreases fs.len(),
{
    if fs.len() == 0 {
        None
    } else if fs[0].0 == k {
        Some(fs[0].1)
    } else {
        lookup(fs.drop_first(), k)
    }
}

/// The first member named `k` decides the lookup.
pub proof fn lemma_lookup_first(fs: Seq<(Seq<char>, JsonV)>, k: Seq<char>, v: JsonV, i: int)
    requires
        0 <= i < fs.len(),
        fs[i] == (k, v),
        forall|j: int| 0 <= j < i ==> fs[j].0 != k,
    ensures
        lookup(fs, k) == Some(v),
    decreases i,
{
    if i > 0 {
        assert(fs[0].0 != k);
        lemma_lookup_first(fs.drop_first(), k, v, i - 1);
        assert forall|j: int| 0 <= j < i - 1 implies fs.drop_first()[j].0 != k by {
            assert(fs.drop_first()[j] == fs[j + 1]);
        }
    }
}

/// Member `k` of an object; `None` for a missing member and for a value that
/// is not an object (`Value::get` with a string key).
pub open spec fn jget(v: JsonV, k: Seq<char>) -> Option<JsonV> {
    match v {
        JsonV::Object(fs) => lookup(fs, k),
        _ => None,
    }
}

/// The string inside a string value.
pub open spec fn jstr(v: Option<JsonV>) -> Option<Seq<char>> {
    match v {
        Some(JsonV::Str(s)) => Some(s),
        _ => None,
    }
}

/// The boolean inside a boolean value.
pub open spec fn jbool(v: Option<JsonV>) -> Option<bool> {
    match v {
        Some(JsonV::Bool(b)) => Some(b),
        _ => None,
    }
}

/// `fs` with the first field named `k` given the value `v`, or with the field
/// appended when there is none (`Map::insert`).
pub open spec fn insert_field(fs: Seq<(Seq<char>, JsonV)>, k: Seq<char>, v: JsonV) -> Seq<
    (Seq<char>, JsonV),
>
    decreases fs.len(),
{
    if fs.len() == 0 {
        seq![(k, v)]
    } else if fs[0].0 == k {
        seq![(k, v)] + fs.drop_first()
    } else {
        seq![fs[0]] + insert_field(fs.drop_first(), k, v)
    }
}

/// Reading a field just written gives the written value, and writing one
/// field leaves every other field as it was.
pub proof fn law_insert_then_lookup(fs: Seq<(Seq<char>, JsonV)>, k: Seq<char>, v: JsonV, k2: Seq<char>)
    ensures
        lookup(insert_field(fs, k, v), k) == Some(v),
        k2 != k ==> lookup(insert_field(fs, k, v), k2) == lookup(fs, k2),
    decreases fs.len(),
{
    let ins = insert_field(fs, k, v);
    if fs.len() == 0 {
        assert(ins[0] == (k, v));
        assert(ins.drop_first() =~= Seq::<(Seq<char>, JsonV)>::empty());
        if k2 != k {
            assert(lookup(ins, k2) == lookup(ins.drop_first(), k2));
        }
    } else if fs[0].0 == k {
        assert(ins.drop_first() =~= fs.drop_first());
        assert(ins[0] == (k, v));
        if k2 != k {
            assert(lookup(ins, k2) == lookup(ins.drop_first(), k2));
            assert(lookup(fs, k2) == lookup(fs.drop_first(), k2));
        }
    } else {
        law_insert_then_lookup(fs.drop_first(), k, v, k2);
        assert(ins.drop_first() =~= insert_field(fs.drop_first(), k, v));
        assert(ins[0] == fs[0]);
        if k2 != k && fs[0].0 != k2 {
            assert(lookup(ins, k2) == lookup(ins.drop_first(), k2));
            assert(lookup(fs, k2) == lookup(fs.drop_first(), k2));
        }
    }
}

pub proof fn lemma_element_decreases(j: Json, a: Vec<Json>, i: int)
    requires
        j == Json::Array(a),
        0 <= i < a@.len(),
    ensures
        decreases_to!(j => a@[i]),
{
    assert(decreases_to!(j => j->Array_0));
    assert(decreases_to!(a => a@));
    assert(decreases_to!(a@ => a@[i]));
}

pub proof fn lemma_field_decreases(j: Json, fs: Vec<(String, Json)>, i: int)
    requires
        j == Json::Object(fs),
        0 <= i < fs@.len(),
    ensures
        decreases_to!(j => fs@[i].1),
{
    assert(decreases_to!(j => j->Object_0));
    assert(decreases_to!(fs => fs@));
    assert(decreases_to!(fs@ => fs@[i]));
    assert(decreases_to!(fs@[i] => fs@[i].1));
}

impl Json {
    /// A string value holding a copy of `s`.
    pub fn string(s: &str) -> (r: Json)
        ensures
            r@ == JsonV::Str(s@),
    {
        Json::Str(owned(s))
    }

    /// A boolean value.
    pub fn boolean(b: bool) -> (r: Json)
        ensures
            r@ == JsonV::Bool(b),
    {
        Json::Bool(b)
    }

    /// A number value for a signed integer.
    pub fn integer(n: i64) -> (r: Json)
        ensures
            r@ == JsonV::Number(crate::text::signed_decimal(n as int), crate::text::signed_decimal(n as int)),
    {
        Json::Number { display: crate::text::decimal_i64(n), json: crate::text::decimal_i64(n) }
    }

    /// An array of string values.
    pub fn strings(items: &Vec<String>) -> (r: Json)
        ensures
            r@ == JsonV::Array(Seq::new(items@.len(), |i: int| JsonV::Str(items@[i]@))),
    {
        let mut out: Vec<Json> = Vec::new();
        let mut i: usize = 0;
        while i < items.len()
            invariant
                i <= items@.len(),
                out@.len() == i,
                forall|j: int| 0 <= j < i ==> json_view(#[trigger] out@[j]) == JsonV::Str(items@[j]@),
            decreases items.len() - i,
        {
            out.push(Json::Str(items[i].clone()));
            i = i + 1;
        }
        proof {
            lemma_items_view_ext(out@, Seq::new(items@.len(), |i: int| JsonV::Str(items@[i]@)));
        }
        Json::Array(out)
    }

    /// An object with the given fields, in order.
    pub fn object(fields: Vec<(String, Json)>) -> (r: Json)
        ensures
            r@ == JsonV::Object(fields_view(fields@)),
    {
        Json::Object(fields)
    }

    /// A deep copy.
    pub fn copy(&self) -> (r: Json)
        ensures
            r@ == self@,
        decreases self,
    {
        match self {
            Json::Null => Json::Null,
            Json::Bool(b) => Json::Bool(*b),
            Json::Number { display, json } => Json::Number {
                display: display.clone(),
                json: json.clone(),
            },
            Json::Str(s) => Json::Str(s.clone()),
            Json::Array(a) => {
                let mut out: Vec<Json> = Vec::new();
                let mut i: usize = 0;
                while i < a.len()
                    invariant
                        i <= a@.len(),
                        out@.len() == i,
                        forall|j: int| 0 <= j < i ==> json_view(#[trigger] out@[j]) == json_view(a@[j]),
                        *self == Json::Array(*a),
                    decreases a.len() - i,
                {
                    proof {
                        lemma_element_decreases(*self, *a, i as int);
                    }
                    out.push(a[i].copy());
                    i = i + 1;
                }
                proof {
                    lemma_items_view(a@);
                    lemma_items_view_ext(out@, items_view(a@));
                }
                Json::Array(out)
            },
            Json::Object(fs) => {
                let mut out: Vec<(String, Json)> = Vec::new();
                let mut i: usize = 0;
                while i < fs.len()
                    invariant
                        i <= fs@.len(),
                        out@.len() == i,
                        forall|j: int|
                            0 <= j < i ==> (#[trigger] out@[j]).0@ == fs@[j].0@ && json_view(out@[j].1)
                                == json_view(fs@[j].1),
                        *self == Json::Object(*fs),
                    decreases fs.len() - i,
                {
                    proof {
                        lemma_field_decreases(*self, *fs, i as int);
                    }
                    let v = fs[i].1.copy();
                    out.push((fs[i].0.clone(), v));
                    i = i + 1;
                }
                proof {
                    lemma_fields_view(fs@);
                    lemma_fields_view_ext(out@, fields_view(fs@));
                }
                Json::Object(out)
            },
        }
    }

    /// Member `key` of an object (`Value::get`).
    pub fn get(&self, key: &str) -> (r: Option<&Json>)
        ensures
            match r {
                Some(x) => jget(self@, key@) == Some(x@),
                None => jget(self@, key@) is None,
            },
    {
        match self {
            Json::Object(fs) => {
                let k = owned(key);
                let ghost m = fields_view(fs@);
                proof {
                    lemma_fields_view(fs@);
                    assert(m.skip(0) =~= m);
                    assert(self@ == JsonV::Object(m));
                }
                let mut i: usize = 0;
                while i < fs.len()
                    invariant
                        i <= fs@.len(),
                        m == fields_view(fs@),
                        m.len() == fs@.len(),
                        forall|j: int| 0 <= j < fs@.len() ==> #[trigger] m[j] == (fs@[j].0@, json_view(fs@[j].1)),
                        k@ == key@,
                        lookup(m, key@) == lookup(m.skip(i as int), key@),
                        self@ == JsonV::Object(m),
                    decreases fs.len() - i,
                {
                    assert(m.skip(i as int)[0] == m[i as int]);
                    assert(m.skip(i as int).drop_first() =~= m.skip(i + 1));
                    if fs[i].0 == k {
                        return Some(&fs[i].1);
                    }
                    i = i + 1;
                }
                assert(m.skip(i as int).len() == 0);
                None
            },
            _ => None,
        }
    }

    /// The string inside a string value (`Value::as_str`).
    pub fn as_str(&self) -> (r: Option<&String>)
        ensures
            match r {
                Some(s) => self@ == JsonV::Str(s@),
                None => !(self@ is Str),
            },
    {
        match self {
            Json::Str(s) => Some(s),
            _ => None,
        }
    }

    /// The boolean inside a boolean value (`Value::as_bool`).
    pub fn as_bool(&self) -> (r: Option<bool>)
        ensures
            r == jbool(Some(self@)),
    {
        match self {
            Json::Bool(b) => Some(*b),
            _ => None,
        }
    }

    /// Whether this is `null`.
    pub fn is_null(&self) -> (r: bool)
        ensures
            r == (self@ is Null),
    {
        match self {
            Json::Null => true,
            _ => false,
        }
    }
}

/// Sets field `key` of an object's fields to `value` (`Map::insert`).
pub fn set_field(fields: &mut Vec<(String, Json)>, key: String, value: Json)
    ensures
        fields_view(final(fields)@) == insert_field(fields_view(old(fields)@), key@, value@),
{
    let ghost m = fields_view(fields@);
    let ghost kv = key@;
    let ghost vv = value@;
    proof {
        lemma_fields_view(fields@);
    }
    let mut i: usize = 0;
    while i < fields.len()
        invariant
            i <= fields@.len(),
            m.len() == fields@.len(),
            forall|j: int| 0 <= j < fields@.len() ==> #[trigger] m[j] == (fields@[j].0@, json_view(fields@[j].1)),
            key@ == kv,
            value@ == vv,
            fields@ == old(fields)@,
            m == fields_view(old(fields)@),
            forall|j: int| 0 <= j < i ==> (#[trigger] m[j]).0 != kv,
        decreases fields.len() - i,
    {
        if fields[i].0 == key {
            let ghost before = fields@;
            fields.set(i, (key, value));
            proof {
                lemma_insert_field_at(m, kv, vv, i as int);
                lemma_fields_view(fields@);
                assert(fields_view(fields@) =~= m.update(i as int, (kv, vv)));
            }
            return;
        }
        i = i + 1;
    }
    fields.push((key, value));
    proof {
        lemma_insert_field_absent(m, kv, vv);
        lemma_fields_view(fields@);
        assert(fields_view(fields@) =~= m.push((kv, vv)));
    }
}

proof fn lemma_insert_field_at(m: Seq<(Seq<char>, JsonV)>, k: Seq<char>, v: JsonV, i: int)
    requires
        0 <= i < m.len(),
        m[i].0 == k,
        forall|j: int| 0 <= j < i ==> (#[trigger] m[j]).0 != k,
    ensures
        insert_field(m, k, v) == m.update(i, (k, v)),
    decreases i,
{
    if i == 0 {
        assert(insert_field(m, k, v) =~= m.update(0, (k, v)));
    } else {
        assert(m[0].0 != k);
        lemma_insert_field_at(m.drop_first(), k, v, i - 1);
        assert(insert_field(m, k, v) =~= m.update(i, (k, v)));
    }
}

proof fn lemma_insert_field_absent(m: Seq<(Seq<char>, JsonV)>, k: Seq<char>, v: JsonV)
    requires
        forall|j: int| 0 <= j < m.len() ==> (#[trigger] m[j]).0 != k,
    ensures
        insert_field(m, k, v) == m.push((k, v)),
    decreases m.len(),
{
    if m.len() > 0 {
        assert(m[0].0 != k);
        lemma_insert_field_absent(m.drop_first(), k, v);
        assert(insert_field(m, k, v) =~= m.push((k, v)));
    } else {
        assert(insert_field(m, k, v) =~= m.push((k, v)));
    }
}

/// Lower-case hexadecimal digit of `n < 16`.
pub open spec fn lower_hex(n: u32) -> char {
    if n < 10 {
        (48 + n) as char
    } else {
        (87 + n) as char
    }
}

/// How one character is written inside a JSON string literal: `"` and `\`
/// and the control characters below 0x20 are escaped (`\b`, `\t`, `\n`,
/// `\f`, `\r`, else `\u00xx` in lower-case hex); every other character is
/// written as it is.
pub open spec fn escaped_char(c: char) -> Seq<char> {
    let u = c as u32;
    if c == '"' {
        seq!['\\', '"']
    } else if c == '\\' {
        seq!['\\', '\\']
    } else if u == 0x08 {
        seq!['\\', 'b']
    } else if u == 0x09 {
        seq!['\\', 't']
    } else if u == 0x0A {
        seq!['\\', 'n']
    } else if u == 0x0C {
        seq!['\\', 'f']
    } else if u == 0x0D {
        seq!['\\', 'r']
    } else if u < 0x20 {
        seq!['\\', 'u', '0', '0', lower_hex(u / 16), lower_hex(u % 16)]
    } else {
        seq![c]
    }
}

/// The characters of `s`, each escaped as in a JSON string literal.
pub open spec fn escaped(s: Seq<char>) -> Seq<char>
    decreases s.len(),
{
    if s.len() == 0 {
        Seq::empty()
    } else {
        escaped(s.drop_last()) + escaped_char(s.last())
    }
}

/// The JSON string literal for the text `s`, as `serde_json` writes it.
pub open spec fn json_quoted(s: Seq<char>) -> Seq<char> {
    seq!['"'] + escaped(s) + seq!['"']
}

/// `serde_json::to_string` on a string slice: the text in double quotes,
/// escaped by the table of `serde_json`'s serializer (see `escaped_char`).
/// The call cannot fail for a `str`.
#[verifier::external_body]
fn quote(s: &str) -> (r: String)
    ensures
        r@ == json_quoted(s@),
{
    match serde_json::to_string(s) {
        Ok(t) => t,
        Err(_) => String::new(),
    }
}

/// Compact JSON text of a value, as `serde_json` writes it (no whitespace;
/// object members in their stored order).
pub open spec fn compact(v: JsonV) -> Seq<char>
    decreases v,
{
    match v {
        JsonV::Null => "null"@,
        JsonV::Bool(b) => if b {
            "true"@
        } else {
            "false"@
        },
        JsonV::Number(_, j) => j,
        JsonV::Str(s) => json_quoted(s),
        JsonV::Array(a) => "["@ + compact_items(a) + "]"@,
        JsonV::Object(fs) => "{"@ + compact_fields(fs) + "}"@,
    }
}

pub open spec fn compact_items(a: Seq<JsonV>) -> Seq<char>
    decreases a,
{
    if a.len() == 0 {
        Seq::empty()
    } else if a.len() == 1 {
        compact(a[0])
    } else {
        compact_items(a.drop_last()) + ","@ + compact(a.last())
    }
}

pub open spec fn compact_fields(fs: Seq<(Seq<char>, JsonV)>) -> Seq<char>
    decreases fs,
{
    if fs.len() == 0 {
        Seq::empty()
    } else if fs.len() == 1 {
        json_quoted(fs[0].0) + ":"@ + compact(fs[0].1)
    } else {
        compact_fields(fs.drop_last()) + ","@ + json_quoted(fs.last().0) + ":"@ + compact(fs.last().1)
    }
}

/// The compact JSON text of `v` (`Value::to_string`).
pub fn compact_text(v: &Json) -> (r: String)
    ensures
        r@ == compact(v@),
    decreases v,
{
    match v {
        Json::Null => owned("null"),
        Json::Bool(b) => if *b {
            owned("true")
        } else {
            owned("false")
        },
        Json::Number { display, json } => json.clone(),
        Json::Str(s) => quote(s.as_str()),
        Json::Array(a) => {
            let ghost m = items_view(a@);
            proof {
                lemma_items_view(a@);
                assert(m.take(0) =~= Seq::<JsonV>::empty());
            }
            let mut body = String::new();
            let mut i: usize = 0;
            while i < a.len()
                invariant
                    i <= a@.len(),
                    m == items_view(a@),
                    m.len() == a@.len(),
                    forall|j: int| 0 <= j < a@.len() ==> #[trigger] m[j] == json_view(a@[j]),
                    body@ == compact_items(m.take(i as int)),
                    *v == Json::Array(*a),
                decreases a.len() - i,
            {
                proof {
                    lemma_element_decreases(*v, *a, i as int);
                    assert(m.take(i + 1).drop_last() =~= m.take(i as int));
                    assert(m.take(i + 1).last() == m[i as int]);
                    if i == 0 {
                        assert(m.take(1) =~= seq![m[0]]);
                    }
                }
                let t = compact_text(&a[i]);
                if i > 0 {
                    body.append(",");
                }
                body.append(t.as_str());
                i = i + 1;
            }
            assert(m.take(a@.len() as int) =~= m);
            let mut r = owned("[");
            r.append(body.as_str());
            r.append("]");
            r
        },
        Json::Object(fs) => {
            let ghost m = fields_view(fs@);
            proof {
                lemma_fields_view(fs@);
                assert(m.take(0) =~= Seq::<(Seq<char>, JsonV)>::empty());
            }
            let mut body = String::new();
            let mut i: usize = 0;
            while i < fs.len()
                invariant
                    i <= fs@.len(),
                    m == fields_view(fs@),
                    m.len() == fs@.len(),
                    forall|j: int| 0 <= j < fs@.len() ==> #[trigger] m[j] == (fs@[j].0@, json_view(fs@[j].1)),
                    body@ == compact_fields(m.take(i as int)),
                    *v == Json::Object(*fs),
                decreases fs.len() - i,
            {
                proof {
                    lemma_field_decreases(*v, *fs, i as int);
                    assert(m.take(i + 1).drop_last() =~= m.take(i as int));
                    assert(m.take(i + 1).last() == m[i as int]);
                    if i == 0 {
                        assert(m.take(1) =~= seq![m[0]]);
                    }
                }
                let t = compact_text(&fs[i].1);
                let q = quote(fs[i].0.as_str());
                if i > 0 {
                    body.append(",");
                }
                body.append(q.as_str());
                body.append(":");
                body.append(t.as_str());
                i = i + 1;
            }
            assert(m.take(fs@.len() as int) =~= m);
            let mut r = owned("{");
            r.append(body.as_str());
            r.append("}");
            r
        },
    }
}

#[verifier::external_type_specification]
#[verifier::external_body]
pub struct ExValue(serde_json::Value);

/// What `serde_json` reads from the text `text`: the document, in the model
/// of this library, or, when the text is not one JSON document, the text of
/// the parser's error description.
pub uninterp spec fn json_parsed(text: Seq<char>) -> Result<JsonV, Seq<char>>;

/// The conversion of a `serde_json::Value` into `Json`, one variant for one:
/// a number keeps its `Display` text and its JSON text, object members keep
/// the order in which `serde_json` holds them. Used by `parse_json` only.
#[verifier::external_body]
fn json_of_value(v: &serde_json::Value) -> Json {
    match v {
        serde_json::Value::Null => Json::Null,
        serde_json::Value::Bool(b) => Json::Bool(*b),
        serde_json::Value::Number(n) => Json::Number { display: n.to_string(), json: serde_json::to_string(n).unwrap_or_default() },
        serde_json::Value::String(t) => Json::Str(t.clone()),
        serde_json::Value::Array(a) => Json::Array(a.iter().map(json_of_value).collect()),
        serde_json::Value::Object(m) => Json::Object(m.iter().map(|(k, x)| (k.clone(), json_of_value(x))).collect()),
    }
}

/// `serde_json::from_str::<Value>` on a reply text: the document it reads,
/// as `Json`, or the `Display` text of the parser's error. Both depend on the
/// text alone, so the result is named (`json_parsed`).
#[verifier::external_body]
pub(crate) fn parse_json(text: &str) -> (r: Result<Json, String>)
    ensures
        match r {
            Ok(j) => json_parsed(text@) == Ok::<JsonV, Seq<char>>(j@),
            Err(e) => json_parsed(text@) == Err::<JsonV, Seq<char>>(e@),
        },
{
    match serde_json::from_str::<serde_json::Value>(text) {
        Ok(v) => Ok(json_of_value(&v)),
        Err(e) => Err(e.to_string()),
    }
}

/// The text `serde_json::to_string_pretty` writes for a value (two-space
/// indentation, one member or element per line).
pub uninterp spec fn json_pretty(v: JsonV) -> Seq<char>;

/// The conversion of `Json` into a `serde_json::Value`, one variant for one:
/// a number is read back from its JSON text. Used by `pretty` only.
#[verifier::external_body]
fn value_of_json(j: &Json) -> serde_json::Value {
    match j {
        Json::Null => serde_json::Value::Null,
        Json::Bool(b) => serde_json::Value::Bool(*b),
        Json::Number { json, .. } => serde_json::from_str::<serde_json::Number>(json).map(serde_json::Value::Number).unwrap_or(serde_json::Value::Null),
        Json::Str(t) => serde_json::Value::String(t.clone()),
        Json::Array(a) => serde_json::Value::Array(a.iter().map(value_of_json).collect()),
        Json::Object(fs) => serde_json::Value::Object(fs.iter().map(|(k, x)| (k.clone(), value_of_json(x))).collect()),
    }
}

/// `serde_json::to_string_pretty` on a value. Writing a `Value` cannot fail
/// (its map keys are strings); the text is named (`json_pretty`).
#[verifier::external_body]
pub(crate) fn pretty(v: &Json) -> (r: String)
    ensures
        r@ == json_pretty(v@),
{
    match serde_json::to_string_pretty(&value_of_json(v)) {
        Ok(t) => t,
        Err(_) => String::new(),
    }
}

} // verus!
