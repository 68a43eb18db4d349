//! The JSON documents this client exchanges with the remote API, as a tree
//! of plain values.  Numbers are kept as their literal text, so that no
//! precision is invented or lost on the way through.

use vstd::prelude::*;

verus! {

use crate::text::str_eq;

/// A JSON value.  `Num` holds the number's literal text.
pub enum Json {
    Null,
    Bool(bool),
    Num(String),
    Str(String),
    Arr(Vec<Json>),
    Obj(Vec<(String, Json)>),
}

/// The mathematical shape of a JSON value.
pub ghost enum JsonSpec {
    Null,
    Bool(bool),
    Num(Seq<char>),
    Str(Seq<char>),
    Arr(Seq<JsonSpec>),
    Obj(Seq<(Seq<char>, JsonSpec)>),
}

/// The shapes of an array's elements.
pub open spec fn arr_model(items: Seq<Json>) -> Seq<JsonSpec>
    decreases items,
{
    Seq::new(
        items.len(),
        |i: int|
            if 0 <= i < items.len() {
                items[i]@
            } else {
                JsonSpec::Null
            },
    )
}

/// The shapes of an object's members.
pub open spec fn obj_model(fields: Seq<(String, Json)>) -> Seq<(Seq<char>, JsonSpec)>
    decreases fields,
{
    Seq::new(
        fields.len(),
        |i: int|
            if 0 <= i < fields.len() {
                (fields[i].0@, fields[i].1@)
            } else {
                (Seq::<char>::empty(), JsonSpec::Null)
            },
    )
}

impl View for Json {
    type V = JsonSpec;

    open spec fn view(&self) -> JsonSpec
        decreases self,
    {
        match self {
            Json::Null => JsonSpec::Null,
            Json::Bool(b) => JsonSpec::Bool(*b),
            Json::Num(t) => JsonSpec::Num(t@),
            Json::Str(t) => JsonSpec::Str(t@),
            Json::Arr(items) => JsonSpec::Arr(arr_model(items@)),
            Json::Obj(fields) => JsonSpec::Obj(obj_model(fields@)),
        }
    }
}

/// The response text matched neither the success shape nor the failure
/// shape of its endpoint, or was not JSON at all.
#[derive(Debug)]
pub enum DecodeError {
    MalformedResponse,
}

#[verifier::external_type_specification]
#[verifier::external_body]
pub struct ExValue(serde_json::Value);

/// The JSON value denoted by a text, if the text is JSON at all: the name of
/// what `serde_json::from_str::<serde_json::Value>` returns, translated into
/// this library's tree.  It depends on the text alone.
pub uninterp spec fn json_model(s: Seq<char>) -> Option<JsonSpec>;

/// Relies on `serde_json::Value`: each variant is moved, one arm each, into
/// this library's tree.  Numbers keep their literal text; object members come
/// in the order `serde_json`'s map iterates them (sorted by key).
#[verifier::external_body]
fn value_to_json(v: &serde_json::Value) -> Json {
    match v {
        serde_json::Value::Null => Json::Null,
        serde_json::Value::Bool(b) => Json::Bool(*b),
        serde_json::Value::Number(n) => Json::Num(n.to_string()),
        serde_json::Value::String(s) => Json::Str(s.clone()),
        serde_json::Value::Array(a) => Json::Arr(a.iter().map(value_to_json).collect()),
        serde_json::Value::Object(m) => Json::Obj(
            m.iter().map(|(k, x)| (k.clone(), value_to_json(x))).collect(),
        ),
    }
}

/// Relies on `serde_json::from_str::<serde_json::Value>`: whether a text is
/// JSON, and which value it denotes, are functions of the text alone;
/// `json_model` names that outcome.
#[verifier::external_body]
pub fn parse_json(s: &str) -> (r: Option<Json>)
    ensures
        match r {
            Some(j) => json_model(s@) == Some(j@),
            None => json_model(s@) is None,
        },
{
    match serde_json::from_str::<serde_json::Value>(s) {
        Ok(v) => Some(value_to_json(&v)),
        Err(_) => None,
    }
}

/// The value under `key` in an object's fields, first occurrence.
pub open spec fn obj_lookup(fields: Seq<(Seq<char>, JsonSpec)>, key: Seq<char>) -> Option<
    JsonSpec,
>
    decreases fields.len(),
{
    if fields.len() == 0 {
        None
    } else if fields[0].0 == key {
        Some(fields[0].1)
    } else {
        obj_lookup(fields.skip(1), key)
    }
}

/// Looks a key up in an object's fields, first occurrence.
pub fn obj_get<'a>(fields: &'a Vec<(String, Json)>, key: &str) -> (r: Option<&'a Json>)
    ensures
        match r {
            Some(v) => obj_lookup(obj_model(fields@), key@) == Some(v@),
            None => obj_lookup(obj_model(fields@), key@) is None,
        },
{
    let ghost all = obj_model(fields@);
    let n = fields.len();
    let mut k: usize = 0;
    proof {
        assert(all.skip(0) =~= all);
    }
    while k < n
        invariant
            0 <= k as int <= n as int,
            n as nat == fields@.len(),
            all == obj_model(fields@),
            all.len() == fields@.len(),
            forall|i: int| 0 <= i < all.len() ==> #[trigger] all[i] == (fields[i].0@, fields[i].1@),
            obj_lookup(all, key@) == obj_lookup(all.skip(k as int), key@),
        decreases n as int - k as int,
    {
        if str_eq(fields[k].0.as_str(), key) {
            proof {
                assert(all.skip(k as int)[0] == all[k as int]);
            }
            return Some(&fields[k].1);
        }
        proof {
            assert(all.skip(k as int)[0] == all[k as int]);
            assert(all.skip(k as int).skip(1) =~= all.skip(k as int + 1));
        }
        k = k + 1;
    }
    proof {
        assert(all.skip(n as int) =~= Seq::<(Seq<char>, JsonSpec)>::empty());
    }
    None
}

/// Looking a key up in joined member lists searches the left part first.
pub proof fn lemma_obj_lookup_append(
    s1: Seq<(Seq<char>, JsonSpec)>,
    s2: Seq<(Seq<char>, JsonSpec)>,
    key: Seq<char>,
)
    ensures
        obj_lookup(s1 + s2, key) == match obj_lookup(s1, key) {
            Some(v) => Some(v),
            None => obj_lookup(s2, key),
        },
    decreases s1.len(),
{
    if s1.len() == 0 {
        assert(s1 + s2 =~= s2);
    } else {
        lemma_obj_lookup_append(s1.skip(1), s2, key);
        assert((s1 + s2)[0] == s1[0]);
        assert((s1 + s2).skip(1) =~= s1.skip(1) + s2);
    }
}

/// Looking a key up in a one-member list finds it exactly on that key.
pub proof fn lemma_obj_lookup_singleton(entry: (Seq<char>, JsonSpec), key: Seq<char>)
    ensures
        obj_lookup(seq![entry], key) == if entry.0 == key {
            Some(entry.1)
        } else {
            None
        },
{
    assert(seq![entry][0] == entry);
    assert(seq![entry].skip(1) =~= Seq::<(Seq<char>, JsonSpec)>::empty());
    assert(obj_lookup(Seq::<(Seq<char>, JsonSpec)>::empty(), key) is None);
}

/// A string member: ill-typed (`None`), absent (`Some(None)`), or its text.
pub open spec fn spec_str_field(fs: Seq<(Seq<char>, JsonSpec)>, key: Seq<char>) -> Option<
    Option<Seq<char>>,
> {
    match obj_lookup(fs, key) {
        None => Some(None),
        Some(v) => match v {
            JsonSpec::Str(t) => Some(Some(t)),
            _ => None,
        },
    }
}

/// A boolean member: ill-typed, absent, or its value.
pub open spec fn spec_bool_field(fs: Seq<(Seq<char>, JsonSpec)>, key: Seq<char>) -> Option<
    Option<bool>,
> {
    match obj_lookup(fs, key) {
        None => Some(None),
        Some(v) => match v {
            JsonSpec::Bool(b) => Some(Some(b)),
            _ => None,
        },
    }
}

/// A number member read as `u32`: ill-typed (not a number, or a literal no
/// `u32` numeral denotes), absent, or its value.
pub open spec fn spec_u32_field(fs: Seq<(Seq<char>, JsonSpec)>, key: Seq<char>) -> Option<
    Option<u32>,
> {
    match obj_lookup(fs, key) {
        None => Some(None),
        Some(v) => match v {
            JsonSpec::Num(t) => match crate::numbers::spec_parse_u32(t) {
                Some(n) => Some(Some(n)),
                None => None,
            },
            _ => None,
        },
    }
}

/// A number member read as `u16`.
pub open spec fn spec_u16_field(fs: Seq<(Seq<char>, JsonSpec)>, key: Seq<char>) -> Option<
    Option<u16>,
> {
    match obj_lookup(fs, key) {
        None => Some(None),
        Some(v) => match v {
            JsonSpec::Num(t) => match crate::numbers::spec_parse_u16(t) {
                Some(n) => Some(Some(n)),
                None => None,
            },
            _ => None,
        },
    }
}

/// A number member read as `u64`.
pub open spec fn spec_u64_field(fs: Seq<(Seq<char>, JsonSpec)>, key: Seq<char>) -> Option<
    Option<u64>,
> {
    match obj_lookup(fs, key) {
        None => Some(None),
        Some(v) => match v {
            JsonSpec::Num(t) => match crate::numbers::spec_parse_u64(t) {
                Some(n) => Some(Some(n)),
                None => None,
            },
            _ => None,
        },
    }
}

/// An object member: ill-typed, absent, or its own members.
pub open spec fn spec_obj_field(fs: Seq<(Seq<char>, JsonSpec)>, key: Seq<char>) -> Option<
    Option<Seq<(Seq<char>, JsonSpec)>>,
> {
    match obj_lookup(fs, key) {
        None => Some(None),
        Some(v) => match v {
            JsonSpec::Obj(inner) => Some(Some(inner)),
            _ => None,
        },
    }
}

/// A number member kept as its literal text.
pub open spec fn spec_num_field(fs: Seq<(Seq<char>, JsonSpec)>, key: Seq<char>) -> Option<
    Option<Seq<char>>,
> {
    match obj_lookup(fs, key) {
        None => Some(None),
        Some(v) => match v {
            JsonSpec::Num(t) => Some(Some(t)),
            _ => None,
        },
    }
}

/// Reads a string member.
pub fn get_str_field(fields: &Vec<(String, Json)>, key: &str) -> (r: Result<
    Option<String>,
    DecodeError,
>)
    ensures
        match spec_str_field(obj_model(fields@), key@) {
            None => r is Err,
            Some(None) => r matches Ok(o) && o is None,
            Some(Some(t)) => r matches Ok(o) && o matches Some(s) && s@ == t,
        },
{
    match obj_get(fields, key) {
        None => Ok(None),
        Some(v) => match v {
            Json::Str(t) => Ok(Some(t.clone())),
            _ => Err(DecodeError::MalformedResponse),
        },
    }
}

/// Reads a boolean member.
pub fn get_bool_field(fields: &Vec<(String, Json)>, key: &str) -> (r: Result<
    Option<bool>,
    DecodeError,
>)
    ensures
        match spec_bool_field(obj_model(fields@), key@) {
            None => r is Err,
            Some(o) => r == Ok::<Option<bool>, DecodeError>(o),
        },
{
    match obj_get(fields, key) {
        None => Ok(None),
        Some(v) => match v {
            Json::Bool(b) => Ok(Some(*b)),
            _ => Err(DecodeError::MalformedResponse),
        },
    }
}

/// Reads a number member as `u32`.
pub fn get_u32_field(fields: &Vec<(String, Json)>, key: &str) -> (r: Result<
    Option<u32>,
    DecodeError,
>)
    ensures
        match spec_u32_field(obj_model(fields@), key@) {
            None => r is Err,
            Some(o) => r == Ok::<Option<u32>, DecodeError>(o),
        },
{
    match obj_get(fields, key) {
        None => Ok(None),
        Some(v) => match v {
            Json::Num(t) => match crate::numbers::parse_u32(t.as_str()) {
                Some(n) => Ok(Some(n)),
                None => Err(DecodeError::MalformedResponse),
            },
            _ => Err(DecodeError::MalformedResponse),
        },
    }
}

/// Reads a number member as `u16`.
pub fn get_u16_field(fields: &Vec<(String, Json)>, key: &str) -> (r: Result<
    Option<u16>,
    DecodeError,
>)
    ensures
        match spec_u16_field(obj_model(fields@), key@) {
            None => r is Err,
            Some(o) => r == Ok::<Option<u16>, DecodeError>(o),
        },
{
    match obj_get(fields, key) {
        None => Ok(None),
        Some(v) => match v {
            Json::Num(t) => match crate::numbers::parse_u16(t.as_str()) {
                Some(n) => Ok(Some(n)),
                None => Err(DecodeError::MalformedResponse),
            },
            _ => Err(DecodeError::MalformedResponse),
        },
    }
}

/// Reads a number member as `u64`.
pub fn get_u64_field(fields: &Vec<(String, Json)>, key: &str) -> (r: Result<
    Option<u64>,
    DecodeError,
>)
    ensures
        match spec_u64_field(obj_model(fields@), key@) {
            None => r is Err,
            Some(o) => r == Ok::<Option<u64>, DecodeError>(o),
        },
{
    match obj_get(fields, key) {
        None => Ok(None),
        Some(v) => match v {
            Json::Num(t) => match crate::numbers::parse_u64(t.as_str()) {
                Some(n) => Ok(Some(n)),
                None => Err(DecodeError::MalformedResponse),
            },
            _ => Err(DecodeError::MalformedResponse),
        },
    }
}

/// Reads a number member, keeping its literal text.
pub fn get_num_field(fields: &Vec<(String, Json)>, key: &str) -> (r: Result<
    Option<String>,
    DecodeError,
>)
    ensures
        match spec_num_field(obj_model(fields@), key@) {
            None => r is Err,
            Some(None) => r matches Ok(o) && o is None,
            Some(Some(t)) => r matches Ok(o) && o matches Some(s) && s@ == t,
        },
{
    match obj_get(fields, key) {
        None => Ok(None),
        Some(v) => match v {
            Json::Num(t) => Ok(Some(t.clone())),
            _ => Err(DecodeError::MalformedResponse),
        },
    }
}

/// The texts of an array whose elements are all strings, else nothing.
pub open spec fn spec_str_items(items: Seq<JsonSpec>) -> Option<Seq<Seq<char>>>
    decreases items.len(),
{
    if items.len() == 0 {
        Some(Seq::empty())
    } else {
        match items[0] {
            JsonSpec::Str(t) => match spec_str_items(items.skip(1)) {
                Some(rest) => Some(seq![t] + rest),
                None => None,
            },
            _ => None,
        }
    }
}

proof fn lemma_str_items_all(items: Seq<JsonSpec>)
    requires
        forall|j: int| 0 <= j < items.len() ==> #[trigger] items[j] is Str,
    ensures
        spec_str_items(items) matches Some(ts) && ts.len() == items.len() && (forall|j: int|
            0 <= j < items.len() ==> #[trigger] ts[j] == items[j]->Str_0),
    decreases items.len(),
{
    if items.len() > 0 {
        lemma_str_items_all(items.skip(1));
        let t = items[0]->Str_0;
        let rest = spec_str_items(items.skip(1))->Some_0;
        assert forall|j: int| 0 <= j < items.len() implies #[trigger] (seq![t] + rest)[j]
            == items[j]->Str_0 by {
            if j > 0 {
                assert(rest[j - 1] == items.skip(1)[j - 1]->Str_0);
            }
        }
    }
}

proof fn lemma_str_items_bad(items: Seq<JsonSpec>, j: int)
    requires
        0 <= j < items.len(),
        !(items[j] is Str),
    ensures
        spec_str_items(items) is None,
    decreases j,
{
    if j > 0 && items[0] is Str {
        lemma_str_items_bad(items.skip(1), j - 1);
    }
}

/// An array member whose elements are all strings: ill-typed, absent, or
/// the texts.
pub open spec fn spec_str_arr_field(fs: Seq<(Seq<char>, JsonSpec)>, key: Seq<char>) -> Option<
    Option<Seq<Seq<char>>>,
> {
    match obj_lookup(fs, key) {
        None => Some(None),
        Some(v) => match v {
            JsonSpec::Arr(items) => match spec_str_items(items) {
                Some(ts) => Some(Some(ts)),
                None => None,
            },
            _ => None,
        },
    }
}

/// Reads an array-of-strings member.
pub fn get_str_arr_field(fields: &Vec<(String, Json)>, key: &str) -> (r: Result<
    Option<Vec<String>>,
    DecodeError,
>)
    ensures
        match spec_str_arr_field(obj_model(fields@), key@) {
            None => r is Err,
            Some(None) => r matches Ok(o) && o is None,
            Some(Some(ts)) => r matches Ok(o) && o matches Some(v) && v@.len() == ts.len() && (
            forall|i: int| 0 <= i < ts.len() ==> (#[trigger] v@[i])@ == ts[i]),
        },
{
    match obj_get(fields, key) {
        None => Ok(None),
        Some(v) => match v {
            Json::Arr(items) => {
                let ghost m = arr_model(items@);
                let n = items.len();
                let mut out: Vec<String> = Vec::new();
                let mut k: usize = 0;
                while k < n
                    invariant
                        0 <= k as int <= n as int,
                        n as nat == items@.len(),
                        m == arr_model(items@),
                        m.len() == items@.len(),
                        obj_lookup(obj_model(fields@), key@) == Some(JsonSpec::Arr(m)),
                        out@.len() == k as nat,
                        forall|j: int| 0 <= j < k as int ==> #[trigger] m[j] is Str,
                        forall|j: int|
                            0 <= j < k as int ==> (#[trigger] out@[j])@ == m[j]->Str_0,
                    decreases n as int - k as int,
                {
                    match &items[k] {
                        Json::Str(t) => {
                            out.push(t.clone());
                        },
                        _ => {
                            proof {
                                lemma_str_items_bad(m, k as int);
                            }
                            return Err(DecodeError::MalformedResponse);
                        },
                    }
                    k = k + 1;
                }
                proof {
                    lemma_str_items_all(m);
                }
                Ok(Some(out))
            },
            _ => Err(DecodeError::MalformedResponse),
        },
    }
}

/// The members of an object whose values are all strings, else nothing.
pub open spec fn spec_str_entries(fs: Seq<(Seq<char>, JsonSpec)>) -> Option<
    Seq<(Seq<char>, Seq<char>)>,
>
    decreases fs.len(),
{
    if fs.len() == 0 {
        Some(Seq::empty())
    } else {
        match fs[0].1 {
            JsonSpec::Str(t) => match spec_str_entries(fs.skip(1)) {
                Some(rest) => Some(seq![(fs[0].0, t)] + rest),
                None => None,
            },
            _ => None,
        }
    }
}

pub proof fn lemma_str_entries_all(fs: Seq<(Seq<char>, JsonSpec)>)
    requires
        forall|j: int| 0 <= j < fs.len() ==> (#[trigger] fs[j]).1 is Str,
    ensures
        spec_str_entries(fs) matches Some(es) && es.len() == fs.len() && (forall|j: int|
            0 <= j < fs.len() ==> #[trigger] es[j] == (fs[j].0, fs[j].1->Str_0)),
    decreases fs.len(),
{
    if fs.len() > 0 {
        lemma_str_entries_all(fs.skip(1));
        let hd = (fs[0].0, fs[0].1->Str_0);
        let rest = spec_str_entries(fs.skip(1))->Some_0;
        assert forall|j: int| 0 <= j < fs.len() implies #[trigger] (seq![hd] + rest)[j] == (
            fs[j].0,
            fs[j].1->Str_0,
        ) by {
            if j > 0 {
                assert(rest[j - 1] == (fs.skip(1)[j - 1].0, fs.skip(1)[j - 1].1->Str_0));
            }
        }
    }
}

pub proof fn lemma_str_entries_bad(fs: Seq<(Seq<char>, JsonSpec)>, j: int)
    requires
        0 <= j < fs.len(),
        !(fs[j].1 is Str),
    ensures
        spec_str_entries(fs) is None,
    decreases j,
{
    if j > 0 && fs[0].1 is Str {
        lemma_str_entries_bad(fs.skip(1), j - 1);
    }
}

/// An object member whose own members are all strings: ill-typed, absent,
/// or those members as key/text pairs.
pub open spec fn spec_str_map_field(fs: Seq<(Seq<char>, JsonSpec)>, key: Seq<char>) -> Option<
    Option<Seq<(Seq<char>, Seq<char>)>>,
> {
    match obj_lookup(fs, key) {
        None => Some(None),
        Some(v) => match v {
            JsonSpec::Obj(inner) => match spec_str_entries(inner) {
                Some(es) => Some(Some(es)),
                None => None,
            },
            _ => None,
        },
    }
}

/// Reads an object-of-strings member as key/text pairs.
pub fn get_str_map_field(fields: &Vec<(String, Json)>, key: &str) -> (r: Result<
    Option<Vec<(String, String)>>,
    DecodeError,
>)
    ensures
        match spec_str_map_field(obj_model(fields@), key@) {
            None => r is Err,
            Some(None) => r matches Ok(o) && o is None,
            Some(Some(es)) => r matches Ok(o) && o matches Some(v) && v@.len() == es.len() && (
            forall|i: int|
                0 <= i < es.len() ==> (#[trigger] v@[i]).0@ == es[i].0 && v@[i].1@ == es[i].1),
        },
{
    match obj_get(fields, key) {
        None => Ok(None),
        Some(v) => match v {
            Json::Obj(inner) => {
                let ghost m = obj_model(inner@);
                let n = inner.len();
                let mut out: Vec<(String, String)> = Vec::new();
                let mut k: usize = 0;
                while k < n
                    invariant
                        0 <= k as int <= n as int,
                        n as nat == inner@.len(),
                        m == obj_model(inner@),
                        m.len() == inner@.len(),
                        obj_lookup(obj_model(fields@), key@) == Some(JsonSpec::Obj(m)),
                        out@.len() == k as nat,
                        forall|j: int| 0 <= j < k as int ==> (#[trigger] m[j]).1 is Str,
                        forall|j: int|
                            0 <= j < k as int ==> (#[trigger] out@[j]).0@ == m[j].0 && out@[
                                j
                            ].1@ == m[j].1->Str_0,
                    decreases n as int - k as int,
                {
                    match &inner[k].1 {
                        Json::Str(t) => {
                            out.push((inner[k].0.clone(), t.clone()));
                        },
                        _ => {
                            proof {
                                lemma_str_entries_bad(m, k as int);
                            }
                            return Err(DecodeError::MalformedResponse);
                        },
                    }
                    k = k + 1;
                }
                proof {
                    lemma_str_entries_all(m);
                }
                Ok(Some(out))
            },
            _ => Err(DecodeError::MalformedResponse),
        },
    }
}

/// How one character is written inside a JSON string: quote, backslash and
/// the common control characters are escaped, everything else stands as is.
pub open spec fn escape_char(c: char) -> Seq<char> {
    if c == '"' {
        seq!['\\', '"']
    } else if c == '\\' {
        seq!['\\', '\\']
    } else if c == '\n' {
        seq!['\\', 'n']
    } else if c == '\r' {
        seq!['\\', 'r']
    } else if c == '\t' {
        seq!['\\', 't']
    } else {
        seq![c]
    }
}

/// The escaped body of a JSON string.
pub open spec fn escape_string(s: Seq<char>) -> Seq<char>
    decreases s.len(),
{
    if s.len() == 0 {
        Seq::empty()
    } else {
        escape_char(s[0]) + escape_string(s.skip(1))
    }
}

/// The text this library writes for a JSON value.
pub open spec fn render_spec(j: JsonSpec) -> Seq<char>
    decreases j,
{
    match j {
        JsonSpec::Null => "null"@,
        JsonSpec::Bool(b) => if b {
            "true"@
        } else {
            "false"@
        },
        JsonSpec::Num(t) => t,
        JsonSpec::Str(t) => seq!['"'] + escape_string(t) + seq!['"'],
        JsonSpec::Arr(items) => seq!['['] + render_items(items) + seq![']'],
        JsonSpec::Obj(fields) => seq!['{'] + render_fields(fields) + seq!['}'],
    }
}

/// Array elements, comma separated.
pub open spec fn render_items(items: Seq<JsonSpec>) -> Seq<char>
    decreases items,
{
    if items.len() == 0 {
        Seq::empty()
    } else if items.len() == 1 {
        render_spec(items[0])
    } else {
        render_items(items.drop_last()) + seq![','] + render_spec(items.last())
    }
}

/// Object members, comma separated, each a quoted key, a colon and a value.
pub open spec fn render_fields(fields: Seq<(Seq<char>, JsonSpec)>) -> Seq<char>
    decreases fields,
{
    if fields.len() == 0 {
        Seq::empty()
    } else if fields.len() == 1 {
        render_field(fields[0])
    } else {
        render_fields(fields.drop_last()) + seq![','] + render_field(fields.last())
    }
}

/// One object member.
pub open spec fn render_field(field: (Seq<char>, JsonSpec)) -> Seq<char>
    decreases field,
{
    seq!['"'] + escape_string(field.0) + seq!['"', ':'] + render_spec(field.1)
}

/// Appending a character extends the escaped text by that character's escape.
proof fn lemma_escape_snoc(s: Seq<char>, c: char)
    ensures
        escape_string(s.push(c)) == escape_string(s) + escape_char(c),
    decreases s.len(),
{
    if s.len() == 0 {
        assert(s.push(c)[0] == c);
        assert(s.push(c).skip(1) =~= Seq::<char>::empty());
        assert(escape_string(Seq::<char>::empty()) =~= Seq::<char>::empty());
        assert(escape_string(s.push(c)) == escape_char(c) + escape_string(s.push(c).skip(1)));
        assert(escape_char(c) + Seq::<char>::empty() =~= escape_char(c));
        assert(Seq::<char>::empty() + escape_char(c) =~= escape_char(c));
    } else {
        assert(s.push(c)[0] == s[0]);
        assert(s.push(c).skip(1) =~= s.skip(1).push(c));
        lemma_escape_snoc(s.skip(1), c);
        assert((escape_char(s[0]) + (escape_string(s.skip(1)) + escape_char(c))) =~= (escape_char(
            s[0],
        ) + escape_string(s.skip(1))) + escape_char(c));
    }
}

/// Writes the escaped body of `t` onto the end of `out`.
fn append_escaped(out: &mut String, t: &str)
    ensures
        final(out)@ == old(out)@ + escape_string(t@),
{
    let n = t.unicode_len();
    let mut i: usize = 0;
    proof {
        assert(t@.subrange(0, 0) =~= Seq::<char>::empty());
        assert(old(out)@ + Seq::<char>::empty() =~= old(out)@);
        reveal_strlit("\\\"");
        reveal_strlit("\\\\");
        reveal_strlit("\\n");
        reveal_strlit("\\r");
        reveal_strlit("\\t");
    }
    while i < n
        invariant
            0 <= i as int <= n as int,
            n as nat == t@.len(),
            out@ == old(out)@ + escape_string(t@.subrange(0, i as int)),
        decreases n as int - i as int,
    {
        let c = t.get_char(i);
        let ghost prefix = t@.subrange(0, i as int);
        if c == '"' {
            out.append("\\\"");
            proof {
                reveal_strlit("\\\"");
                assert("\\\""@ =~= escape_char(c));
            }
        } else if c == '\\' {
            out.append("\\\\");
            proof {
                reveal_strlit("\\\\");
                assert("\\\\"@ =~= escape_char(c));
            }
        } else if c == '\n' {
            out.append("\\n");
            proof {
                reveal_strlit("\\n");
                assert("\\n"@ =~= escape_char(c));
            }
        } else if c == '\r' {
            out.append("\\r");
            proof {
                reveal_strlit("\\r");
                assert("\\r"@ =~= escape_char(c));
            }
        } else if c == '\t' {
            out.append("\\t");
            proof {
                reveal_strlit("\\t");
                assert("\\t"@ =~= escape_char(c));
            }
        } else {
            crate::text::push_char(out, c);
        }
        proof {
            lemma_escape_snoc(prefix, c);
            assert(t@.subrange(0, i as int + 1).drop_last() =~= prefix);
            assert(t@.subrange(0, i as int + 1) =~= prefix.push(c));
            assert(out@ =~= old(out)@ + escape_string(t@.subrange(0, i as int + 1)));
        }
        i = i + 1;
    }
    proof {
        assert(t@.subrange(0, n as int) =~= t@);
    }
}

/// Writes a JSON value as text, in this library's canonical form: no
/// whitespace, object members in the order they stand in the value.
#[verifier::loop_isolation(false)]
pub fn render_json(j: &Json) -> (r: String)
    ensures
        r@ == render_spec(j@),
    decreases *j,
{
    match j {
        Json::Null => String::from_str("null"),
        Json::Bool(b) => if *b {
            String::from_str("true")
        } else {
            String::from_str("false")
        },
        Json::Num(t) => t.clone(),
        Json::Str(t) => {
            let mut out = String::from_str("\"");
            append_escaped(&mut out, t.as_str());
            out.append("\"");
            proof {
                reveal_strlit("\"");
                assert(out@ =~= render_spec(j@));
            }
            out
        },
        Json::Arr(items) => {
            let mut out = String::from_str("[");
            let n = items.len();
            let ghost m = arr_model(items@);
            let mut k: usize = 0;
            proof {
                reveal_strlit("[");
                assert(m.subrange(0, 0) =~= Seq::<JsonSpec>::empty());
                assert(render_items(Seq::<JsonSpec>::empty()) =~= Seq::<char>::empty());
                assert(out@ =~= seq!['['] + render_items(m.subrange(0, 0)));
            }
            while k < n
                invariant
                    0 <= k as int <= n as int,
                    n as nat == items@.len(),
                    *j == Json::Arr(*items),
                    m == arr_model(items@),
                    m.len() == items@.len(),
                    out@ == seq!['['] + render_items(m.subrange(0, k as int)),
                decreases n as int - k as int,
            {
                if k > 0 {
                    out.append(",");
                    proof {
                        reveal_strlit(",");
                    }
                }
                let sub = render_json(&items[k]);
                out.append(sub.as_str());
                proof {
                    assert(m.subrange(0, k as int + 1).last() == m[k as int]);
                    assert(m.subrange(0, k as int + 1).drop_last() =~= m.subrange(0, k as int));
                    if k == 0 {
                        assert(render_items(m.subrange(0, 1)) == render_spec(
                            m.subrange(0, 1)[0],
                        ));
                    }
                    assert(out@ =~= seq!['['] + render_items(m.subrange(0, k as int + 1)));
                }
                k = k + 1;
            }
            out.append("]");
            proof {
                reveal_strlit("]");
                assert(m.subrange(0, n as int) =~= m);
                assert(out@ =~= render_spec(j@));
            }
            out
        },
        Json::Obj(fields) => {
            let mut out = String::from_str("{");
            let n = fields.len();
            let ghost m = obj_model(fields@);
            let mut k: usize = 0;
            proof {
                reveal_strlit("{");
                assert(m.subrange(0, 0) =~= Seq::<(Seq<char>, JsonSpec)>::empty());
                assert(render_fields(Seq::<(Seq<char>, JsonSpec)>::empty())
                    =~= Seq::<char>::empty());
                assert(out@ =~= seq!['{'] + render_fields(m.subrange(0, 0)));
            }
            while k < n
                invariant
                    0 <= k as int <= n as int,
                    n as nat == fields@.len(),
                    *j == Json::Obj(*fields),
                    m == obj_model(fields@),
                    m.len() == fields@.len(),
                    out@ == seq!['{'] + render_fields(m.subrange(0, k as int)),
                decreases n as int - k as int,
            {
                if k > 0 {
                    out.append(",");
                    proof {
                        reveal_strlit(",");
                    }
                }
                out.append("\"");
                append_escaped(&mut out, fields[k].0.as_str());
                out.append("\":");
                let sub = render_json(&fields[k].1);
                out.append(sub.as_str());
                proof {
                    reveal_strlit("\"");
                    reveal_strlit("\":");
                    assert("\":"@ =~= seq!['"', ':']);
                    assert(m[k as int] == (fields[k as int].0@, fields[k as int].1@));
                    assert(m.subrange(0, k as int + 1).last() == m[k as int]);
                    assert(m.subrange(0, k as int + 1).drop_last() =~= m.subrange(0, k as int));
                    assert(render_field(m[k as int]) == seq!['"'] + escape_string(
                        fields[k as int].0@,
                    ) + seq!['"', ':'] + render_spec(fields[k as int].1@));
                    if k == 0 {
                        assert(render_fields(m.subrange(0, 1)) == render_field(
                            m.subrange(0, 1)[0],
                        ));
                    } else {
                        assert(render_fields(m.subrange(0, k as int + 1)) == render_fields(
                            m.subrange(0, k as int),
                        ) + seq![','] + render_field(m[k as int]));
                    }
                    assert(out@ =~= seq!['{'] + render_fields(m.subrange(0, k as int + 1)));
                }
                k = k + 1;
            }
            out.append("}");
            proof {
                reveal_strlit("}");
                assert(m.subrange(0, n as int) =~= m);
                assert(out@ =~= render_spec(j@));
            }
            out
        },
    }
}

} // verus!
