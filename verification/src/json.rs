//! A parsed JSON document, modelled as a tree of plain values.

use vstd::prelude::*;

verus! {

broadcast use vstd::std_specs::vec::group_vec_axioms;

/// One parsed JSON value.
///
/// Numbers are split by how the rest of the library reads them: integers
/// that fit `i64`, larger positive integers, and any other number kept in
/// its textual form.
#[derive(Debug)]
#[verifier::ext_equal]
pub enum Json {
    Null,
    Bool(bool),
    Int(i64),
    UInt(u64),
    Decimal(String),
    Str(String),
    Arr(Vec<Json>),
    Obj(Vec<(String, Json)>),
}

impl Clone for Json {
    /// A structurally equal tree; specifications claim nothing of it.
    fn clone(&self) -> (r: Json)
        decreases *self,
    {
        match self {
            Json::Null => Json::Null,
            Json::Bool(b) => Json::Bool(*b),
            Json::Int(i) => Json::Int(*i),
            Json::UInt(u) => Json::UInt(*u),
            Json::Decimal(s) => Json::Decimal(s.clone()),
            Json::Str(s) => Json::Str(s.clone()),
            Json::Arr(elems) => {
                let n = elems.len();
                let mut out: Vec<Json> = Vec::new();
                let mut i: usize = 0;
                while i < n
                    invariant
                        i <= n,
                        n == elems@.len(),
                        *self == Json::Arr(*elems),
                    decreases n - i,
                {
                    proof {
                        assert(decreases_to!(*self => self->Arr_0));
                        assert(decreases_to!(*elems => elems@));
                        assert(decreases_to!(elems@ => elems@[i as int]));
                        assert(decreases_to!(*self => elems@[i as int]));
                    }
                    out.push(elems[i].clone());
                    i += 1;
                }
                Json::Arr(out)
            },
            Json::Obj(fields) => {
                let n = fields.len();
                let mut out: Vec<(String, Json)> = Vec::new();
                let mut i: usize = 0;
                while i < n
                    invariant
                        i <= n,
                        n == fields@.len(),
                        *self == Json::Obj(*fields),
                    decreases n - i,
                {
                    let p = &fields[i];
                    proof {
                        assert(decreases_to!(*self => self->Obj_0));
                        assert(decreases_to!(*fields => fields@));
                        assert(decreases_to!(fields@ => fields@[i as int]));
                        assert(decreases_to!(fields@[i as int] => fields@[i as int].1));
                        assert(decreases_to!(*self => fields@[i as int].1));
                    }
                    out.push((p.0.clone(), p.1.clone()));
                    i += 1;
                }
                Json::Obj(out)
            },
        }
    }
}

/// The first value bound to `key`, searching the field list front to back.
pub open spec fn lookup_field(fields: Seq<(String, Json)>, key: Seq<char>) -> Option<Json>
    decreases fields.len(),
{
    if fields.len() == 0 {
        None
    } else if fields[0].0@ == key {
        Some(fields[0].1)
    } else {
        lookup_field(fields.drop_first(), key)
    }
}

/// The value of field `key` when `j` is an object that carries that field.
pub open spec fn json_field(j: Json, key: Seq<char>) -> Option<Json> {
    match j {
        Json::Obj(fields) => lookup_field(fields@, key),
        _ => None,
    }
}

/// String equality over the character views.
pub fn str_eq(a: &str, b: &str) -> (r: bool)
    ensures
        r == (a@ == b@),
{
    let sa = a.to_owned();
    let sb = b.to_owned();
    sa == sb
}

/// The field named `key` of object `j`, when there is one.
pub fn get_field<'a>(j: &'a Json, key: &str) -> (r: Option<&'a Json>)
    ensures
        match r {
            Some(v) => json_field(*j, key@) == Some(*v),
            None => json_field(*j, key@) is None,
        },
{
    match j {
        Json::Obj(fields) => {
            let n = fields.len();
            assert(fields@.subrange(0, n as int) =~= fields@);
            let mut i: usize = 0;
            while i < n
                invariant
                    i <= n,
                    n == fields@.len(),
                    json_field(*j, key@) == lookup_field(fields@, key@),
                    lookup_field(fields@, key@) == lookup_field(
                        fields@.subrange(i as int, n as int),
                        key@,
                    ),
                decreases n - i,
            {
                let p = &fields[i];
                assert(*p == fields@[i as int]);
                let hit = str_eq(p.0.as_str(), key);
                proof {
                    assert(fields@.subrange(i as int, n as int)[0] == fields@[i as int]);
                    assert(fields@.subrange(i as int, n as int).drop_first() =~= fields@.subrange(
                        i + 1 as int,
                        n as int,
                    ));
                }
                if hit {
                    proof {
                        assert(lookup_field(fields@.subrange(i as int, n as int), key@)
                            == Some(fields@[i as int].1));
                    }
                    return Some(&p.1);
                }
                i += 1;
            }
            None
        },
        _ => None,
    }
}

/// Relies on `String: FromIterator<char>`: the returned string holds exactly
/// the given characters, in order.
#[verifier::external_body]
pub fn string_from_chars(v: &Vec<char>) -> (r: String)
    ensures
        r@ == v@,
{
    v.iter().collect()
}

/// Why one inbound line yields no response: the line is not valid JSON, it
/// lacks a usable `type` field, or the payload of the named kind has the
/// wrong shape.
#[derive(Clone, Debug)]
pub enum DecodeError {
    Syntax,
    MissingType,
    BadPayload(String),
}

/// `serde_json`'s parsed document type, opaque to the verifier; values of
/// it only pass from the parser into the conversion below.
#[verifier::external_type_specification]
#[verifier::external_body]
pub struct ExValue(serde_json::Value);

/// What `serde_json::from_str` yields on one line, converted into the
/// library's `Json` tree: a function of the characters alone.
pub uninterp spec fn parsed_line(s: Seq<char>) -> Result<Json, DecodeError>;

/// Converts a parsed `serde_json::Value`, one variant arm each, into the
/// library's `Json` tree.
#[verifier::external_body]
fn json_of_value(v: serde_json::Value) -> Json {
    match v {
        serde_json::Value::Null => Json::Null,
        serde_json::Value::Bool(b) => Json::Bool(b),
        serde_json::Value::Number(n) => match (n.as_i64(), n.as_u64()) {
            (Some(i), _) => Json::Int(i),
            (None, Some(u)) => Json::UInt(u),
            (None, None) => Json::Decimal(n.to_string()),
        },
        serde_json::Value::String(s) => Json::Str(s),
        serde_json::Value::Array(a) => Json::Arr(a.into_iter().map(json_of_value).collect()),
        serde_json::Value::Object(o) => Json::Obj(
            o.into_iter().map(|(k, v)| (k, json_of_value(v))).collect(),
        ),
    }
}

/// Relies on `serde_json::from_str`: parses one line as a JSON document;
/// the converted result is named by `parsed_line`.
#[verifier::external_body]
pub fn parse_line(s: &str) -> (r: Result<Json, DecodeError>)
    ensures
        r == parsed_line(s@),
{
    match serde_json::from_str::<serde_json::Value>(s) {
        Ok(v) => Ok(json_of_value(v)),
        Err(_) => Err(DecodeError::Syntax),
    }
}

} // verus!
