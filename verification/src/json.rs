//! The JSON replies of the music API, as the library reads them: a reply body is parsed once
//! into a `Json` tree, and fields are read from it the way `serde_json`'s indexing and `as_*`
//! accessors read them (a missing field, or a field of a value that is not an object, reads as
//! nothing).
use vstd::prelude::*;
use crate::text::{chars_eq_str, chars_of};

verus! {

#[verifier::external_type_specification]
#[verifier::external_body]
pub struct ExJsonValue(serde_json::Value);

/// A JSON value. A number keeps what `serde_json::Number::as_u64` gives of it; the keys of an
/// object come in the order `serde_json` keeps them, each once.
#[derive(Debug)]
pub enum Json {
    Null,
    Bool(bool),
    Number(Option<u64>),
    Str(String),
    Array(Vec<Json>),
    Object(Vec<(String, Json)>),
}

/// What `serde_json::from_slice::<serde_json::Value>` gives for a reply body: the value, or
/// nothing when the body is not JSON.
pub uninterp spec fn parsed_json(body: Seq<u8>) -> Option<Json>;

/// A `serde_json::Value` as a `Json`, variant by variant.
#[verifier::external_body]
fn json_of_value(v: &serde_json::Value) -> Json {
    match v {
        serde_json::Value::Null => Json::Null,
        serde_json::Value::Bool(b) => Json::Bool(*b),
        serde_json::Value::Number(n) => Json::Number(n.as_u64()),
        serde_json::Value::String(s) => Json::Str(s.clone()),
        serde_json::Value::Array(a) => Json::Array(a.iter().map(json_of_value).collect()),
        serde_json::Value::Object(o) => Json::Object(o.iter().map(|(k, x)| (k.clone(), json_of_value(x))).collect()),
    }
}

/// `serde_json::from_slice` of a reply body into a `serde_json::Value`, converted to a `Json`.
/// The contract names the result; JSON's grammar is not written out.
#[verifier::external_body]
pub(crate) fn parse_json(body: &[u8]) -> (r: Option<Json>)
    ensures
        r == parsed_json(body@),
{
    serde_json::from_slice::<serde_json::Value>(body).ok().map(|v| json_of_value(&v))
}

/// The value under `key` among the pairs of an object: the first pair with that key.
pub open spec fn lookup(pairs: Seq<(String, Json)>, key: Seq<char>) -> Option<Json>
    decreases pairs.len(),
{
    if pairs.len() == 0 {
        None
    } else if pairs[0].0@ == key {
        Some(pairs[0].1)
    } else {
        lookup(pairs.drop_first(), key)
    }
}

/// `value[key]`: the field of an object, nothing otherwise (`None` stands for JSON's null).
pub open spec fn get(j: Option<Json>, key: Seq<char>) -> Option<Json> {
    match j {
        Some(Json::Object(pairs)) => lookup(pairs@, key),
        _ => None,
    }
}

/// `value[i]`: an element of an array, nothing otherwise.
pub open spec fn item(j: Option<Json>, i: int) -> Option<Json> {
    match j {
        Some(Json::Array(a)) => if 0 <= i < a@.len() {
            Some(a@[i])
        } else {
            None
        },
        _ => None,
    }
}

/// `value.as_str()`.
pub open spec fn as_str(j: Option<Json>) -> Option<Seq<char>> {
    match j {
        Some(Json::Str(s)) => Some(s@),
        _ => None,
    }
}

/// `value.as_u64()`.
pub open spec fn as_u64(j: Option<Json>) -> Option<u64> {
    match j {
        Some(Json::Number(n)) => n,
        _ => None,
    }
}

/// `value.as_bool()`.
pub open spec fn as_bool(j: Option<Json>) -> Option<bool> {
    match j {
        Some(Json::Bool(b)) => Some(b),
        _ => None,
    }
}

/// `value.as_array()`.
pub open spec fn as_array(j: Option<Json>) -> Option<Seq<Json>> {
    match j {
        Some(Json::Array(a)) => Some(a@),
        _ => None,
    }
}

/// A borrowed value as a value.
pub open spec fn deref(j: Option<&Json>) -> Option<Json> {
    match j {
        Some(x) => Some(*x),
        None => None,
    }
}

/// `value[key]`.
pub fn json_get<'a>(j: Option<&'a Json>, key: &str) -> (r: Option<&'a Json>)
    ensures
        deref(r) == get(deref(j), key@),
{
    let v = match j {
        Some(v) => v,
        None => return None,
    };
    assert(deref(j) == Some(*v));
    match v {
        Json::Object(pairs) => {
            let mut i: usize = 0;
            assert(pairs@.skip(0) =~= pairs@);
            while i < pairs.len()
                invariant
                    i <= pairs.len(),
                    get(deref(j), key@) == lookup(pairs@, key@),
                    lookup(pairs@, key@) == lookup(pairs@.skip(i as int), key@),
                decreases pairs.len() - i,
            {
                let rest = Ghost(pairs@.skip(i as int));
                assert(rest@.drop_first() =~= pairs@.skip(i + 1));
                assert(rest@[0] == pairs@[i as int]);
                let name = chars_of(pairs[i].0.as_str());
                if chars_eq_str(&name, key) {
                    assert(rest@[0].0@ == key@);
                    assert(lookup(rest@, key@) == Some(pairs@[i as int].1));
                    let found = Some(&pairs[i].1);
                    assert(deref(found) == Some(pairs@[i as int].1));
                    return found;
                }
                i += 1;
            }
            None
        },
        _ => None,
    }
}

/// `value[i]`.
pub fn json_item<'a>(j: Option<&'a Json>, i: usize) -> (r: Option<&'a Json>)
    ensures
        deref(r) == item(deref(j), i as int),
{
    match j {
        Some(Json::Array(a)) => if i < a.len() {
            Some(&a[i])
        } else {
            None
        },
        _ => None,
    }
}

/// `value.as_str()`, copied.
pub fn json_str(j: Option<&Json>) -> (r: Option<String>)
    ensures
        match r {
            Some(s) => as_str(deref(j)) == Some(s@),
            None => as_str(deref(j)) is None,
        },
{
    match j {
        Some(Json::Str(s)) => Some(s.clone()),
        _ => None,
    }
}

/// `value.as_u64()`.
pub fn json_u64(j: Option<&Json>) -> (r: Option<u64>)
    ensures
        r == as_u64(deref(j)),
{
    match j {
        Some(Json::Number(n)) => *n,
        _ => None,
    }
}

/// `value.as_bool()`.
pub fn json_bool(j: Option<&Json>) -> (r: Option<bool>)
    ensures
        r == as_bool(deref(j)),
{
    match j {
        Some(Json::Bool(b)) => Some(*b),
        _ => None,
    }
}

/// `value.as_array()`.
pub fn json_array<'a>(j: Option<&'a Json>) -> (r: Option<&'a Vec<Json>>)
    ensures
        match r {
            Some(a) => as_array(deref(j)) == Some(a@),
            None => as_array(deref(j)) is None,
        },
{
    match j {
        Some(Json::Array(a)) => Some(a),
        _ => None,
    }
}

/// The status code of a reply, `code`.
pub open spec fn reply_code(j: Option<Json>) -> Option<u64> {
    as_u64(get(j, "code"@))
}

} // verus!
