//! The JSON documents this dispatcher builds (provider request bodies) and
//! reads (provider response bodies), together with the trusted bridge to
//! `serde_json` that turns text into such a document and back.

use vstd::prelude::*;

verus! {

/// One JSON value. `Other` stands for the leaves the dispatcher neither
/// builds nor extracts content from — `null` and numbers; a parsed response
/// may hold them, but no request body the library builds does, and content
/// extraction treats them like any other non-string value.
pub enum JsonValue {
    Bool(bool),
    Str(String),
    Arr(Vec<JsonValue>),
    Obj(Vec<(String, JsonValue)>),
    Other,
}

/// The value under `key` in an object's pair list: the first pair whose key
/// matches. A document read back from text holds each key at most once, so
/// "first" is not a choice there.
pub open spec fn pairs_lookup(pairs: Seq<(String, JsonValue)>, key: Seq<char>) -> Option<JsonValue>
    decreases pairs.len(),
{
    if pairs.len() == 0 {
        None
    } else if pairs[0].0@ == key {
        Some(pairs[0].1)
    } else {
        pairs_lookup(pairs.skip(1), key)
    }
}

/// The member of an object under `key`; `None` on any non-object.
pub open spec fn spec_member(j: JsonValue, key: Seq<char>) -> Option<JsonValue> {
    match j {
        JsonValue::Obj(pairs) => pairs_lookup(pairs@, key),
        _ => None,
    }
}

/// The `i`-th element of an array; `None` on any non-array or out of range.
pub open spec fn spec_element(j: JsonValue, i: int) -> Option<JsonValue> {
    match j {
        JsonValue::Arr(items) => if 0 <= i < items@.len() {
            Some(items@[i])
        } else {
            None
        },
        _ => None,
    }
}

/// The characters of a string value; `None` on any non-string.
pub open spec fn spec_text(j: JsonValue) -> Option<Seq<char>> {
    match j {
        JsonValue::Str(s) => Some(s@),
        _ => None,
    }
}

/// `spec_member`, lifted to an optional document, for stating paths.
pub open spec fn member_of(o: Option<JsonValue>, key: Seq<char>) -> Option<JsonValue> {
    match o {
        Some(j) => spec_member(j, key),
        None => None,
    }
}

/// `spec_element`, lifted to an optional document.
pub open spec fn element_of(o: Option<JsonValue>, i: int) -> Option<JsonValue> {
    match o {
        Some(j) => spec_element(j, i),
        None => None,
    }
}

/// `spec_text`, lifted to an optional document.
pub open spec fn text_of(o: Option<JsonValue>) -> Option<Seq<char>> {
    match o {
        Some(j) => spec_text(j),
        None => None,
    }
}

/// Looks `key` up in an object, returning a borrow of the member.
pub fn member<'a>(j: &'a JsonValue, key: &str) -> (r: Option<&'a JsonValue>)
    ensures
        match r {
            Some(v) => spec_member(*j, key@) == Some(*v),
            None => spec_member(*j, key@) is None,
        },
{
    match j {
        JsonValue::Obj(pairs) => {
            let wanted: String = key.to_owned();
            let n = pairs.len();
            let mut i: usize = 0;
            proof {
                assert(pairs@.skip(0) =~= pairs@);
            }
            while i < n
                invariant
                    n == pairs@.len(),
                    i <= n,
                    wanted@ == key@,
                    spec_member(*j, key@) == pairs_lookup(pairs@, key@),
                    pairs_lookup(pairs@, key@) == pairs_lookup(pairs@.skip(i as int), key@),
                decreases n - i,
            {
                if pairs[i].0 == wanted {
                    proof {
                        assert(pairs@.skip(i as int)[0] == pairs@[i as int]);
                    }
                    return Some(&pairs[i].1);
                }
                proof {
                    assert(pairs@.skip(i as int).skip(1) =~= pairs@.skip(i as int + 1));
                }
                i = i + 1;
            }
            proof {
                assert(pairs@.skip(n as int) =~= Seq::<(String, JsonValue)>::empty());
            }
            None
        },
        _ => None,
    }
}

/// Returns a borrow of the `i`-th element of an array.
pub fn element<'a>(j: &'a JsonValue, i: usize) -> (r: Option<&'a JsonValue>)
    ensures
        match r {
            Some(v) => spec_element(*j, i as int) == Some(*v),
            None => spec_element(*j, i as int) is None,
        },
{
    match j {
        JsonValue::Arr(items) => if i < items.len() {
            Some(&items[i])
        } else {
            None
        },
        _ => None,
    }
}

/// Returns a borrow of the characters of a string value.
pub fn text<'a>(j: &'a JsonValue) -> (r: Option<&'a String>)
    ensures
        match r {
            Some(s) => spec_text(*j) == Some(s@),
            None => spec_text(*j) is None,
        },
{
    match j {
        JsonValue::Str(s) => Some(s),
        _ => None,
    }
}

#[verifier::external_type_specification]
#[verifier::external_body]
pub struct ExValue(serde_json::Value);

/// The document that `text` denotes, when it is well-formed JSON: what
/// `serde_json::from_str` accepts and yields depends on the text alone.
pub uninterp spec fn parsed_json(text: Seq<char>) -> Option<JsonValue>;

/// The serialized form of a document: what `serde_json` prints for a value
/// depends on the value alone.
pub uninterp spec fn json_text(j: JsonValue) -> Seq<char>;

/// Relies on `serde_json::Value`: each variant is carried over to its
/// counterpart here; `null` and numbers, which the dispatcher never reads
/// into content, both become `Other`.
#[verifier::external_body]
fn json_of_value(v: serde_json::Value) -> JsonValue {
    match v {
        serde_json::Value::Null => JsonValue::Other,
        serde_json::Value::Bool(b) => JsonValue::Bool(b),
        serde_json::Value::Number(_) => JsonValue::Other,
        serde_json::Value::String(s) => JsonValue::Str(s),
        serde_json::Value::Array(items) => JsonValue::Arr(
            items.into_iter().map(json_of_value).collect(),
        ),
        serde_json::Value::Object(pairs) => JsonValue::Obj(
            pairs.into_iter().map(|p| (p.0, json_of_value(p.1))).collect(),
        ),
    }
}

/// Relies on `serde_json::Value`: the reverse carry-over, used only on
/// documents the library built itself, which hold no `Other` leaf; an
/// `Other` leaf would serialize as `null`.
#[verifier::external_body]
fn value_of_json(j: &JsonValue) -> serde_json::Value {
    match j {
        JsonValue::Bool(b) => serde_json::Value::Bool(*b),
        JsonValue::Str(s) => serde_json::Value::String(s.clone()),
        JsonValue::Arr(items) => serde_json::Value::Array(
            items.iter().map(value_of_json).collect(),
        ),
        JsonValue::Obj(pairs) => serde_json::Value::Object(
            pairs.iter().map(|p| (p.0.clone(), value_of_json(&p.1))).collect(),
        ),
        JsonValue::Other => serde_json::Value::Null,
    }
}

/// Relies on `serde_json::from_str`: it parses the text as one JSON document,
/// deterministically, and rejects anything that is not valid JSON; its error
/// carries the parser's diagnostic.
#[verifier::external_body]
pub(crate) fn parse_json(text: &str) -> (r: Result<JsonValue, String>)
    ensures
        r is Ok <==> parsed_json(text@) is Some,
        r matches Ok(j) ==> parsed_json(text@) == Some(j),
{
    match serde_json::from_str::<serde_json::Value>(text) {
        Ok(v) => Ok(json_of_value(v)),
        Err(e) => Err(e.to_string()),
    }
}

/// Relies on `serde_json::Value`'s `Display`: it prints a value as compact
/// JSON, deterministically, and cannot fail.
#[verifier::external_body]
pub(crate) fn to_json_text(j: &JsonValue) -> (r: String)
    ensures
        r@ == json_text(*j),
{
    value_of_json(j).to_string()
}

} // verus!
