//! The trusted boundary to `serde_json`, and the library's own JSON tree.
//!
//! Stream payloads are self-tagged JSON documents.  `serde_json` parses
//! them; the parsed document is immediately lifted, variant for variant,
//! into [`JsonValue`], a plain tree the verified code can inspect.  What a
//! given document parses to takes pages to state, but it is a function of
//! the text alone, so the result carries the name [`parsed_json`]: every
//! contract about a payload speaks through that name, and the event
//! dispatch built on the tree is ordinary verified code (see the provider
//! modules).

use vstd::prelude::*;

verus! {

/// `serde_json::Value`, declared so that it can appear in the lifting
/// wrapper's signature; its contents are opaque to verification.
#[verifier::external_type_specification]
#[verifier::external_body]
pub struct ExValue(serde_json::Value);

/// A parsed JSON document, reduced to what the stream protocols read.
///
/// Numbers keep their value only when it is representable as `u64` (the
/// only way the protocols read numbers); any other number is
/// [`JsonValue::OtherNumber`].  Object entries carry distinct keys, in the
/// parser's (sorted) key order.
#[derive(Debug)]
pub enum JsonValue {
    Null,
    Bool(bool),
    UInt(u64),
    OtherNumber,
    Text(String),
    Array(Vec<JsonValue>),
    Object(Vec<(String, JsonValue)>),
}

/// The entry of an object's pair list under `key`; keys are distinct, so
/// the first match is the match.
pub open spec fn spec_obj_get(pairs: Seq<(String, JsonValue)>, key: Seq<char>) -> Option<
    JsonValue,
>
    decreases pairs.len(),
{
    if pairs.len() == 0 {
        None
    } else if pairs.first().0@ == key {
        Some(pairs.first().1)
    } else {
        spec_obj_get(pairs.drop_first(), key)
    }
}

/// The member of `j` under `key`: `None` for non-objects and missing keys.
pub open spec fn spec_get(j: JsonValue, key: Seq<char>) -> Option<JsonValue> {
    match j {
        JsonValue::Object(pairs) => spec_obj_get(pairs@, key),
        _ => None,
    }
}

impl JsonValue {
    /// Member lookup on a JSON object; `None` for non-objects and missing
    /// keys.
    pub fn get_field<'a>(&'a self, key: &str) -> (r: Option<&'a JsonValue>)
        ensures
            match r {
                Some(v) => spec_get(*self, key@) == Some(*v),
                None => spec_get(*self, key@) is None,
            },
    {
        match self {
            JsonValue::Object(pairs) => {
                let mut i: usize = 0;
                proof {
                    assert(pairs@.skip(0) =~= pairs@);
                }
                while i < pairs.len()
                    invariant
                        i <= pairs.len(),
                        spec_get(*self, key@) == spec_obj_get(pairs@, key@),
                        spec_obj_get(pairs@, key@) == spec_obj_get(pairs@.skip(i as int), key@),
                    decreases pairs.len() - i,
                {
                    proof {
                        assert(pairs@.skip(i as int).first() == pairs@[i as int]);
                        assert(pairs@.skip(i as int).drop_first() =~= pairs@.skip(i as int + 1));
                    }
                    if crate::strutil::str_eq(pairs[i].0.as_str(), key) {
                        proof {
                            assert(spec_obj_get(pairs@.skip(i as int), key@) == Some(
                                pairs@[i as int].1,
                            ));
                            assert(spec_get(*self, key@) == spec_obj_get(pairs@, key@));
                        }
                        return Some(&pairs[i].1);
                    }
                    i += 1;
                }
                proof {
                    assert(pairs@.skip(pairs@.len() as int) =~= Seq::<(String, JsonValue)>::empty());
                }
                None
            },
            _ => None,
        }
    }
}

/// What `serde_json` parses a document to, lifted into the library's tree:
/// a function of the text alone (`None` where the text is not one JSON
/// document).  The wrapper below is the only place this name is
/// established.
pub uninterp spec fn parsed_json(s: Seq<char>) -> Option<JsonValue>;

/// Relies on `serde_json::Value` being a closed enum: each variant moves
/// into the library's tree one for one (a number keeps its value exactly
/// when `Number::as_u64` has one).
#[verifier::external_body]
fn lift_json(v: serde_json::Value) -> JsonValue {
    match v {
        serde_json::Value::Null => JsonValue::Null,
        serde_json::Value::Bool(b) => JsonValue::Bool(b),
        serde_json::Value::Number(n) => match n.as_u64() {
            Some(u) => JsonValue::UInt(u),
            None => JsonValue::OtherNumber,
        },
        serde_json::Value::String(s) => JsonValue::Text(s),
        serde_json::Value::Array(a) => JsonValue::Array(a.into_iter().map(lift_json).collect()),
        serde_json::Value::Object(o) => JsonValue::Object(
            o.into_iter().map(|(k, member)| (k, lift_json(member))).collect(),
        ),
    }
}

/// Relies on `serde_json::from_str::<Value>`: parsing is deterministic in
/// the document text (object entries come back with distinct, sorted
/// keys), so the lifted result is exactly [`parsed_json`] of the text.
#[verifier::external_body]
pub fn parse_json(s: &str) -> (r: Option<JsonValue>)
    ensures
        r == parsed_json(s@),
{
    serde_json::from_str::<serde_json::Value>(s).ok().map(lift_json)
}

} // verus!
