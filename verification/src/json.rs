//! A plain JSON value model, and parsing of response bodies into it.
//!
//! The service answers with JSON text. Parsing the text is delegated to the
//! `serde_json` crate behind a small trusted boundary; everything that reads
//! the parsed value (field lookup, shape checks, the decoding of the response
//! model) is the library's own verified logic over [`JsonNode`].

use vstd::prelude::*;

verus! {

/// Declares `serde_json::Value` so that it may appear in the signature of the
/// trusted conversion below; the value stays opaque to the verifier.
#[verifier::external_type_specification]
#[verifier::external_body]
pub struct ExValue(serde_json::Value);

/// One JSON value, held as plain data that verified code can inspect.
///
/// An object is a sequence of key/value pairs in the order the parser hands
/// them out; keys coming from one parsed object are distinct. A number that is
/// not a non-negative integer fitting `u64` (the only numbers the response
/// model uses) is kept as [`JsonNode::OtherNum`] so that decoding can reject
/// it as a wrong type without modelling its value.
pub enum JsonNode {
    Null,
    Bool(bool),
    UInt(u64),
    OtherNum,
    Str(String),
    Arr(Vec<JsonNode>),
    Obj(Vec<(String, JsonNode)>),
}

/// Relies on `serde_json::Value`'s public enum shape: each variant is carried
/// over one for one, numbers through `Number::as_u64`.
#[verifier::external_body]
fn node_of_value(v: serde_json::Value) -> JsonNode {
    match v {
        serde_json::Value::Null => JsonNode::Null,
        serde_json::Value::Bool(b) => JsonNode::Bool(b),
        serde_json::Value::Number(n) => match n.as_u64() {
            Some(u) => JsonNode::UInt(u),
            None => JsonNode::OtherNum,
        },
        serde_json::Value::String(s) => JsonNode::Str(s),
        serde_json::Value::Array(a) => JsonNode::Arr(a.into_iter().map(node_of_value).collect()),
        serde_json::Value::Object(m) => JsonNode::Obj(
            m.into_iter().map(|(k, w)| (k, node_of_value(w))).collect(),
        ),
    }
}

/// The parse of a JSON text: `None` where the parser rejects the text,
/// otherwise the parsed value. `serde_json::from_str` computes it from the
/// text alone, so the result bears a name rather than a definition.
pub uninterp spec fn json_of(s: Seq<char>) -> Option<JsonNode>;

/// Relies on `serde_json::from_str::<serde_json::Value>`: the parse result
/// depends on the input text alone.
#[verifier::external_body]
pub(crate) fn parse_json(s: &str) -> (r: Option<JsonNode>)
    ensures
        r == json_of(s@),
{
    serde_json::from_str::<serde_json::Value>(s).ok().map(node_of_value)
}

/// The value of the first field named `key`, if any.
pub open spec fn lookup(fields: Seq<(String, JsonNode)>, key: Seq<char>) -> Option<JsonNode>
    decreases fields.len(),
{
    if fields.len() == 0 {
        Option::None
    } else if fields[0].0@ == key {
        Option::Some(fields[0].1)
    } else {
        lookup(fields.drop_first(), key)
    }
}

/// Finds the first field named `key`, per [`lookup`].
pub fn lookup_field<'a>(fields: &'a Vec<(String, JsonNode)>, key: &str) -> (r: Option<
    &'a JsonNode,
>)
    ensures
        match r {
            Option::Some(n) => lookup(fields@, key@) == Option::Some(*n),
            Option::None => lookup(fields@, key@) is None,
        },
{
    let owned_key: String = key.to_owned();
    let n = fields.len();
    proof {
        assert(fields@.skip(0) =~= fields@);
    }
    for i in 0..n
        invariant
            n == fields@.len(),
            owned_key@ == key@,
            lookup(fields@, key@) == lookup(fields@.skip(i as int), key@),
    {
        proof {
            assert(fields@.skip(i as int).len() > 0);
            assert(fields@.skip(i as int)[0] == fields@[i as int]);
            assert(fields@.skip(i as int).drop_first() =~= fields@.skip(i + 1));
        }
        if fields[i].0 == owned_key {
            return Some(&fields[i].1);
        }
    }
    proof {
        assert(fields@.skip(n as int).len() == 0);
    }
    None
}

} // verus!
