use vstd::prelude::*;

verus! {

/// A JSON document as `serde_json` holds it. The library carries such values
/// (permissions, product features, content metadata) through unchanged and
/// never looks inside them.
#[verifier::external_type_specification]
#[verifier::external_body]
pub struct ExJsonValue(serde_json::Value);

/// A JSON value to store: the one the caller sent, or the empty object `{}`
/// or the empty array `[]` put in its place when none was sent.
pub enum JsonField {
    Sent(serde_json::Value),
    EmptyObject,
    EmptyArray,
}

/// What is stored for an optional JSON field: the value sent, else `default`.
pub open spec fn sent_or(sent: Option<serde_json::Value>, default: JsonField) -> JsonField {
    match sent {
        Some(v) => JsonField::Sent(v),
        None => default,
    }
}

/// The value sent, or the empty object `{}` when none was sent.
pub fn or_empty_object(sent: Option<serde_json::Value>) -> (r: JsonField)
    ensures
        r == sent_or(sent, JsonField::EmptyObject),
{
    match sent {
        Some(v) => JsonField::Sent(v),
        None => JsonField::EmptyObject,
    }
}

/// The value sent, or the empty array `[]` when none was sent.
pub fn or_empty_array(sent: Option<serde_json::Value>) -> (r: JsonField)
    ensures
        r == sent_or(sent, JsonField::EmptyArray),
{
    match sent {
        Some(v) => JsonField::Sent(v),
        None => JsonField::EmptyArray,
    }
}

} // verus!
