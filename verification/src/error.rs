//! The pipeline's error taxonomy: decode rejections, which surface to the
//! transport layer, and storage failures, which are rendered as payload data.
use crate::json::JsonValue;
use vstd::prelude::*;

verus! {

/// Why an inbound payload was rejected before any lookup ran.
#[derive(Debug, PartialEq, Eq, Structural, Clone, Copy)]
pub enum DecodeError {
    /// The payload is not an array.
    NotAnArray,
    /// An element of the array is not an object.
    NotAnObject,
    /// An element has no `owner` field holding a string.
    BadOwner,
    /// An element has no `name` field holding a string.
    BadName,
    /// An element has no `shardKey` field holding a non-negative integer.
    BadShardKey,
}

/// A storage-layer failure, carried as data: it is encoded into the response
/// payload, never raised as a transport fault.
#[derive(Debug, PartialEq)]
pub enum BucketsMdapiError {
    /// Any failure surfaced by the database driver, with its description.
    PostgresError(String),
}

/// The shape of an error object in an outbound payload: exactly a `name`
/// field holding the error kind and a `message` field holding its
/// description.
pub open spec fn is_error_obj(v: JsonValue, name: Seq<char>, msg: Seq<char>) -> bool {
    match v {
        JsonValue::Obj(fields) => {
            &&& fields@.len() == 2
            &&& fields@[0].0@ == "name"@
            &&& (match fields@[0].1 {
                JsonValue::Str(s) => s@ == name,
                _ => false,
            })
            &&& fields@[1].0@ == "message"@
            &&& (match fields@[1].1 {
                JsonValue::Str(s) => s@ == msg,
                _ => false,
            })
        },
        _ => false,
    }
}

impl BucketsMdapiError {
    /// The error kind under which a storage failure is reported.
    pub fn name(&self) -> (r: &'static str)
        ensures
            r@ == "PostgresError"@,
    {
        match self {
            BucketsMdapiError::PostgresError(_) => "PostgresError",
        }
    }

    /// Renders the error as the payload object the protocol promises:
    /// `{ name, message }`.
    pub fn into_fast(self) -> (v: JsonValue)
        ensures
            is_error_obj(v, "PostgresError"@, self->PostgresError_0@),
    {
        match self {
            BucketsMdapiError::PostgresError(msg) => {
                let mut fields: Vec<(String, JsonValue)> = Vec::new();
                fields.push(("name".to_owned(), JsonValue::Str("PostgresError".to_owned())));
                fields.push(("message".to_owned(), JsonValue::Str(msg)));
                JsonValue::Obj(fields)
            },
        }
    }
}

} // verus!
