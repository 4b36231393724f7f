//! Rendering lookup outcomes as payload objects, and translating raw rows
//! into at most one bucket record.
use crate::json::JsonValue;
use crate::types::BucketResponse;
use vstd::prelude::*;

verus! {

/// The shape of a found-bucket object in an outbound payload: exactly the
/// record's `id`, `owner`, `name` and `createdAt`, in that order.
pub open spec fn is_record_obj(v: JsonValue, rec: BucketResponse) -> bool {
    match v {
        JsonValue::Obj(fields) => {
            &&& fields@.len() == 4
            &&& fields@[0].0@ == "id"@
            &&& (match fields@[0].1 {
                JsonValue::Str(s) => s@ == rec.id@,
                _ => false,
            })
            &&& fields@[1].0@ == "owner"@
            &&& (match fields@[1].1 {
                JsonValue::Str(s) => s@ == rec.owner@,
                _ => false,
            })
            &&& fields@[2].0@ == "name"@
            &&& (match fields@[2].1 {
                JsonValue::Str(s) => s@ == rec.name@,
                _ => false,
            })
            &&& fields@[3].0@ == "createdAt"@
            &&& (match fields@[3].1 {
                JsonValue::Str(s) => s@ == rec.created@,
                _ => false,
            })
        },
        _ => false,
    }
}

/// The fixed sentinel that stands for "bucket does not exist": the empty
/// object, told from a record by the absence of an `id` field and from an
/// error by the absence of a `name` field.
pub open spec fn is_not_found_sentinel(v: JsonValue) -> bool {
    match v {
        JsonValue::Obj(fields) => fields@.len() == 0,
        _ => false,
    }
}

/// Renders a found bucket record as the payload object the protocol
/// promises: `{ id, owner, name, createdAt }`.
pub fn to_json(resp: BucketResponse) -> (v: JsonValue)
    ensures
        is_record_obj(v, resp),
{
    let mut fields: Vec<(String, JsonValue)> = Vec::new();
    fields.push(("id".to_owned(), JsonValue::Str(resp.id)));
    fields.push(("owner".to_owned(), JsonValue::Str(resp.owner)));
    fields.push(("name".to_owned(), JsonValue::Str(resp.name)));
    fields.push(("createdAt".to_owned(), JsonValue::Str(resp.created)));
    JsonValue::Obj(fields)
}

/// The sentinel payload for a bucket that does not exist.
pub fn bucket_not_found() -> (v: JsonValue)
    ensures
        is_not_found_sentinel(v),
{
    JsonValue::Obj(Vec::new())
}

/// Law: the three payload shapes a lookup can answer with — a found record,
/// the not-found sentinel, and a storage error — are pairwise distinct, so a
/// caller can tell the outcome from the payload alone.
pub proof fn lemma_payload_shapes_distinct(
    v: JsonValue,
    rec: BucketResponse,
    name: Seq<char>,
    msg: Seq<char>,
)
    ensures
        !(is_record_obj(v, rec) && is_not_found_sentinel(v)),
        !(is_record_obj(v, rec) && crate::error::is_error_obj(v, name, msg)),
        !(is_not_found_sentinel(v) && crate::error::is_error_obj(v, name, msg)),
{
}

/// Translates the rows of one lookup into at most one record: no row means
/// the bucket does not exist; otherwise the first row is the record.
/// Uniqueness of `(owner, name)` within a shard is the storage schema's
/// business, so a second row is ignored rather than refused.
pub fn response(rows: &Vec<BucketResponse>) -> (r: Option<BucketResponse>)
    ensures
        rows@.len() == 0 <==> r is None,
        rows@.len() > 0 ==> r == Some(rows@[0]),
{
    if rows.len() == 0 {
        None
    } else {
        Some(rows[0].duplicate())
    }
}

} // verus!
