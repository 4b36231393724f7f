//! The per-request lookup pipeline: decode the inbound payload, name the
//! shard's table, translate the executor's outcome, and assemble the one
//! outbound message.
use crate::bucket::{bucket_not_found, is_not_found_sentinel, is_record_obj, response, to_json};
use crate::error::{is_error_obj, BucketsMdapiError, DecodeError};
use crate::json::{array_wrap, get_key, key_of, JsonValue};
use crate::metrics::RegisteredMetrics;
use crate::sql::{dec_of, lemma_dec_of_injective, u64_to_dec};
use crate::types::{BucketResponse, GetBucketPayload, HandlerResponse, MessageStatus};
use vstd::prelude::*;

verus! {

/// A well-formed request object: `owner` and `name` strings and a
/// non-negative integer `shardKey`.
pub open spec fn wf_request_obj(v: JsonValue) -> bool {
    match v {
        JsonValue::Obj(fields) => {
            &&& key_of(fields@, "owner"@) matches Some(JsonValue::Str(_))
            &&& key_of(fields@, "name"@) matches Some(JsonValue::Str(_))
            &&& key_of(fields@, "shardKey"@) matches Some(JsonValue::Num(_))
        },
        _ => false,
    }
}

/// A well-formed inbound payload: an array of well-formed request objects.
pub open spec fn wf_get_payload(v: JsonValue) -> bool {
    match v {
        JsonValue::Arr(elems) => forall|i: int|
            0 <= i < elems@.len() ==> wf_request_obj(#[trigger] elems@[i]),
        _ => false,
    }
}

/// The first reason to reject one request object, if any, in the order the
/// fields are checked: `owner`, then `name`, then `shardKey`.
pub open spec fn elem_defect(v: JsonValue) -> Option<DecodeError> {
    match v {
        JsonValue::Obj(fields) => {
            if !(key_of(fields@, "owner"@) matches Some(JsonValue::Str(_))) {
                Some(DecodeError::BadOwner)
            } else if !(key_of(fields@, "name"@) matches Some(JsonValue::Str(_))) {
                Some(DecodeError::BadName)
            } else if !(key_of(fields@, "shardKey"@) matches Some(JsonValue::Num(_))) {
                Some(DecodeError::BadShardKey)
            } else {
                None
            }
        },
        _ => Some(DecodeError::NotAnObject),
    }
}

/// The first reason to reject any element of the payload array, if any.
pub open spec fn first_defect(elems: Seq<JsonValue>) -> Option<DecodeError>
    decreases elems.len(),
{
    if elems.len() == 0 {
        None
    } else if elem_defect(elems[0]) is Some {
        elem_defect(elems[0])
    } else {
        first_defect(elems.drop_first())
    }
}

/// The reason the whole inbound payload is rejected, if any.
pub open spec fn decode_defect(v: JsonValue) -> Option<DecodeError> {
    match v {
        JsonValue::Arr(elems) => first_defect(elems@),
        _ => Some(DecodeError::NotAnArray),
    }
}

/// A request object and its decoding agree field for field.
pub open spec fn decoded_matches(v: JsonValue, p: GetBucketPayload) -> bool {
    match v {
        JsonValue::Obj(fields) => {
            &&& (match key_of(fields@, "owner"@) {
                Some(JsonValue::Str(s)) => s@ == p.owner@,
                _ => false,
            })
            &&& (match key_of(fields@, "name"@) {
                Some(JsonValue::Str(s)) => s@ == p.name@,
                _ => false,
            })
            &&& key_of(fields@, "shardKey"@) == Some(JsonValue::Num(p.vnode))
        },
        _ => false,
    }
}

/// Scanning for a defect is unaffected by defect-free elements that come
/// before.
proof fn lemma_first_defect_skip(elems: Seq<JsonValue>, i: int)
    requires
        0 <= i <= elems.len(),
        forall|j: int| 0 <= j < i ==> elem_defect(#[trigger] elems[j]) is None,
    ensures
        first_defect(elems) == first_defect(elems.skip(i)),
    decreases i,
{
    if i > 0 {
        assert(elems.skip(i) =~= elems.drop_first().skip(i - 1));
        assert(forall|j: int|
            0 <= j < i - 1 ==> elems.drop_first()[j] == #[trigger] elems[j + 1]);
        lemma_first_defect_skip(elems.drop_first(), i - 1);
    } else {
        assert(elems.skip(0) =~= elems);
    }
}

/// Decodes one request object, or says why it is rejected.
fn decode_elem(v: &JsonValue) -> (r: Result<GetBucketPayload, DecodeError>)
    ensures
        r is Ok <==> elem_defect(*v) is None,
        r is Err ==> Some(r->Err_0) == elem_defect(*v),
        r is Ok ==> decoded_matches(*v, r->Ok_0),
{
    match v {
        JsonValue::Obj(fields) => {
            let owner = match get_key(fields, &"owner".to_owned()) {
                Some(JsonValue::Str(s)) => s.clone(),
                _ => {
                    return Err(DecodeError::BadOwner);
                },
            };
            let name = match get_key(fields, &"name".to_owned()) {
                Some(JsonValue::Str(s)) => s.clone(),
                _ => {
                    return Err(DecodeError::BadName);
                },
            };
            let vnode = match get_key(fields, &"shardKey".to_owned()) {
                Some(JsonValue::Num(n)) => *n,
                _ => {
                    return Err(DecodeError::BadShardKey);
                },
            };
            Ok(GetBucketPayload { owner, name, vnode })
        },
        _ => Err(DecodeError::NotAnObject),
    }
}

/// Decodes the inbound payload into the requests it carries.
///
/// Succeeds exactly on a well-formed payload: an array whose every element
/// holds `owner` and `name` strings and a non-negative integer `shardKey`.
/// Otherwise it reports the first defect found, scanning the elements in
/// order.
pub fn decode_msg(value: &JsonValue) -> (r: Result<Vec<GetBucketPayload>, DecodeError>)
    ensures
        r is Ok <==> decode_defect(*value) is None,
        r is Err ==> Some(r->Err_0) == decode_defect(*value),
        r is Ok ==> r->Ok_0@.len() == value->Arr_0@.len(),
        r is Ok ==> forall|i: int|
            0 <= i < value->Arr_0@.len() ==> decoded_matches(
                value->Arr_0@[i],
                #[trigger] r->Ok_0@[i],
            ),
{
    match value {
        JsonValue::Arr(elems) => {
            let mut out: Vec<GetBucketPayload> = Vec::new();
            let mut i: usize = 0;
            while i < elems.len()
                invariant
                    *value is Arr,
                    value->Arr_0 == *elems,
                    0 <= i <= elems@.len(),
                    out@.len() == i,
                    forall|j: int| 0 <= j < i ==> elem_defect(#[trigger] elems@[j]) is None,
                    forall|j: int|
                        0 <= j < i ==> decoded_matches(elems@[j], #[trigger] out@[j]),
                decreases elems@.len() - i,
            {
                match decode_elem(&elems[i]) {
                    Ok(p) => {
                        out.push(p);
                    },
                    Err(e) => {
                        proof {
                            lemma_first_defect_skip(elems@, i as int);
                            let s = elems@.skip(i as int);
                            assert(s[0] == elems@[i as int]);
                            assert(first_defect(s) == elem_defect(s[0]));
                        }
                        return Err(e);
                    },
                }
                i += 1;
            }
            proof {
                lemma_first_defect_skip(elems@, i as int);
                assert(elems@.skip(i as int) =~= Seq::<JsonValue>::empty());
            }
            Ok(out)
        },
        _ => Err(DecodeError::NotAnArray),
    }
}

/// Law: the payload codec accepts exactly the well-formed payloads.
pub proof fn lemma_decode_wellformed(v: JsonValue)
    ensures
        decode_defect(v) is None <==> wf_get_payload(v),
{
    match v {
        JsonValue::Arr(elems) => {
            lemma_first_defect_none(elems@);
        },
        _ => {},
    }
}

/// A defect-free element list is exactly one whose every element is
/// well-formed.
proof fn lemma_first_defect_none(elems: Seq<JsonValue>)
    ensures
        first_defect(elems) is None <==> forall|i: int|
            0 <= i < elems.len() ==> wf_request_obj(#[trigger] elems[i]),
    decreases elems.len(),
{
    if elems.len() > 0 {
        lemma_first_defect_none(elems.drop_first());
        assert(forall|i: int|
            0 <= i < elems.drop_first().len() ==> elems.drop_first()[i] == #[trigger] elems[i
                + 1]);
        if first_defect(elems) is None {
            assert forall|i: int| 0 <= i < elems.len() implies wf_request_obj(
                #[trigger] elems[i],
            ) by {
                if i > 0 {
                    assert(wf_request_obj(elems.drop_first()[i - 1]));
                }
            }
        }
        if forall|i: int| 0 <= i < elems.len() ==> wf_request_obj(#[trigger] elems[i]) {
            assert forall|i: int| 0 <= i < elems.drop_first().len() implies wf_request_obj(
                #[trigger] elems.drop_first()[i],
            ) by {
                assert(elems.drop_first()[i] == elems[i + 1]);
            }
        }
    }
}

/// The fixed head of every lookup query, up to the shard number.
pub open spec fn sql_prefix() -> Seq<char> {
    "SELECT id, owner, name, created FROM manta_bucket_"@
}

/// The fixed tail of every lookup query, after the shard number.
pub open spec fn sql_suffix() -> Seq<char> {
    ".manta_bucket WHERE owner = $1 AND name = $2"@
}

/// The lookup query against the table of shard `vnode`.
pub open spec fn sql_for(vnode: nat) -> Seq<char> {
    sql_prefix() + dec_of(vnode) + sql_suffix()
}

/// Names the shard's table and the lookup against it. The shard number is
/// rendered from a typed integer, so no caller-supplied text ever reaches
/// the composed identifier.
pub fn get_sql(vnode: u64) -> (s: String)
    ensures
        s@ == sql_for(vnode as nat),
{
    let mut s = "SELECT id, owner, name, created FROM manta_bucket_".to_owned();
    let digits = u64_to_dec(vnode);
    s.append(digits.as_str());
    s.append(".manta_bucket WHERE owner = $1 AND name = $2");
    proof {
        assert(s@ =~= sql_for(vnode as nat));
    }
    s
}

/// Law: shard resolution is injective. The table reference carries the
/// decimal representation of the shard key, and no two shard keys ever
/// compose the same reference.
pub proof fn lemma_get_sql_injective(k1: nat, k2: nat)
    requires
        sql_for(k1) == sql_for(k2),
    ensures
        k1 == k2,
{
    let p = sql_prefix();
    let q = sql_suffix();
    let d1 = dec_of(k1);
    let d2 = dec_of(k2);
    assert((p + d1 + q).len() == p.len() + d1.len() + q.len());
    assert((p + d2 + q).len() == p.len() + d2.len() + q.len());
    assert(d1.len() == d2.len());
    assert forall|i: int| 0 <= i < d1.len() implies d1[i] == d2[i] by {
        assert((p + d1 + q)[p.len() + i] == (p + d1)[p.len() + i]);
        assert((p + d1)[p.len() + i] == d1[i]);
        assert((p + d2 + q)[p.len() + i] == (p + d2)[p.len() + i]);
        assert((p + d2)[p.len() + i] == d2[i]);
    }
    assert(d1 =~= d2);
    lemma_dec_of_injective(k1, k2);
}

/// The tag under which the lookup records its one metrics observation.
pub open spec fn op_tag() -> Seq<char> {
    "bucketget"@
}

/// Records the lookup's one metrics observation and translates the
/// executor's outcome: rows become at most one record, a failure stays a
/// failure. Exactly one observation is appended whatever the outcome.
pub fn do_get(result: Result<Vec<BucketResponse>, String>, metrics: &mut RegisteredMetrics) -> (r:
    Result<Option<BucketResponse>, String>)
    ensures
        final(metrics)@ == old(metrics)@.push(op_tag()),
        r is Ok <==> result is Ok,
        result is Ok ==> (r->Ok_0 is None <==> result->Ok_0@.len() == 0),
        result is Ok && result->Ok_0@.len() > 0 ==> r->Ok_0 == Some(result->Ok_0@[0]),
        result is Err ==> r->Err_0 == result->Err_0,
{
    metrics.record("bucketget".to_owned());
    match result {
        Ok(rows) => Ok(response(&rows)),
        Err(e) => Err(e),
    }
}

/// Runs the tail of the pipeline on the executor's outcome and assembles the
/// one outbound message.
///
/// The message always correlates to the inbound request: same id, same
/// method. It is always a data message — found, not-found and storage
/// failure are told apart by the payload alone, never by a transport-level
/// error, so the result is always `Ok`.
pub fn action(
    msg_id: u32,
    method: &str,
    metrics: &mut RegisteredMetrics,
    result: Result<Vec<BucketResponse>, String>,
) -> (r: Result<HandlerResponse, String>)
    ensures
        r is Ok,
        r->Ok_0.status == MessageStatus::Data,
        r->Ok_0.id == msg_id,
        r->Ok_0.method@ == method@,
        r->Ok_0.payload@.len() == 1,
        final(metrics)@ == old(metrics)@.push(op_tag()),
        result is Ok && result->Ok_0@.len() > 0 ==> is_record_obj(
            r->Ok_0.payload@[0],
            result->Ok_0@[0],
        ),
        result is Ok && result->Ok_0@.len() == 0 ==> is_not_found_sentinel(r->Ok_0.payload@[0]),
        result is Err ==> is_error_obj(r->Ok_0.payload@[0], "PostgresError"@, result->Err_0@),
{
    match do_get(result, metrics) {
        Ok(maybe_resp) => {
            let value = match maybe_resp {
                Some(resp) => to_json(resp),
                None => bucket_not_found(),
            };
            Ok(
                HandlerResponse {
                    status: MessageStatus::Data,
                    id: msg_id,
                    method: method.to_owned(),
                    payload: array_wrap(value),
                },
            )
        },
        Err(e) => {
            let err = BucketsMdapiError::PostgresError(e);
            Ok(
                HandlerResponse {
                    status: MessageStatus::Data,
                    id: msg_id,
                    method: method.to_owned(),
                    payload: array_wrap(err.into_fast()),
                },
            )
        },
    }
}

} // verus!
