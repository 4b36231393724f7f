use buckets_mdapi::bucket::{bucket_not_found, response, to_json};
use buckets_mdapi::error::{BucketsMdapiError, DecodeError};
use buckets_mdapi::get::{action, decode_msg, do_get, get_sql};
use buckets_mdapi::json::{array_wrap, JsonValue};
use buckets_mdapi::metrics::RegisteredMetrics;
use buckets_mdapi::sql::u64_to_dec;
use buckets_mdapi::types::{BucketResponse, GetBucketPayload, MessageStatus};

fn request_obj(owner: &str, name: &str, shard_key: u64) -> JsonValue {
    JsonValue::Obj(vec![
        ("owner".to_string(), JsonValue::Str(owner.to_string())),
        ("name".to_string(), JsonValue::Str(name.to_string())),
        ("shardKey".to_string(), JsonValue::Num(shard_key)),
    ])
}

fn sample_row() -> BucketResponse {
    BucketResponse {
        id: "b1".to_string(),
        owner: "alice".to_string(),
        name: "pics".to_string(),
        created: "2020-01-02T03:04:05Z".to_string(),
    }
}

fn record_payload(id: &str, owner: &str, name: &str, created_at: &str) -> JsonValue {
    JsonValue::Obj(vec![
        ("id".to_string(), JsonValue::Str(id.to_string())),
        ("owner".to_string(), JsonValue::Str(owner.to_string())),
        ("name".to_string(), JsonValue::Str(name.to_string())),
        ("createdAt".to_string(), JsonValue::Str(created_at.to_string())),
    ])
}

fn error_payload(name: &str, message: &str) -> JsonValue {
    JsonValue::Obj(vec![
        ("name".to_string(), JsonValue::Str(name.to_string())),
        ("message".to_string(), JsonValue::Str(message.to_string())),
    ])
}

#[test]
fn u64_to_dec_renders_decimal() {
    assert_eq!(u64_to_dec(0).as_str(), "0");
    assert_eq!(u64_to_dec(7).as_str(), "7");
    assert_eq!(u64_to_dec(12345).as_str(), "12345");
    assert_eq!(u64_to_dec(u64::MAX).as_str(), "18446744073709551615");
}

#[test]
fn get_sql_names_the_shard_table() {
    assert_eq!(
        get_sql(0).as_str(),
        "SELECT id, owner, name, created FROM manta_bucket_0.manta_bucket \
         WHERE owner = $1 AND name = $2"
    );
    assert_eq!(
        get_sql(42).as_str(),
        "SELECT id, owner, name, created FROM manta_bucket_42.manta_bucket \
         WHERE owner = $1 AND name = $2"
    );
}

#[test]
fn get_sql_distinct_shards_distinct_tables() {
    assert_ne!(get_sql(1), get_sql(10));
    assert_ne!(get_sql(0), get_sql(100));
    assert_ne!(get_sql(12), get_sql(21));
}

#[test]
fn decode_wellformed_succeeds() {
    let v = JsonValue::Arr(vec![request_obj("alice", "pics", 7)]);
    let r = decode_msg(&v).unwrap();
    assert_eq!(
        r,
        vec![GetBucketPayload {
            owner: "alice".to_string(),
            name: "pics".to_string(),
            vnode: 7,
        }]
    );
}

#[test]
fn decode_empty_array_succeeds() {
    let v = JsonValue::Arr(vec![]);
    assert_eq!(decode_msg(&v).unwrap(), vec![]);
}

#[test]
fn decode_non_array_fails() {
    assert_eq!(decode_msg(&JsonValue::Null), Err(DecodeError::NotAnArray));
    assert_eq!(
        decode_msg(&request_obj("alice", "pics", 7)),
        Err(DecodeError::NotAnArray)
    );
}

#[test]
fn decode_non_object_element_fails() {
    let v = JsonValue::Arr(vec![JsonValue::Str("nope".to_string())]);
    assert_eq!(decode_msg(&v), Err(DecodeError::NotAnObject));
}

#[test]
fn decode_missing_owner_fails() {
    let v = JsonValue::Arr(vec![JsonValue::Obj(vec![
        ("name".to_string(), JsonValue::Str("pics".to_string())),
        ("shardKey".to_string(), JsonValue::Num(7)),
    ])]);
    assert_eq!(decode_msg(&v), Err(DecodeError::BadOwner));
}

#[test]
fn decode_missing_name_fails() {
    let v = JsonValue::Arr(vec![JsonValue::Obj(vec![
        ("owner".to_string(), JsonValue::Str("alice".to_string())),
        ("shardKey".to_string(), JsonValue::Num(7)),
    ])]);
    assert_eq!(decode_msg(&v), Err(DecodeError::BadName));
}

#[test]
fn decode_missing_shard_key_fails() {
    let v = JsonValue::Arr(vec![JsonValue::Obj(vec![
        ("owner".to_string(), JsonValue::Str("alice".to_string())),
        ("name".to_string(), JsonValue::Str("pics".to_string())),
    ])]);
    assert_eq!(decode_msg(&v), Err(DecodeError::BadShardKey));
}

#[test]
fn decode_non_integer_shard_key_fails() {
    let v = JsonValue::Arr(vec![JsonValue::Obj(vec![
        ("owner".to_string(), JsonValue::Str("alice".to_string())),
        ("name".to_string(), JsonValue::Str("pics".to_string())),
        ("shardKey".to_string(), JsonValue::OtherNum),
    ])]);
    assert_eq!(decode_msg(&v), Err(DecodeError::BadShardKey));
    let w = JsonValue::Arr(vec![JsonValue::Obj(vec![
        ("owner".to_string(), JsonValue::Str("alice".to_string())),
        ("name".to_string(), JsonValue::Str("pics".to_string())),
        ("shardKey".to_string(), JsonValue::Str("7".to_string())),
    ])]);
    assert_eq!(decode_msg(&w), Err(DecodeError::BadShardKey));
}

#[test]
fn decode_reports_first_defective_element() {
    let v = JsonValue::Arr(vec![
        request_obj("alice", "pics", 7),
        JsonValue::Bool(true),
        JsonValue::Obj(vec![]),
    ]);
    assert_eq!(decode_msg(&v), Err(DecodeError::NotAnObject));
}

#[test]
fn response_zero_rows_is_none() {
    assert_eq!(response(&vec![]), None);
}

#[test]
fn response_one_row_is_that_record() {
    assert_eq!(response(&vec![sample_row()]), Some(sample_row()));
}

#[test]
fn response_extra_rows_take_the_first() {
    let second = BucketResponse {
        id: "b2".to_string(),
        owner: "alice".to_string(),
        name: "pics".to_string(),
        created: "2021-01-01T00:00:00Z".to_string(),
    };
    assert_eq!(response(&vec![sample_row(), second]), Some(sample_row()));
}

#[test]
fn to_json_renders_record() {
    assert_eq!(
        to_json(sample_row()),
        record_payload("b1", "alice", "pics", "2020-01-02T03:04:05Z")
    );
}

#[test]
fn bucket_not_found_is_empty_object() {
    assert_eq!(bucket_not_found(), JsonValue::Obj(vec![]));
}

#[test]
fn into_fast_renders_error() {
    let e = BucketsMdapiError::PostgresError("connection reset".to_string());
    assert_eq!(e.into_fast(), error_payload("PostgresError", "connection reset"));
}

#[test]
fn array_wrap_makes_one_element_payload() {
    assert_eq!(array_wrap(JsonValue::Null), vec![JsonValue::Null]);
}

#[test]
fn do_get_translates_and_records_once() {
    let mut m = RegisteredMetrics::new();
    assert_eq!(do_get(Ok(vec![]), &mut m), Ok(None));
    assert_eq!(do_get(Ok(vec![sample_row()]), &mut m), Ok(Some(sample_row())));
    assert_eq!(
        do_get(Err("boom".to_string()), &mut m),
        Err("boom".to_string())
    );
    assert_eq!(m.observations().len(), 3);
    assert_eq!(m.observations()[0].as_str(), "bucketget");
}

#[test]
fn action_zero_rows_is_not_found_data_message() {
    let mut m = RegisteredMetrics::new();
    let msg = action(7, "getbucket", &mut m, Ok(vec![])).unwrap();
    assert_eq!(msg.status, MessageStatus::Data);
    assert_eq!(msg.id, 7);
    assert_eq!(msg.method.as_str(), "getbucket");
    assert_eq!(msg.payload, vec![JsonValue::Obj(vec![])]);
}

#[test]
fn action_one_row_is_record_message() {
    let mut m = RegisteredMetrics::new();
    let msg = action(8, "getbucket", &mut m, Ok(vec![sample_row()])).unwrap();
    assert_eq!(msg.status, MessageStatus::Data);
    assert_eq!(msg.id, 8);
    assert_eq!(msg.method.as_str(), "getbucket");
    assert_eq!(
        msg.payload,
        vec![record_payload("b1", "alice", "pics", "2020-01-02T03:04:05Z")]
    );
}

#[test]
fn action_storage_failure_is_still_data_message() {
    let mut m = RegisteredMetrics::new();
    let r = action(9, "getbucket", &mut m, Err("connection reset".to_string()));
    let msg = r.unwrap();
    assert_eq!(msg.status, MessageStatus::Data);
    assert_eq!(msg.id, 9);
    assert_eq!(msg.method.as_str(), "getbucket");
    assert_eq!(
        msg.payload,
        vec![error_payload("PostgresError", "connection reset")]
    );
}

#[test]
fn action_preserves_id_and_method_on_every_outcome() {
    for (id, outcome) in [
        (1u32, Ok(vec![])),
        (2u32, Ok(vec![sample_row()])),
        (3u32, Err("nope".to_string())),
    ] {
        let mut m = RegisteredMetrics::new();
        let msg = action(id, "getbucket", &mut m, outcome).unwrap();
        assert_eq!(msg.id, id);
        assert_eq!(msg.method.as_str(), "getbucket");
        assert_eq!(msg.payload.len(), 1);
    }
}

#[test]
fn one_observation_per_lookup_whatever_the_outcome() {
    let mut m = RegisteredMetrics::new();
    assert_eq!(m.observations().len(), 0);
    action(1, "getbucket", &mut m, Ok(vec![])).unwrap();
    assert_eq!(m.observations().len(), 1);
    action(2, "getbucket", &mut m, Ok(vec![sample_row()])).unwrap();
    assert_eq!(m.observations().len(), 2);
    action(3, "getbucket", &mut m, Err("down".to_string())).unwrap();
    assert_eq!(m.observations().len(), 3);
    for tag in m.observations() {
        assert_eq!(tag.as_str(), "bucketget");
    }
}

#[test]
fn storage_error_kind_is_postgres_error() {
    let e = BucketsMdapiError::PostgresError("timeout".to_string());
    assert_eq!(e.name(), "PostgresError");
}
