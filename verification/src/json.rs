//! A plain model of JSON values, rich enough for the request and response
//! payloads that the lookup pipeline reads and writes.
use vstd::prelude::*;

verus! {

/// A JSON value. Numbers are split into those that are non-negative integers
/// representable in 64 bits (the only numbers the pipeline accepts as shard
/// keys) and all others.
#[derive(Debug, PartialEq)]
pub enum JsonValue {
    Null,
    Bool(bool),
    /// A number that is a non-negative integer within the 64-bit range.
    Num(u64),
    /// Any other number: negative, fractional, or out of the 64-bit range.
    OtherNum,
    Str(String),
    Arr(Vec<JsonValue>),
    Obj(Vec<(String, JsonValue)>),
}

/// The value under the first occurrence of key `k` in an object's field list,
/// if any.
pub open spec fn key_of(fields: Seq<(String, JsonValue)>, k: Seq<char>) -> Option<JsonValue>
    decreases fields.len(),
{
    if fields.len() == 0 {
        None
    } else if fields[0].0@ == k {
        Some(fields[0].1)
    } else {
        key_of(fields.drop_first(), k)
    }
}

/// Looking a key up is unaffected by fields that precede its first occurrence
/// and do not carry it.
proof fn lemma_key_of_skip(fields: Seq<(String, JsonValue)>, k: Seq<char>, i: int)
    requires
        0 <= i <= fields.len(),
        forall|j: int| 0 <= j < i ==> fields[j].0@ != k,
    ensures
        key_of(fields, k) == key_of(fields.skip(i), k),
    decreases i,
{
    if i > 0 {
        assert(fields.skip(i) =~= fields.drop_first().skip(i - 1));
        lemma_key_of_skip(fields.drop_first(), k, i - 1);
    } else {
        assert(fields.skip(0) =~= fields);
    }
}

/// Finds the value under key `k` in an object's field list, by first
/// occurrence.
pub fn get_key<'a>(fields: &'a Vec<(String, JsonValue)>, k: &String) -> (r: Option<&'a JsonValue>)
    ensures
        match r {
            Some(v) => key_of(fields@, k@) == Some(*v),
            None => key_of(fields@, k@) is None,
        },
{
    let mut i: usize = 0;
    while i < fields.len()
        invariant
            0 <= i <= fields@.len(),
            forall|j: int| 0 <= j < i ==> fields@[j].0@ != k@,
        decreases fields@.len() - i,
    {
        let pair = &fields[i];
        if pair.0 == *k {
            proof {
                lemma_key_of_skip(fields@, k@, i as int);
                assert(fields@.skip(i as int)[0] == fields@[i as int]);
            }
            return Some(&pair.1);
        }
        i += 1;
    }
    proof {
        lemma_key_of_skip(fields@, k@, i as int);
    }
    None
}

/// Wraps a value in a one-element sequence, the payload shape the outbound
/// protocol message carries.
pub fn array_wrap(v: JsonValue) -> (r: Vec<JsonValue>)
    ensures
        r@ =~= seq![v],
{
    let mut r: Vec<JsonValue> = Vec::new();
    r.push(v);
    r
}

} // verus!
