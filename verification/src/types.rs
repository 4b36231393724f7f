//! The data the pipeline moves: the decoded request, the bucket record, and
//! the outbound protocol message.
use crate::json::JsonValue;
use vstd::prelude::*;

verus! {

/// One decoded lookup request: which bucket to find and which shard holds it.
/// The shard key travels on the wire under the field `shardKey`.
#[derive(Debug, PartialEq)]
pub struct GetBucketPayload {
    pub owner: String,
    pub name: String,
    pub vnode: u64,
}

/// One bucket row, as the storage layer hands it back: the columns `id`,
/// `owner`, `name`, `created` of the shard's bucket table.
#[derive(Debug, PartialEq)]
pub struct BucketResponse {
    pub id: String,
    pub owner: String,
    pub name: String,
    pub created: String,
}

impl BucketResponse {
    /// Copies the record; the storage row it came from stays with the caller.
    pub fn duplicate(&self) -> (r: BucketResponse)
        ensures
            r == *self,
    {
        BucketResponse {
            id: self.id.clone(),
            owner: self.owner.clone(),
            name: self.name.clone(),
            created: self.created.clone(),
        }
    }
}

/// The status class of an outbound transport message. The pipeline only ever
/// emits `Data`: failures travel inside the payload, never as a transport
/// error.
#[derive(Debug, PartialEq, Eq, Structural, Clone, Copy)]
pub enum MessageStatus {
    Data,
    End,
    Error,
}

/// The outbound protocol message: a status class, the correlation id and
/// method of the request it answers, and a payload of JSON values (the
/// pipeline always sends exactly one).
#[derive(Debug, PartialEq)]
pub struct HandlerResponse {
    pub status: MessageStatus,
    pub id: u32,
    pub method: String,
    pub payload: Vec<JsonValue>,
}

} // verus!
