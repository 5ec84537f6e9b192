use vstd::prelude::*;

verus! {

// The wire format shared with the validator nodes is JSON. The library
// reads only a handful of fields out of any payload; everything it reads
// is extracted here, once, into plain values, and the rest of the crate
// works on those values alone.
//
// Each spec function below names the value of one fixed extraction from
// the payload text; the extraction is deterministic, so the name is a
// function of the characters alone.

/// Whether the payload text parses as a JSON document
/// (the result of `serde_json::from_str` being `Ok`).
pub uninterp spec fn json_ok(s: Seq<char>) -> bool;

/// The top-level `"reqId"` field read as an unsigned 64-bit integer
/// (`None` when the document has no such field or it is not such a number).
/// Every message kind that carries a request id carries it in this one
/// field, so extraction is uniform across Reply, RequestAck, RequestNack
/// and Reject payloads.
pub uninterp spec fn json_req_id(s: Seq<char>) -> Option<u64>;

/// The `"operation"."type"` field of an outbound request, read as a string.
pub uninterp spec fn json_op_type(s: Seq<char>) -> Option<Seq<char>>;

/// The top-level `"op"` field: the message-kind discriminator that an
/// inbound node message carries in its own body.
pub uninterp spec fn json_msg_tag(s: Seq<char>) -> Option<Seq<char>>;

/// The top-level `"txnSeqNo"` field: the ledger size a status or catch-up
/// message reports, read as an unsigned 64-bit integer.
pub uninterp spec fn json_seq_no(s: Seq<char>) -> Option<u64>;

/// The canonical form of a reply payload: whitespace-free, object keys in
/// sorted order. Byte-different but structurally identical payloads have
/// the same canonical form, and the form depends on the characters alone.
pub uninterp spec fn fingerprint_of(s: Seq<char>) -> Seq<char>;

/// The fields of an outbound request payload, or the first structural
/// fault found in it (request id is looked for before operation type).
pub enum RequestFields {
    /// The payload is not valid JSON.
    NotJson,
    /// Valid JSON, but no unsigned-integer `"reqId"` field.
    NoReqId,
    /// Valid JSON with a request id, but no string `"operation"."type"` field.
    NoOpType,
    /// Both required fields are present.
    Fields { req_id: u64, op: String },
}

/// The fields an inbound node message may carry.
pub struct MessageFields {
    /// The message-kind discriminator.
    pub tag: Option<String>,
    /// The request id, for reply-like kinds.
    pub req_id: Option<u64>,
    /// The reported ledger size, for status and catch-up kinds.
    pub seq_no: Option<u64>,
}

/// The view of an optional owned string as an optional character sequence.
pub open spec fn opt_view(o: Option<String>) -> Option<Seq<char>> {
    match o {
        Some(s) => Some(s@),
        None => None,
    }
}

/// Relies on `serde_json::from_str::<Value>`, square-bracket indexing on
/// `serde_json::Value` (which yields `Value::Null` for a missing or
/// mistyped path, never panicking), `Value::as_u64` and `Value::as_str`:
/// reads the `"reqId"` and `"operation"."type"` fields of an outbound
/// request.
#[verifier::external_body]
pub fn extract_request_fields(msg: &str) -> (r: RequestFields)
    ensures
        (r is NotJson) <==> !json_ok(msg@),
        (r is NoReqId) <==> (json_ok(msg@) && json_req_id(msg@) is None),
        (r is NoOpType) <==> (json_ok(msg@) && json_req_id(msg@) is Some
            && json_op_type(msg@) is None),
        (r matches RequestFields::Fields { req_id, op } ==> json_req_id(msg@) == Some(req_id)
            && json_op_type(msg@) == Some(op@)),
{
    let v: serde_json::Value = match serde_json::from_str(msg) {
        Ok(v) => v,
        Err(_) => return RequestFields::NotJson,
    };
    let req_id = match v["reqId"].as_u64() {
        Some(i) => i,
        None => return RequestFields::NoReqId,
    };
    match v["operation"]["type"].as_str() {
        Some(op) => RequestFields::Fields { req_id, op: op.to_string() },
        None => RequestFields::NoOpType,
    }
}

/// Relies on `serde_json::from_str::<Value>`, square-bracket indexing on
/// `serde_json::Value`, `Value::as_u64` and `Value::as_str`: reads the
/// `"op"` discriminator, the `"reqId"` and the `"txnSeqNo"` fields of an
/// inbound node message. `None` exactly when the payload is not JSON.
#[verifier::external_body]
pub fn extract_message_fields(msg: &str) -> (r: Option<MessageFields>)
    ensures
        (r is Some) <==> json_ok(msg@),
        (r matches Some(f) ==> json_msg_tag(msg@) == opt_view(f.tag)
            && json_req_id(msg@) == f.req_id
            && json_seq_no(msg@) == f.seq_no),
{
    let v: serde_json::Value = match serde_json::from_str(msg) {
        Ok(v) => v,
        Err(_) => return None,
    };
    Some(MessageFields {
        tag: v["op"].as_str().map(|s| s.to_string()),
        req_id: v["reqId"].as_u64(),
        seq_no: v["txnSeqNo"].as_u64(),
    })
}

/// Relies on `serde_json::from_str::<Value>` and `Value`'s `Display`
/// serialization: a parsed document re-serializes without whitespace and
/// with object keys in sorted order (the default map is ordered), so the
/// result is a canonical form. A payload that is not JSON is its own
/// fingerprint. The result depends on the input characters alone.
#[verifier::external_body]
pub fn canonical_fingerprint(raw: &str) -> (r: String)
    ensures
        r@ == fingerprint_of(raw@),
{
    match serde_json::from_str::<serde_json::Value>(raw) {
        Ok(v) => v.to_string(),
        Err(_) => raw.to_string(),
    }
}

} // verus!
