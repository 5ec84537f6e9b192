use vstd::prelude::*;
use crate::text::str_eq;
use crate::wire::{
    extract_message_fields, json_msg_tag, json_ok, json_req_id, json_seq_no, MessageFields,
};

verus! {

/// A node's report of its ledger state: the size it has reached.
#[derive(Clone, Copy, PartialEq, Eq, Structural, Debug)]
pub struct LedgerStatus {
    /// The number of transactions the node's ledger holds.
    pub txn_seq_no: u64,
}

/// A peer's request for missing transactions. The payload is kept whole
/// for the catch-up machinery; this core routes it by kind only.
#[derive(Clone, Debug)]
pub struct CatchupReq {
    /// The payload as received.
    pub raw: String,
}

/// A batch of catch-up transactions, applied up to the reported size.
#[derive(Clone, Copy, PartialEq, Eq, Structural, Debug)]
pub struct CatchupRep {
    /// The ledger size reached once this batch is applied.
    pub txn_seq_no: u64,
}

/// Cryptographic evidence that two ledger states are compatible. The
/// payload is kept whole for the external proof checker; this core only
/// decides that it must be checked.
#[derive(Clone, Debug)]
pub struct ConsistencyProof {
    /// The payload as received.
    pub raw: String,
}

/// A node's answer to an outbound request.
#[derive(Clone, Copy, PartialEq, Eq, Structural, Debug)]
pub struct Reply {
    /// The id of the request being answered.
    pub req_id: u64,
}

/// A node's acknowledgement, refusal or rejection of a request.
#[derive(Clone, Copy, PartialEq, Eq, Structural, Debug)]
pub struct Response {
    /// The id of the request being answered.
    pub req_id: u64,
}

/// One inbound node message, classified. A closed set: every consumer
/// dispatches exhaustively over it.
#[derive(Clone, Debug)]
pub enum NodeMessage {
    LedgerStatus(LedgerStatus),
    CatchupReq(CatchupReq),
    CatchupRep(CatchupRep),
    ConsistencyProof(ConsistencyProof),
    Reply(Reply),
    RequestAck(Response),
    RequestNack(Response),
    Reject(Response),
    LedgerTxnBatch,
    Ping,
    Pong,
}

/// Whether a payload classifies at all: it is JSON, it carries a known
/// message-kind discriminator, and it carries the field that kind needs
/// (a ledger size for status and catch-up batches, a request id for the
/// four reply kinds).
pub open spec fn spec_classifies(s: Seq<char>) -> bool {
    json_ok(s) && match json_msg_tag(s) {
        Some(tag) => if tag == "LEDGER_STATUS"@ || tag == "CATCHUP_REP"@ {
            json_seq_no(s) is Some
        } else if tag == "REPLY"@ || tag == "REQACK"@ || tag == "REQNACK"@ || tag == "REJECT"@ {
            json_req_id(s) is Some
        } else {
            tag == "CATCHUP_REQ"@ || tag == "CONSISTENCY_PROOF"@ || tag == "POOL_LEDGER_TXNS"@
                || tag == "ping"@ || tag == "pong"@
        },
        None => false,
    }
}

/// Whether `m` is the classification of the payload `s`: the variant
/// matches the payload's own discriminator, and the fields carried are
/// the payload's.
pub open spec fn message_matches(m: NodeMessage, s: Seq<char>) -> bool {
    match m {
        NodeMessage::LedgerStatus(ls) => json_msg_tag(s) == Some("LEDGER_STATUS"@)
            && json_seq_no(s) == Some(ls.txn_seq_no),
        NodeMessage::CatchupReq(c) => json_msg_tag(s) == Some("CATCHUP_REQ"@) && c.raw@ == s,
        NodeMessage::CatchupRep(c) => json_msg_tag(s) == Some("CATCHUP_REP"@)
            && json_seq_no(s) == Some(c.txn_seq_no),
        NodeMessage::ConsistencyProof(c) => json_msg_tag(s) == Some("CONSISTENCY_PROOF"@)
            && c.raw@ == s,
        NodeMessage::Reply(r) => json_msg_tag(s) == Some("REPLY"@) && json_req_id(s) == Some(
            r.req_id,
        ),
        NodeMessage::RequestAck(r) => json_msg_tag(s) == Some("REQACK"@) && json_req_id(s)
            == Some(r.req_id),
        NodeMessage::RequestNack(r) => json_msg_tag(s) == Some("REQNACK"@) && json_req_id(s)
            == Some(r.req_id),
        NodeMessage::Reject(r) => json_msg_tag(s) == Some("REJECT"@) && json_req_id(s) == Some(
            r.req_id,
        ),
        NodeMessage::LedgerTxnBatch => json_msg_tag(s) == Some("POOL_LEDGER_TXNS"@),
        NodeMessage::Ping => json_msg_tag(s) == Some("ping"@),
        NodeMessage::Pong => json_msg_tag(s) == Some("pong"@),
    }
}

/// The message-kind discriminators are pairwise distinct, so a payload
/// classifies to at most one kind.
pub proof fn lemma_tags_distinct()
    ensures
        "LEDGER_STATUS"@ != "CATCHUP_REQ"@,
        "LEDGER_STATUS"@ != "CATCHUP_REP"@,
        "LEDGER_STATUS"@ != "CONSISTENCY_PROOF"@,
        "LEDGER_STATUS"@ != "REPLY"@,
        "LEDGER_STATUS"@ != "REQACK"@,
        "LEDGER_STATUS"@ != "REQNACK"@,
        "LEDGER_STATUS"@ != "REJECT"@,
        "LEDGER_STATUS"@ != "POOL_LEDGER_TXNS"@,
        "LEDGER_STATUS"@ != "ping"@,
        "LEDGER_STATUS"@ != "pong"@,
        "CATCHUP_REP"@ != "CATCHUP_REQ"@,
        "CATCHUP_REP"@ != "CONSISTENCY_PROOF"@,
        "CATCHUP_REP"@ != "REPLY"@,
        "CATCHUP_REP"@ != "REQACK"@,
        "CATCHUP_REP"@ != "REQNACK"@,
        "CATCHUP_REP"@ != "REJECT"@,
        "CATCHUP_REP"@ != "POOL_LEDGER_TXNS"@,
        "CATCHUP_REP"@ != "ping"@,
        "CATCHUP_REP"@ != "pong"@,
        "REPLY"@ != "CATCHUP_REQ"@,
        "REPLY"@ != "CONSISTENCY_PROOF"@,
        "REPLY"@ != "POOL_LEDGER_TXNS"@,
        "REPLY"@ != "ping"@,
        "REPLY"@ != "pong"@,
        "REQACK"@ != "CATCHUP_REQ"@,
        "REQACK"@ != "CONSISTENCY_PROOF"@,
        "REQACK"@ != "POOL_LEDGER_TXNS"@,
        "REQACK"@ != "ping"@,
        "REQACK"@ != "pong"@,
        "REQNACK"@ != "CATCHUP_REQ"@,
        "REQNACK"@ != "CONSISTENCY_PROOF"@,
        "REQNACK"@ != "POOL_LEDGER_TXNS"@,
        "REQNACK"@ != "ping"@,
        "REQNACK"@ != "pong"@,
        "REJECT"@ != "CATCHUP_REQ"@,
        "REJECT"@ != "CONSISTENCY_PROOF"@,
        "REJECT"@ != "POOL_LEDGER_TXNS"@,
        "REJECT"@ != "ping"@,
        "REJECT"@ != "pong"@,
{
    reveal_strlit("LEDGER_STATUS");
    reveal_strlit("CATCHUP_REQ");
    reveal_strlit("CATCHUP_REP");
    reveal_strlit("CONSISTENCY_PROOF");
    reveal_strlit("REPLY");
    reveal_strlit("REQACK");
    reveal_strlit("REQNACK");
    reveal_strlit("REJECT");
    reveal_strlit("POOL_LEDGER_TXNS");
    reveal_strlit("ping");
    reveal_strlit("pong");
    assert("LEDGER_STATUS"@.len() == 13);
    assert("CATCHUP_REQ"@.len() == 11);
    assert("CATCHUP_REP"@.len() == 11);
    assert("CONSISTENCY_PROOF"@.len() == 17);
    assert("REPLY"@.len() == 5);
    assert("REQACK"@.len() == 6);
    assert("REQNACK"@.len() == 7);
    assert("REJECT"@.len() == 6);
    assert("POOL_LEDGER_TXNS"@.len() == 16);
    assert("ping"@.len() == 4);
    assert("pong"@.len() == 4);
    assert("CATCHUP_REP"@[10] == 'P' && "CATCHUP_REQ"@[10] == 'Q');
    assert("REQACK"@[2] == 'Q' && "REJECT"@[2] == 'J');
}

/// Classify a raw node payload. Total: any structurally invalid or
/// unrecognized payload yields `None`, which the caller treats as "drop
/// and continue" — a single hostile or buggy node never interrupts
/// service.
pub fn classify_message(raw: &str) -> (r: Option<NodeMessage>)
    ensures
        (r is Some) <==> spec_classifies(raw@),
        (r matches Some(m) ==> message_matches(m, raw@)),
{
    let fields: Option<MessageFields> = extract_message_fields(raw);
    let f = match fields {
        Some(f) => f,
        None => { return None },
    };
    let tag = match f.tag {
        Some(t) => t,
        None => { return None },
    };
    let t = tag.as_str();
    if str_eq(t, "LEDGER_STATUS") {
        match f.seq_no {
            Some(n) => Some(NodeMessage::LedgerStatus(LedgerStatus { txn_seq_no: n })),
            None => None,
        }
    } else if str_eq(t, "CATCHUP_REP") {
        match f.seq_no {
            Some(n) => Some(NodeMessage::CatchupRep(CatchupRep { txn_seq_no: n })),
            None => None,
        }
    } else if str_eq(t, "REPLY") {
        match f.req_id {
            Some(n) => Some(NodeMessage::Reply(Reply { req_id: n })),
            None => None,
        }
    } else if str_eq(t, "REQACK") {
        match f.req_id {
            Some(n) => Some(NodeMessage::RequestAck(Response { req_id: n })),
            None => None,
        }
    } else if str_eq(t, "REQNACK") {
        match f.req_id {
            Some(n) => Some(NodeMessage::RequestNack(Response { req_id: n })),
            None => None,
        }
    } else if str_eq(t, "REJECT") {
        match f.req_id {
            Some(n) => Some(NodeMessage::Reject(Response { req_id: n })),
            None => None,
        }
    } else if str_eq(t, "CATCHUP_REQ") {
        Some(NodeMessage::CatchupReq(CatchupReq { raw: raw.to_string() }))
    } else if str_eq(t, "CONSISTENCY_PROOF") {
        Some(NodeMessage::ConsistencyProof(ConsistencyProof { raw: raw.to_string() }))
    } else if str_eq(t, "POOL_LEDGER_TXNS") {
        Some(NodeMessage::LedgerTxnBatch)
    } else if str_eq(t, "ping") {
        Some(NodeMessage::Ping)
    } else if str_eq(t, "pong") {
        Some(NodeMessage::Pong)
    } else {
        None
    }
}

} // verus!
