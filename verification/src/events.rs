use vstd::prelude::*;
use crate::errors::ClassifyError;
use crate::messages::{classify_message, message_matches, spec_classifies, NodeMessage};
use crate::resolver::{OpTables, RequestMode};
use crate::text::{decimal_string, spec_decimal};
use crate::wire::{
    extract_request_fields, json_ok, json_op_type, json_req_id, opt_view, RequestFields,
};

verus! {

/// Relies on std's derived `Clone` for `Result`: cloning an event clones
/// the result it carries. Nothing is claimed of the copy; vstd gives this
/// std impl no specification of its own.
pub assume_specification<T: Clone, E: Clone>[ <Result<T, E> as Clone>::clone ](
    r: &Result<T, E>,
) -> Result<T, E>;

/// A dispatch command for the transport: the only two primitives it
/// offers are sending one payload to one node and sending it to every
/// known node.
#[derive(Clone, Copy, PartialEq, Eq, Structural, Debug)]
pub enum NetworkerEvent {
    SendOneRequest,
    SendAllRequest,
}

/// A top-level lifecycle signal, consumed by the pool controller and then
/// discarded.
#[derive(Clone, Debug)]
pub enum PoolEvent {
    CheckCache,
    /// A raw reply: the payload and the alias of the node it came from.
    NodeReply(String, String),
    Close,
    Refresh,
    ConsensusReached,
    ConsensusFailed,
    PoolOutdated,
    Synced,
    NodesBlacklisted,
    /// An outbound request payload to classify and dispatch.
    SendRequest(String),
    Timeout,
}

/// One step in a single request's life: a received status, catch-up or
/// proof message; a classified outbound request carrying the resolved
/// request id or the classification failure; a received reply, ack, nack
/// or reject carrying raw payload, node alias and request id; or a
/// protocol keep-alive.
#[derive(Clone, Debug)]
pub enum RequestEvent {
    LedgerStatus(crate::messages::LedgerStatus),
    CatchupReq(crate::messages::CatchupReq),
    CatchupRep(crate::messages::CatchupRep),
    CustomSingleRequest(String, Result<String, ClassifyError>),
    CustomConsensusRequest(String, Result<String, ClassifyError>),
    CustomFullRequest(String, Result<String, ClassifyError>),
    ConsistencyProof(crate::messages::ConsistencyProof),
    Reply(crate::messages::Reply, String, String, String),
    ReqACK(crate::messages::Response, String, String, String),
    ReqNACK(crate::messages::Response, String, String, String),
    Reject(crate::messages::Response, String, String, String),
    PoolLedgerTxns,
    Ping,
    Pong,
}

impl RequestEvent {
    /// The request id an event carries, if its kind carries one: the
    /// resolved id of a classified outbound request, or the id extracted
    /// from a reply-like message. Kinds without a request id are routed
    /// by message kind instead and yield `None`.
    pub open spec fn spec_req_id(self) -> Option<Seq<char>> {
        match self {
            RequestEvent::CustomSingleRequest(_, res) => match res {
                Ok(id) => Some(id@),
                Err(_) => None,
            },
            RequestEvent::CustomConsensusRequest(_, res) => match res {
                Ok(id) => Some(id@),
                Err(_) => None,
            },
            RequestEvent::CustomFullRequest(_, res) => match res {
                Ok(id) => Some(id@),
                Err(_) => None,
            },
            RequestEvent::Reply(_, _, _, id) => Some(id@),
            RequestEvent::ReqACK(_, _, _, id) => Some(id@),
            RequestEvent::ReqNACK(_, _, _, id) => Some(id@),
            RequestEvent::Reject(_, _, _, id) => Some(id@),
            _ => None,
        }
    }

    /// The request id this event carries, if any.
    pub fn get_req_id(&self) -> (r: Option<String>)
        ensures
            opt_view(r) == self.spec_req_id(),
    {
        match self {
            RequestEvent::CustomSingleRequest(_, res) => match res {
                Ok(id) => Some(id.clone()),
                Err(_) => None,
            },
            RequestEvent::CustomConsensusRequest(_, res) => match res {
                Ok(id) => Some(id.clone()),
                Err(_) => None,
            },
            RequestEvent::CustomFullRequest(_, res) => match res {
                Ok(id) => Some(id.clone()),
                Err(_) => None,
            },
            RequestEvent::Reply(_, _, _, id) => Some(id.clone()),
            RequestEvent::ReqACK(_, _, _, id) => Some(id.clone()),
            RequestEvent::ReqNACK(_, _, _, id) => Some(id.clone()),
            RequestEvent::Reject(_, _, _, id) => Some(id.clone()),
            _ => None,
        }
    }

    /// A ledger-status request event polls the whole fleet; no other
    /// event kind produces a dispatch command by itself — dispatch for
    /// classified requests is driven by the pool controller's own
    /// node-selection policy.
    pub fn into_networker_event(&self) -> (r: Option<NetworkerEvent>)
        ensures
            (self is LedgerStatus) ==> r == Some(NetworkerEvent::SendAllRequest),
            !(self is LedgerStatus) ==> r is None,
    {
        match self {
            RequestEvent::LedgerStatus(_) => Some(NetworkerEvent::SendAllRequest),
            _ => None,
        }
    }
}

/// Whether `r` is the translation of the inbound payload `raw` received
/// from the node `alias`: the classified message re-wrapped, with the
/// payload, the alias and the decimal form of the payload's request id
/// joined on for the four reply kinds.
pub open spec fn reply_event_matches(r: RequestEvent, raw: Seq<char>, alias: Seq<char>) -> bool {
    match r {
        RequestEvent::LedgerStatus(ls) => message_matches(NodeMessage::LedgerStatus(ls), raw),
        RequestEvent::CatchupReq(c) => message_matches(NodeMessage::CatchupReq(c), raw),
        RequestEvent::CatchupRep(c) => message_matches(NodeMessage::CatchupRep(c), raw),
        RequestEvent::ConsistencyProof(c) => message_matches(NodeMessage::ConsistencyProof(c), raw),
        RequestEvent::Reply(p, m, a, id) => message_matches(NodeMessage::Reply(p), raw) && m@ == raw
            && a@ == alias && id@ == spec_decimal(p.req_id as int),
        RequestEvent::ReqACK(p, m, a, id) => message_matches(NodeMessage::RequestAck(p), raw)
            && m@ == raw && a@ == alias && id@ == spec_decimal(p.req_id as int),
        RequestEvent::ReqNACK(p, m, a, id) => message_matches(NodeMessage::RequestNack(p), raw)
            && m@ == raw && a@ == alias && id@ == spec_decimal(p.req_id as int),
        RequestEvent::Reject(p, m, a, id) => message_matches(NodeMessage::Reject(p), raw)
            && m@ == raw && a@ == alias && id@ == spec_decimal(p.req_id as int),
        RequestEvent::PoolLedgerTxns => message_matches(NodeMessage::LedgerTxnBatch, raw),
        RequestEvent::Ping => message_matches(NodeMessage::Ping, raw),
        RequestEvent::Pong => message_matches(NodeMessage::Pong, raw),
        _ => false,
    }
}

/// Whether `r` is the classification of the outbound payload `raw` under
/// the tables `t`: the event kind is the payload's resolved mode, a
/// well-formed payload carries the decimal form of its request id, and a
/// malformed one surfaces the exact structural fault on the single-shaped
/// path.
pub open spec fn request_event_matches(r: RequestEvent, t: OpTables, raw: Seq<char>) -> bool {
    match r {
        RequestEvent::CustomSingleRequest(m, res) => m@ == raw && match res {
            Ok(id) => request_fields_resolved(raw, id@, t, RequestMode::SingleWithProof),
            Err(e) => request_fault_matches(e, raw),
        },
        RequestEvent::CustomConsensusRequest(m, res) => m@ == raw && match res {
            Ok(id) => request_fields_resolved(raw, id@, t, RequestMode::Consensus),
            Err(_) => false,
        },
        RequestEvent::CustomFullRequest(m, res) => m@ == raw && match res {
            Ok(id) => request_fields_resolved(raw, id@, t, RequestMode::Full),
            Err(_) => false,
        },
        _ => false,
    }
}

/// A well-formed outbound payload whose operation type resolves to `mode`
/// and whose request id has the decimal form `id`.
pub open spec fn request_fields_resolved(
    raw: Seq<char>,
    id: Seq<char>,
    t: OpTables,
    mode: RequestMode,
) -> bool {
    json_ok(raw) && match (json_req_id(raw), json_op_type(raw)) {
        (Some(n), Some(op)) => id == spec_decimal(n as int) && t.spec_mode_of(op) == mode,
        _ => false,
    }
}

/// The structural fault `e` is exactly the first fault in the payload:
/// not JSON at all, else no request id, else no operation type.
pub open spec fn request_fault_matches(e: ClassifyError, raw: Seq<char>) -> bool {
    match e {
        ClassifyError::NotValidJson => !json_ok(raw),
        ClassifyError::NoReqId => json_ok(raw) && json_req_id(raw) is None,
        ClassifyError::NoOpType => json_ok(raw) && json_req_id(raw) is Some && json_op_type(raw)
            is None,
    }
}

/// Whether translating the pool event `ev` under the tables `t` yields
/// `r`: an inbound reply translates exactly when it classifies; an
/// outbound request always translates, carrying its resolved id or its
/// structural fault; no other event kind yields a request event.
pub open spec fn pool_event_translates(
    ev: PoolEvent,
    t: OpTables,
    r: Option<RequestEvent>,
) -> bool {
    match ev {
        PoolEvent::NodeReply(msg, alias) => if spec_classifies(msg@) {
            r matches Some(re) && reply_event_matches(re, msg@, alias@)
        } else {
            r is None
        },
        PoolEvent::SendRequest(msg) => r matches Some(re) && request_event_matches(re, t, msg@),
        _ => r is None,
    }
}

impl PoolEvent {
    /// Translate a pool event into the request event it carries, if any:
    /// a node reply is classified into its typed message and re-wrapped;
    /// an outbound request is resolved against the tables, its id or its
    /// structural fault joined on. Every other lifecycle signal carries
    /// no request event.
    pub fn into_request_event(self, tables: &OpTables) -> (r: Option<RequestEvent>)
        ensures
            pool_event_translates(self, *tables, r),
    {
        match self {
            PoolEvent::NodeReply(msg, alias) => {
                let parsed = classify_message(msg.as_str());
                match parsed {
                    Some(m) => Some(request_event_from_message(msg, alias, m)),
                    None => None,
                }
            },
            PoolEvent::SendRequest(msg) => {
                let fields = extract_request_fields(msg.as_str());
                match fields {
                    RequestFields::Fields { req_id, op } => {
                        let id = decimal_string(req_id);
                        match tables.resolve_mode(op.as_str()) {
                            RequestMode::SingleWithProof => Some(
                                RequestEvent::CustomSingleRequest(msg, Ok(id)),
                            ),
                            RequestMode::Full => Some(RequestEvent::CustomFullRequest(msg, Ok(id))),
                            RequestMode::Consensus => Some(
                                RequestEvent::CustomConsensusRequest(msg, Ok(id)),
                            ),
                        }
                    },
                    RequestFields::NotJson => Some(
                        RequestEvent::CustomSingleRequest(msg, Err(ClassifyError::NotValidJson)),
                    ),
                    RequestFields::NoReqId => Some(
                        RequestEvent::CustomSingleRequest(msg, Err(ClassifyError::NoReqId)),
                    ),
                    RequestFields::NoOpType => Some(
                        RequestEvent::CustomSingleRequest(msg, Err(ClassifyError::NoOpType)),
                    ),
                }
            },
            _ => None,
        }
    }
}

/// Join a classified message with the payload it came in and the alias of
/// the node that sent it. A status, catch-up or proof message is a direct
/// re-wrap; a reply-like message gains the payload, the alias and the
/// decimal form of its request id, extracted uniformly across all four
/// kinds.
pub fn request_event_from_message(raw_msg: String, node_alias: String, msg: NodeMessage) -> (r:
    RequestEvent)
    requires
        message_matches(msg, raw_msg@),
    ensures
        reply_event_matches(r, raw_msg@, node_alias@),
{
    match msg {
        NodeMessage::LedgerStatus(ls) => RequestEvent::LedgerStatus(ls),
        NodeMessage::CatchupReq(c) => RequestEvent::CatchupReq(c),
        NodeMessage::CatchupRep(c) => RequestEvent::CatchupRep(c),
        NodeMessage::ConsistencyProof(c) => RequestEvent::ConsistencyProof(c),
        NodeMessage::Reply(p) => {
            let id = decimal_string(p.req_id);
            RequestEvent::Reply(p, raw_msg, node_alias, id)
        },
        NodeMessage::RequestAck(p) => {
            let id = decimal_string(p.req_id);
            RequestEvent::ReqACK(p, raw_msg, node_alias, id)
        },
        NodeMessage::RequestNack(p) => {
            let id = decimal_string(p.req_id);
            RequestEvent::ReqNACK(p, raw_msg, node_alias, id)
        },
        NodeMessage::Reject(p) => {
            let id = decimal_string(p.req_id);
            RequestEvent::Reject(p, raw_msg, node_alias, id)
        },
        NodeMessage::LedgerTxnBatch => RequestEvent::PoolLedgerTxns,
        NodeMessage::Ping => RequestEvent::Ping,
        NodeMessage::Pong => RequestEvent::Pong,
    }
}

/// Request id extraction is uniform across the four reply kinds: however
/// a payload was answered — Reply, ack, nack or reject — the translated
/// event carries the decimal form of the payload's single request id
/// field.
pub proof fn lemma_req_id_uniform(r: RequestEvent, raw: Seq<char>, alias: Seq<char>)
    requires
        reply_event_matches(r, raw, alias),
        r is Reply || r is ReqACK || r is ReqNACK || r is Reject,
    ensures
        match (r.spec_req_id(), json_req_id(raw)) {
            (Some(id), Some(n)) => id == spec_decimal(n as int),
            _ => false,
        },
{
}

/// Two reply-like events whose payloads carry the same request id carry
/// the same id string, whatever pair of the four reply kinds answered.
pub proof fn lemma_req_id_extraction_identical(
    r1: RequestEvent,
    raw1: Seq<char>,
    alias1: Seq<char>,
    r2: RequestEvent,
    raw2: Seq<char>,
    alias2: Seq<char>,
)
    requires
        reply_event_matches(r1, raw1, alias1),
        reply_event_matches(r2, raw2, alias2),
        r1 is Reply || r1 is ReqACK || r1 is ReqNACK || r1 is Reject,
        r2 is Reply || r2 is ReqACK || r2 is ReqNACK || r2 is Reject,
        json_req_id(raw1) == json_req_id(raw2),
    ensures
        r1.spec_req_id() == r2.spec_req_id(),
{
    lemma_req_id_uniform(r1, raw1, alias1);
    lemma_req_id_uniform(r2, raw2, alias2);
}

/// The mode and request id a classified outbound event carries: the
/// payload view, and the id string or the structural fault.
pub open spec fn spec_custom_fields(r: RequestEvent) -> Option<
    (Seq<char>, Result<Seq<char>, ClassifyError>),
> {
    match r {
        RequestEvent::CustomSingleRequest(m, res) => Some(
            (
                m@,
                match res {
                    Ok(id) => Ok(id@),
                    Err(e) => Err(e),
                },
            ),
        ),
        RequestEvent::CustomConsensusRequest(m, res) => Some(
            (
                m@,
                match res {
                    Ok(id) => Ok(id@),
                    Err(e) => Err(e),
                },
            ),
        ),
        RequestEvent::CustomFullRequest(m, res) => Some(
            (
                m@,
                match res {
                    Ok(id) => Ok(id@),
                    Err(e) => Err(e),
                },
            ),
        ),
        _ => None,
    }
}

/// Classifying the same outbound payload twice yields the same mode —
/// the same event kind — and the same request id or fault both times.
pub proof fn lemma_classification_idempotent(
    t: OpTables,
    raw: Seq<char>,
    r1: RequestEvent,
    r2: RequestEvent,
)
    requires
        request_event_matches(r1, t, raw),
        request_event_matches(r2, t, raw),
    ensures
        (r1 is CustomSingleRequest) == (r2 is CustomSingleRequest),
        (r1 is CustomConsensusRequest) == (r2 is CustomConsensusRequest),
        (r1 is CustomFullRequest) == (r2 is CustomFullRequest),
        spec_custom_fields(r1) == spec_custom_fields(r2),
{
}

} // verus!
