use pool_events::errors::ClassifyError;
use pool_events::events::{NetworkerEvent, PoolEvent, RequestEvent};
use pool_events::messages::{classify_message, NodeMessage};
use pool_events::resolver::{OpTables, RequestMode};
use pool_events::tracker::quorum_threshold;
use pool_events::wire::canonical_fingerprint;

#[test]
fn quorum_threshold_formula() {
    assert_eq!(quorum_threshold(1), 1);
    assert_eq!(quorum_threshold(2), 1);
    assert_eq!(quorum_threshold(4), 2);
    assert_eq!(quorum_threshold(7), 3);
    assert_eq!(quorum_threshold(10), 4);
}

#[test]
fn state_proof_ops_resolve_single() {
    let t = OpTables::new_default();
    for op in ["105", "107", "108", "104", "116", "115", "117"] {
        assert_eq!(t.resolve_mode(op), RequestMode::SingleWithProof);
    }
}

#[test]
fn full_ops_resolve_full() {
    let t = OpTables::new_default();
    assert_eq!(t.resolve_mode("118"), RequestMode::Full);
    assert_eq!(t.resolve_mode("119"), RequestMode::Full);
}

#[test]
fn other_ops_resolve_consensus() {
    let t = OpTables::new_default();
    assert_eq!(t.resolve_mode("1"), RequestMode::Consensus);
    assert_eq!(t.resolve_mode("3"), RequestMode::Consensus);
    assert_eq!(t.resolve_mode(""), RequestMode::Consensus);
    assert_eq!(t.resolve_mode("never-heard-of-it"), RequestMode::Consensus);
}

#[test]
fn classification_stable_under_reordering() {
    let t = OpTables::new_default();
    let mut reordered_single: Vec<String> = t.state_proof_ops.clone();
    reordered_single.reverse();
    let mut reordered_full: Vec<String> = t.full_ops.clone();
    reordered_full.reverse();
    let r = OpTables { state_proof_ops: reordered_single, full_ops: reordered_full };
    for op in ["105", "107", "108", "104", "116", "115", "117", "118", "119", "1", "x"] {
        assert_eq!(t.resolve_mode(op), r.resolve_mode(op));
    }
}

#[test]
fn classify_ledger_status() {
    let raw = "{\"op\":\"LEDGER_STATUS\",\"txnSeqNo\":42,\"merkleRoot\":\"abc\"}";
    match classify_message(raw) {
        Some(NodeMessage::LedgerStatus(ls)) => assert_eq!(ls.txn_seq_no, 42),
        _ => panic!("expected a ledger status"),
    }
}

#[test]
fn classify_reply_kinds_extract_same_req_id() {
    for tag in ["REPLY", "REQACK", "REQNACK", "REJECT"] {
        let raw = format!("{{\"op\":\"{}\",\"reqId\":77}}", tag);
        let got = match classify_message(&raw) {
            Some(NodeMessage::Reply(r)) => r.req_id,
            Some(NodeMessage::RequestAck(r)) => r.req_id,
            Some(NodeMessage::RequestNack(r)) => r.req_id,
            Some(NodeMessage::Reject(r)) => r.req_id,
            _ => panic!("expected a reply-like message for {}", tag),
        };
        assert_eq!(got, 77);
    }
}

#[test]
fn classify_keep_alives_and_batches() {
    assert!(matches!(classify_message("{\"op\":\"ping\"}"), Some(NodeMessage::Ping)));
    assert!(matches!(classify_message("{\"op\":\"pong\"}"), Some(NodeMessage::Pong)));
    assert!(matches!(
        classify_message("{\"op\":\"POOL_LEDGER_TXNS\",\"txns\":[]}"),
        Some(NodeMessage::LedgerTxnBatch)
    ));
    assert!(matches!(
        classify_message("{\"op\":\"CATCHUP_REP\",\"txnSeqNo\":9}"),
        Some(NodeMessage::CatchupRep(_))
    ));
    assert!(matches!(
        classify_message("{\"op\":\"CATCHUP_REQ\",\"seqNoStart\":1}"),
        Some(NodeMessage::CatchupReq(_))
    ));
    assert!(matches!(
        classify_message("{\"op\":\"CONSISTENCY_PROOF\",\"oldMerkleRoot\":\"a\"}"),
        Some(NodeMessage::ConsistencyProof(_))
    ));
}

#[test]
fn classify_total_on_garbage() {
    assert!(classify_message("").is_none());
    assert!(classify_message("not json at all").is_none());
    assert!(classify_message("{\"no_op_field\":1}").is_none());
    assert!(classify_message("{\"op\":\"NO_SUCH_KIND\"}").is_none());
    assert!(classify_message("{\"op\":\"LEDGER_STATUS\"}").is_none());
    assert!(classify_message("{\"op\":\"REPLY\"}").is_none());
    assert!(classify_message("{\"op\":\"REPLY\",\"reqId\":\"text\"}").is_none());
}

#[test]
fn send_request_classifies_single() {
    let t = OpTables::new_default();
    let msg = "{\"reqId\":123,\"operation\":{\"type\":\"105\"}}".to_string();
    let ev = PoolEvent::SendRequest(msg.clone()).into_request_event(&t);
    match ev {
        Some(RequestEvent::CustomSingleRequest(m, Ok(id))) => {
            assert_eq!(m, msg);
            assert_eq!(id, "123");
        }
        _ => panic!("expected a single-with-proof request"),
    }
}

#[test]
fn send_request_classifies_full_and_consensus() {
    let t = OpTables::new_default();
    let full = PoolEvent::SendRequest("{\"reqId\":5,\"operation\":{\"type\":\"119\"}}".to_string())
        .into_request_event(&t);
    assert!(matches!(full, Some(RequestEvent::CustomFullRequest(_, Ok(id))) if id == "5"));
    let cons = PoolEvent::SendRequest("{\"reqId\":6,\"operation\":{\"type\":\"1\"}}".to_string())
        .into_request_event(&t);
    assert!(matches!(cons, Some(RequestEvent::CustomConsensusRequest(_, Ok(id))) if id == "6"));
}

#[test]
fn send_request_surfaces_each_structural_fault() {
    let t = OpTables::new_default();
    let bad = PoolEvent::SendRequest("]][[".to_string()).into_request_event(&t);
    assert!(matches!(
        bad,
        Some(RequestEvent::CustomSingleRequest(_, Err(ClassifyError::NotValidJson)))
    ));
    let no_id = PoolEvent::SendRequest("{\"operation\":{\"type\":\"1\"}}".to_string())
        .into_request_event(&t);
    assert!(matches!(
        no_id,
        Some(RequestEvent::CustomSingleRequest(_, Err(ClassifyError::NoReqId)))
    ));
    let no_op = PoolEvent::SendRequest("{\"reqId\":9}".to_string()).into_request_event(&t);
    assert!(matches!(
        no_op,
        Some(RequestEvent::CustomSingleRequest(_, Err(ClassifyError::NoOpType)))
    ));
}

#[test]
fn reclassifying_same_payload_is_idempotent() {
    let t = OpTables::new_default();
    let msg = "{\"reqId\":123,\"operation\":{\"type\":\"105\"}}".to_string();
    let first = PoolEvent::SendRequest(msg.clone()).into_request_event(&t);
    let second = PoolEvent::SendRequest(msg).into_request_event(&t);
    let fields = |ev: Option<RequestEvent>| match ev {
        Some(RequestEvent::CustomSingleRequest(m, r)) => ("single", m, r),
        Some(RequestEvent::CustomConsensusRequest(m, r)) => ("consensus", m, r),
        Some(RequestEvent::CustomFullRequest(m, r)) => ("full", m, r),
        _ => panic!("expected a classified request"),
    };
    assert_eq!(fields(first), fields(second));
}

#[test]
fn node_reply_translates_with_alias_and_id() {
    let t = OpTables::new_default();
    let raw = "{\"op\":\"REQNACK\",\"reqId\":400}".to_string();
    let ev = PoolEvent::NodeReply(raw.clone(), "node3".to_string()).into_request_event(&t);
    match ev {
        Some(RequestEvent::ReqNACK(p, m, alias, id)) => {
            assert_eq!(p.req_id, 400);
            assert_eq!(m, raw);
            assert_eq!(alias, "node3");
            assert_eq!(id, "400");
        }
        _ => panic!("expected a nack event"),
    }
}

#[test]
fn node_reply_req_id_uniform_across_kinds() {
    let t = OpTables::new_default();
    let mut ids: Vec<String> = Vec::new();
    for tag in ["REPLY", "REQACK", "REQNACK", "REJECT"] {
        let raw = format!("{{\"op\":\"{}\",\"reqId\":31415}}", tag);
        let ev = PoolEvent::NodeReply(raw, "n".to_string())
            .into_request_event(&t)
            .expect("must classify");
        ids.push(ev.get_req_id().expect("reply events carry an id"));
    }
    assert!(ids.iter().all(|i| i == "31415"));
}

#[test]
fn get_req_id_absent_for_idless_kinds() {
    let t = OpTables::new_default();
    let ev = PoolEvent::NodeReply("{\"op\":\"ping\"}".to_string(), "n".to_string())
        .into_request_event(&t)
        .expect("must classify");
    assert!(ev.get_req_id().is_none());
}

#[test]
fn malformed_node_reply_translates_to_nothing() {
    let t = OpTables::new_default();
    assert!(PoolEvent::NodeReply("garbage".to_string(), "n".to_string())
        .into_request_event(&t)
        .is_none());
    assert!(PoolEvent::Close.into_request_event(&t).is_none());
    assert!(PoolEvent::Refresh.into_request_event(&t).is_none());
    assert!(PoolEvent::CheckCache.into_request_event(&t).is_none());
}

#[test]
fn only_ledger_status_dispatches_to_all() {
    let t = OpTables::new_default();
    let status = PoolEvent::NodeReply(
        "{\"op\":\"LEDGER_STATUS\",\"txnSeqNo\":1}".to_string(),
        "n".to_string(),
    )
    .into_request_event(&t)
    .expect("must classify");
    assert_eq!(status.into_networker_event(), Some(NetworkerEvent::SendAllRequest));
    let ping = PoolEvent::NodeReply("{\"op\":\"ping\"}".to_string(), "n".to_string())
        .into_request_event(&t)
        .expect("must classify");
    assert!(ping.into_networker_event().is_none());
}

#[test]
fn fingerprint_ignores_whitespace_and_key_order() {
    let a = canonical_fingerprint("{\"result\":{\"x\":1,\"y\":2},\"reqId\":7}");
    let b = canonical_fingerprint("{ \"reqId\" : 7, \"result\" : { \"y\": 2, \"x\": 1 } }");
    assert_eq!(a, b);
    let c = canonical_fingerprint("{\"reqId\":8,\"result\":{\"x\":1,\"y\":2}}");
    assert_ne!(a, c);
}

#[test]
fn error_messages_name_each_fault() {
    assert_eq!(ClassifyError::NotValidJson.message(), "invalid request json");
    assert_eq!(ClassifyError::NoReqId.message(), "no reqId in request");
    assert_eq!(ClassifyError::NoOpType.message(), "no operation type in request");
}

#[test]
fn request_id_decimal_edges() {
    let t = OpTables::new_default();
    let zero = PoolEvent::SendRequest("{\"reqId\":0,\"operation\":{\"type\":\"1\"}}".to_string())
        .into_request_event(&t);
    assert!(matches!(zero, Some(RequestEvent::CustomConsensusRequest(_, Ok(id))) if id == "0"));
    let big = PoolEvent::SendRequest(
        "{\"reqId\":18446744073709551615,\"operation\":{\"type\":\"1\"}}".to_string(),
    )
    .into_request_event(&t);
    assert!(matches!(
        big,
        Some(RequestEvent::CustomConsensusRequest(_, Ok(id))) if id == "18446744073709551615"
    ));
}
