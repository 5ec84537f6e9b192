use pool_events::events::NetworkerEvent;
use pool_events::pool::{PoolController, PoolState, ReplyOutcome};
use pool_events::resolver::RequestMode;
use pool_events::resolver::OpTables;
use pool_events::tracker::TrackerVerdict;

fn active_controller(node_count: usize) -> PoolController {
    let mut p = PoolController::new(node_count, 100, 2, OpTables::new_default());
    // discovery: a quorum of statuses at or below the local size keeps us current
    let status = "{\"op\":\"LEDGER_STATUS\",\"txnSeqNo\":100}";
    let mut i = 0;
    loop {
        i += 1;
        match p.handle_node_reply(status, &format!("n{}", i)) {
            ReplyOutcome::StatusRecorded => continue,
            ReplyOutcome::AlreadyCurrent => break,
            other => panic!("unexpected discovery outcome: {:?}", other),
        }
    }
    assert_eq!(p.state, PoolState::Active);
    p
}

#[test]
fn discovery_picks_catchup_target() {
    let mut p = PoolController::new(4, 10, 2, OpTables::new_default());
    assert_eq!(p.state, PoolState::DiscoveringTarget);
    let out1 = p.handle_node_reply("{\"op\":\"LEDGER_STATUS\",\"txnSeqNo\":12}", "n1");
    assert!(matches!(out1, ReplyOutcome::StatusRecorded));
    // threshold for 4 nodes is 2: the second status finishes discovery
    let out2 = p.handle_node_reply("{\"op\":\"LEDGER_STATUS\",\"txnSeqNo\":15}", "n2");
    assert!(matches!(out2, ReplyOutcome::CatchupStarted(15)));
    assert_eq!(p.state, PoolState::SyncingCatchup);
    // a batch short of the target keeps catching up
    let out3 = p.handle_node_reply("{\"op\":\"CATCHUP_REP\",\"txnSeqNo\":13}", "n1");
    assert!(matches!(out3, ReplyOutcome::CatchupApplied));
    assert_eq!(p.state, PoolState::SyncingCatchup);
    // reaching the target synchronizes
    let out4 = p.handle_node_reply("{\"op\":\"CATCHUP_REP\",\"txnSeqNo\":15}", "n1");
    assert!(matches!(out4, ReplyOutcome::Synced));
    assert_eq!(p.state, PoolState::Active);
}

#[test]
fn discovery_already_current_goes_straight_active() {
    let p = active_controller(4);
    assert_eq!(p.state, PoolState::Active);
}

#[test]
fn discovery_timeout_is_outdated() {
    let mut p = PoolController::new(4, 10, 2, OpTables::new_default());
    p.handle_timeout();
    assert_eq!(p.state, PoolState::Outdated);
}

#[test]
fn consistency_proof_failures_spend_the_retry_budget() {
    let mut p = PoolController::new(4, 10, 1, OpTables::new_default());
    p.handle_node_reply("{\"op\":\"LEDGER_STATUS\",\"txnSeqNo\":12}", "n1");
    p.handle_node_reply("{\"op\":\"LEDGER_STATUS\",\"txnSeqNo\":15}", "n2");
    assert_eq!(p.state, PoolState::SyncingCatchup);
    p.consistency_proof_failed();
    assert_eq!(p.state, PoolState::DiscoveringTarget);
    p.handle_node_reply("{\"op\":\"LEDGER_STATUS\",\"txnSeqNo\":12}", "n1");
    p.handle_node_reply("{\"op\":\"LEDGER_STATUS\",\"txnSeqNo\":15}", "n2");
    assert_eq!(p.state, PoolState::SyncingCatchup);
    p.consistency_proof_failed();
    assert_eq!(p.state, PoolState::Outdated);
}

#[test]
fn refresh_and_blacklist_from_active() {
    let mut p = active_controller(4);
    p.handle_refresh();
    assert_eq!(p.state, PoolState::DiscoveringTarget);
    let mut q = active_controller(4);
    q.handle_blacklisted();
    assert_eq!(q.state, PoolState::Blacklisted);
}

#[test]
fn send_request_opens_a_tally_and_replies_resolve_it() {
    let mut p = active_controller(4);
    let ev = p.send_request("{\"reqId\":9,\"operation\":{\"type\":\"1\"}}".to_string());
    assert!(ev.is_some());
    assert_eq!(p.trackers.len(), 1);
    let reply = "{\"op\":\"REPLY\",\"reqId\":9,\"result\":{\"v\":1}}";
    match p.handle_node_reply(reply, "n1") {
        ReplyOutcome::Tallied(id, TrackerVerdict::Pending) => assert_eq!(id, "9"),
        other => panic!("unexpected outcome: {:?}", other),
    }
    // byte-different but structurally identical reply from another node agrees
    let reply2 = "{ \"result\" : { \"v\" : 1 }, \"reqId\": 9, \"op\": \"REPLY\" }";
    match p.handle_node_reply(reply2, "n2") {
        ReplyOutcome::Tallied(id, TrackerVerdict::Reached) => assert_eq!(id, "9"),
        other => panic!("unexpected outcome: {:?}", other),
    }
    // the verdict deleted the tally: no double-reporting
    assert_eq!(p.trackers.len(), 0);
    assert!(matches!(p.handle_node_reply(reply, "n3"), ReplyOutcome::Ignored));
}

#[test]
fn send_request_rejected_outside_active() {
    let mut p = PoolController::new(4, 10, 2, OpTables::new_default());
    assert!(p.send_request("{\"reqId\":9,\"operation\":{\"type\":\"1\"}}".to_string()).is_none());
    assert_eq!(p.trackers.len(), 0);
}

#[test]
fn misclassified_request_opens_no_tally() {
    let mut p = active_controller(4);
    let ev = p.send_request("not json".to_string());
    assert!(ev.is_some());
    assert_eq!(p.trackers.len(), 0);
}

#[test]
fn close_mid_tally_yields_no_verdict() {
    let mut p = active_controller(4);
    p.send_request("{\"reqId\":9,\"operation\":{\"type\":\"1\"}}".to_string());
    let reply = "{\"op\":\"REPLY\",\"reqId\":9,\"result\":{\"v\":1}}";
    assert!(matches!(
        p.handle_node_reply(reply, "n1"),
        ReplyOutcome::Tallied(_, TrackerVerdict::Pending)
    ));
    p.close();
    assert_eq!(p.state, PoolState::Closed);
    assert_eq!(p.trackers.len(), 0);
    // the discarded tracker emits nothing, even when agreement would have come
    assert!(matches!(p.handle_node_reply(reply, "n2"), ReplyOutcome::Ignored));
    assert!(matches!(p.handle_node_reply(reply, "n3"), ReplyOutcome::Ignored));
}

#[test]
fn request_timeout_discards_the_tally_once() {
    let mut p = active_controller(4);
    p.send_request("{\"reqId\":9,\"operation\":{\"type\":\"1\"}}".to_string());
    assert!(p.request_timed_out("9"));
    assert_eq!(p.trackers.len(), 0);
    // a timer firing after the verdict is a no-op
    assert!(!p.request_timed_out("9"));
}

#[test]
fn malformed_bytes_change_nothing() {
    let mut p = active_controller(4);
    p.send_request("{\"reqId\":9,\"operation\":{\"type\":\"1\"}}".to_string());
    let good = "{\"op\":\"REPLY\",\"reqId\":9,\"result\":{\"v\":1}}";
    assert!(matches!(
        p.handle_node_reply(good, "n1"),
        ReplyOutcome::Tallied(_, TrackerVerdict::Pending)
    ));
    // one hostile node spews garbage: state and tallies are untouched
    for junk in ["", "%%%", "{\"op\":\"REPLY\"}", "{\"op\":\"EVIL\",\"reqId\":9}"] {
        assert!(matches!(p.handle_node_reply(junk, "evil"), ReplyOutcome::Ignored));
        assert_eq!(p.state, PoolState::Active);
        assert_eq!(p.trackers.len(), 1);
        assert_eq!(p.trackers[0].tally.total, 1);
    }
    // the other nodes' valid replies still resolve the request
    assert!(matches!(
        p.handle_node_reply(good, "n2"),
        ReplyOutcome::Tallied(_, TrackerVerdict::Reached)
    ));
}

#[test]
fn pool_outdated_and_synced_signals() {
    let mut p = PoolController::new(4, 10, 2, OpTables::new_default());
    p.handle_node_reply("{\"op\":\"LEDGER_STATUS\",\"txnSeqNo\":12}", "n1");
    p.handle_node_reply("{\"op\":\"LEDGER_STATUS\",\"txnSeqNo\":15}", "n2");
    assert_eq!(p.state, PoolState::SyncingCatchup);
    p.handle_synced();
    assert_eq!(p.state, PoolState::Active);
    p.handle_pool_outdated();
    assert_eq!(p.state, PoolState::Outdated);
    // terminal: further signals change nothing
    p.handle_refresh();
    p.handle_synced();
    p.handle_timeout();
    assert_eq!(p.state, PoolState::Outdated);
}

#[test]
fn dispatch_policy_by_mode() {
    let p = active_controller(4);
    assert_eq!(
        p.dispatch_for_mode(RequestMode::SingleWithProof),
        NetworkerEvent::SendOneRequest
    );
    assert_eq!(p.dispatch_for_mode(RequestMode::Full), NetworkerEvent::SendAllRequest);
    assert_eq!(p.dispatch_for_mode(RequestMode::Consensus), NetworkerEvent::SendAllRequest);
}
