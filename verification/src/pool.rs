use vstd::prelude::*;
use crate::events::{request_event_matches, NetworkerEvent, PoolEvent, RequestEvent};
use crate::messages::{classify_message, lemma_tags_distinct, spec_classifies, NodeMessage};
use crate::resolver::{OpTables, RequestMode};
use crate::text::{decimal_string, spec_decimal, str_eq};
use crate::tracker::{quorum_threshold, spec_threshold, ConsensusTally, TrackerVerdict};
use crate::wire::{fingerprint_of, canonical_fingerprint, json_msg_tag, json_op_type, json_req_id, json_seq_no, json_ok};

verus! {

/// The lifecycle of one pool connection. Exactly one state is current;
/// every transition is a total function of the state and the event.
/// `Outdated`, `Blacklisted` and `Closed` are terminal for the session.
#[derive(Clone, Copy, PartialEq, Eq, Structural, Debug)]
pub enum PoolState {
    DiscoveringTarget,
    SyncingCatchup,
    Active,
    Outdated,
    Blacklisted,
    Closed,
}

/// The open tally of one in-flight request.
pub struct RequestTracker {
    /// The request id the tally is keyed by.
    pub req_id: String,
    /// The accumulated replies.
    pub tally: ConsensusTally,
}

/// What handling one inbound node payload came to.
#[derive(Debug)]
pub enum ReplyOutcome {
    /// Dropped: unparsable, not relevant in the current state, or for no
    /// open request.
    Ignored,
    /// A ledger status was recorded; still discovering.
    StatusRecorded,
    /// Discovery finished: catch-up must run up to the returned target.
    CatchupStarted(u64),
    /// Discovery finished: the local ledger is already current.
    AlreadyCurrent,
    /// A catch-up batch was applied; the target is not yet reached.
    CatchupApplied,
    /// Catch-up reached the target.
    Synced,
    /// The reply was tallied for the request id, with the tally's verdict.
    Tallied(String, TrackerVerdict),
}

/// Whether the discriminator is one of the four reply kinds that carry a
/// request id.
pub open spec fn is_reply_tag(t: Option<Seq<char>>) -> bool {
    t == Some("REPLY"@) || t == Some("REQACK"@) || t == Some("REQNACK"@) || t == Some("REJECT"@)
}

/// The top-level lifecycle state machine of one pool connection. Owns its
/// whole state exclusively; nothing is shared across connections.
pub struct PoolController {
    /// The current lifecycle state.
    pub state: PoolState,
    /// How many validator nodes are known.
    pub node_count: usize,
    /// The size of the local ledger copy.
    pub local_seq_no: u64,
    /// The catch-up target picked at discovery.
    pub target_seq_no: u64,
    /// How many ledger statuses discovery has collected so far.
    pub status_count: usize,
    /// The largest ledger size any collected status reported.
    pub status_max: u64,
    /// How many discovery retries a failed consistency proof may still
    /// trigger.
    pub retries_left: usize,
    /// The open tallies, one per in-flight request id.
    pub trackers: Vec<RequestTracker>,
    /// The classification tables for outbound requests.
    pub tables: OpTables,
}

/// One tallying step: what `ConsensusTally::add_reply` leaves of a tally.
/// A node already tallied changes nothing; a fresh one adds a single
/// reply under the fingerprint.
pub open spec fn tally_step(
    a: ConsensusTally,
    b: ConsensusTally,
    alias: Seq<char>,
    fp: Seq<char>,
) -> bool {
    &&& b.mode == a.mode
    &&& b.node_count == a.node_count
    &&& (a.spec_has_alias(alias) ==> b == a)
    &&& (!a.spec_has_alias(alias) ==> b.total == a.total + 1 && b.spec_count_of(fp)
        == a.spec_count_of(fp) + 1 && b.spec_voted_for(fp, alias))
}

/// Whether handling a reply-kind payload carrying the request id `n` in
/// the active state turned the old controller `a` into `b` with the
/// outcome `out`: the matching tally alone is stepped, a verdict removes
/// it (no double-reporting), and a tally that can take no more replies
/// ignores the payload.
pub open spec fn active_tallied(
    a: PoolController,
    b: PoolController,
    raw: Seq<char>,
    alias: Seq<char>,
    n: u64,
    out: ReplyOutcome,
) -> bool {
    exists|i: int|
        {
            &&& 0 <= i < a.trackers@.len()
            &&& (#[trigger] a.trackers@[i]).req_id@ == spec_decimal(n as int)
            &&& if a.trackers@[i].tally.total >= a.trackers@[i].tally.node_count {
                b == a && out is Ignored
            } else {
                &&& b.state == a.state
                &&& b.node_count == a.node_count
                &&& b.local_seq_no == a.local_seq_no
                &&& b.target_seq_no == a.target_seq_no
                &&& b.status_count == a.status_count
                &&& b.status_max == a.status_max
                &&& b.retries_left == a.retries_left
                &&& b.tables == a.tables
                &&& (out matches ReplyOutcome::Tallied(rid, v) && rid@ == spec_decimal(n as int)
                    && if v is Pending {
                    &&& b.trackers@.len() == a.trackers@.len()
                    &&& (forall|j: int|
                        0 <= j < a.trackers@.len() && j != i ==> b.trackers@[j] == a.trackers@[j])
                    &&& b.trackers@[i].req_id == a.trackers@[i].req_id
                    &&& tally_step(
                        a.trackers@[i].tally,
                        b.trackers@[i].tally,
                        alias,
                        fingerprint_of(raw),
                    )
                } else {
                    b.trackers@ == a.trackers@.remove(i)
                })
            }
        }
}

/// Find the open tally keyed by a request id.
fn find_tracker(trackers: &Vec<RequestTracker>, id: &str) -> (r: Option<usize>)
    ensures
        match r {
            Some(i) => i < trackers@.len() && trackers@[i as int].req_id@ == id@,
            None => forall|i: int|
                0 <= i < trackers@.len() ==> (#[trigger] trackers@[i]).req_id@ != id@,
        },
{
    let mut i: usize = 0;
    while i < trackers.len()
        invariant
            i <= trackers@.len(),
            forall|j: int| 0 <= j < i ==> (#[trigger] trackers@[j]).req_id@ != id@,
        decreases trackers@.len() - i,
    {
        if str_eq(trackers[i].req_id.as_str(), id) {
            return Some(i);
        }
        i += 1;
    }
    None
}

impl PoolController {
    /// Well-formedness: at least one node is known, discovery has not yet
    /// collected a quorum of statuses, and every open tally is sound and
    /// counts against this pool's node count.
    pub open spec fn wf(self) -> bool {
        &&& self.node_count >= 1
        &&& (self.status_count as int) < spec_threshold(self.node_count as int)
        &&& forall|i: int|
            0 <= i < self.trackers@.len() ==> (#[trigger] self.trackers@[i]).tally.wf() && self
                .trackers@[i].tally.node_count == self.node_count
    }

    /// Whether a tally keyed by `id` is open.
    pub open spec fn spec_has_tracker(self, id: Seq<char>) -> bool {
        exists|i: int|
            0 <= i < self.trackers@.len() && (#[trigger] self.trackers@[i]).req_id@ == id
    }

    /// A fresh connection: discovery starts at once, with nothing
    /// collected and no request in flight.
    pub fn new(node_count: usize, local_seq_no: u64, retry_budget: usize, tables: OpTables) -> (p:
        PoolController)
        requires
            node_count >= 1,
        ensures
            p.wf(),
            p.state == PoolState::DiscoveringTarget,
            p.node_count == node_count,
            p.local_seq_no == local_seq_no,
            p.target_seq_no == local_seq_no,
            p.status_count == 0,
            p.status_max == 0,
            p.retries_left == retry_budget,
            p.trackers@.len() == 0,
            p.tables == tables,
    {
        PoolController {
            state: PoolState::DiscoveringTarget,
            node_count,
            local_seq_no,
            target_seq_no: local_seq_no,
            status_count: 0,
            status_max: 0,
            retries_left: retry_budget,
            trackers: Vec::new(),
            tables,
        }
    }

    /// `Close` is the cancellation primitive: from any state it discards
    /// every open tally synchronously — no stale verdict can be delivered
    /// after closure — and moves to the terminal closed state.
    pub fn close(&mut self)
        requires
            old(self).wf(),
        ensures
            final(self).wf(),
            final(self).state == PoolState::Closed,
            final(self).trackers@.len() == 0,
            final(self).node_count == old(self).node_count,
            final(self).local_seq_no == old(self).local_seq_no,
            final(self).target_seq_no == old(self).target_seq_no,
            final(self).status_count == old(self).status_count,
            final(self).status_max == old(self).status_max,
            final(self).retries_left == old(self).retries_left,
            final(self).tables == old(self).tables,
    {
        self.state = PoolState::Closed;
        self.trackers = Vec::new();
    }

    /// A discovery timeout: the statuses did not arrive in time, so the
    /// pool is outdated. In any other state the event changes nothing —
    /// per-request timeouts go through `request_timed_out`.
    pub fn handle_timeout(&mut self)
        requires
            old(self).wf(),
        ensures
            final(self).wf(),
            old(self).state == PoolState::DiscoveringTarget ==> *final(self) == (PoolController {
                state: PoolState::Outdated,
                ..*old(self)
            }),
            old(self).state != PoolState::DiscoveringTarget ==> *final(self) == *old(self),
    {
        if matches!(self.state, PoolState::DiscoveringTarget) {
            self.state = PoolState::Outdated;
        }
    }

    /// `Refresh` re-enters discovery from the active state without
    /// tearing the connection down; anywhere else it changes nothing.
    pub fn handle_refresh(&mut self)
        requires
            old(self).wf(),
        ensures
            final(self).wf(),
            old(self).state == PoolState::Active ==> *final(self) == (PoolController {
                state: PoolState::DiscoveringTarget,
                status_count: 0,
                status_max: 0,
                ..*old(self)
            }),
            old(self).state != PoolState::Active ==> *final(self) == *old(self),
    {
        if matches!(self.state, PoolState::Active) {
            self.state = PoolState::DiscoveringTarget;
            self.status_count = 0;
            self.status_max = 0;
        }
    }

    /// Nodes were blacklisted while active: stop issuing new requests.
    pub fn handle_blacklisted(&mut self)
        requires
            old(self).wf(),
        ensures
            final(self).wf(),
            old(self).state == PoolState::Active ==> *final(self) == (PoolController {
                state: PoolState::Blacklisted,
                ..*old(self)
            }),
            old(self).state != PoolState::Active ==> *final(self) == *old(self),
    {
        if matches!(self.state, PoolState::Active) {
            self.state = PoolState::Blacklisted;
        }
    }

    /// The pool was found outdated: terminal for this session, reachable
    /// from any working state.
    pub fn handle_pool_outdated(&mut self)
        requires
            old(self).wf(),
        ensures
            final(self).wf(),
            (old(self).state == PoolState::DiscoveringTarget || old(self).state
                == PoolState::SyncingCatchup || old(self).state == PoolState::Active) ==> *final(self) == (PoolController { state: PoolState::Outdated, ..*old(self) }),
            !(old(self).state == PoolState::DiscoveringTarget || old(self).state
                == PoolState::SyncingCatchup || old(self).state == PoolState::Active) ==> *final(self) == *old(self),
    {
        match self.state {
            PoolState::DiscoveringTarget | PoolState::SyncingCatchup | PoolState::Active => {
                self.state = PoolState::Outdated;
            },
            _ => {},
        }
    }

    /// The catch-up machinery reports the ledger synchronized: steady
    /// state begins.
    pub fn handle_synced(&mut self)
        requires
            old(self).wf(),
        ensures
            final(self).wf(),
            old(self).state == PoolState::SyncingCatchup ==> *final(self) == (PoolController {
                state: PoolState::Active,
                ..*old(self)
            }),
            old(self).state != PoolState::SyncingCatchup ==> *final(self) == *old(self),
    {
        if matches!(self.state, PoolState::SyncingCatchup) {
            self.state = PoolState::Active;
        }
    }

    /// The external checker rejected a consistency proof during catch-up:
    /// retry discovery while the budget lasts, else the pool is outdated.
    /// The retry is an explicit, observable transition, not a hidden loop.
    pub fn consistency_proof_failed(&mut self)
        requires
            old(self).wf(),
        ensures
            final(self).wf(),
            old(self).state == PoolState::SyncingCatchup && old(self).retries_left > 0 ==> *final(self) == (PoolController {
                state: PoolState::DiscoveringTarget,
                status_count: 0,
                status_max: 0,
                retries_left: (old(self).retries_left - 1) as usize,
                ..*old(self)
            }),
            old(self).state == PoolState::SyncingCatchup && old(self).retries_left == 0 ==> *final(self) == (PoolController { state: PoolState::Outdated, ..*old(self) }),
            old(self).state != PoolState::SyncingCatchup ==> *final(self) == *old(self),
    {
        if matches!(self.state, PoolState::SyncingCatchup) {
            if self.retries_left > 0 {
                self.retries_left = self.retries_left - 1;
                self.status_count = 0;
                self.status_max = 0;
                self.state = PoolState::DiscoveringTarget;
            } else {
                self.state = PoolState::Outdated;
            }
        }
    }

    /// Drop the tally of a request whose verdict never came, so the
    /// caller reports the timeout exactly once. A timeout that arrives
    /// after the verdict finds no tally and changes nothing.
    pub fn request_timed_out(&mut self, req_id: &str) -> (had: bool)
        requires
            old(self).wf(),
        ensures
            final(self).wf(),
            final(self).state == old(self).state,
            final(self).node_count == old(self).node_count,
            final(self).local_seq_no == old(self).local_seq_no,
            final(self).target_seq_no == old(self).target_seq_no,
            final(self).status_count == old(self).status_count,
            final(self).status_max == old(self).status_max,
            final(self).retries_left == old(self).retries_left,
            final(self).tables == old(self).tables,
            had == old(self).spec_has_tracker(req_id@),
            !had ==> *final(self) == *old(self),
            had ==> exists|i: int|
                0 <= i < old(self).trackers@.len() && (#[trigger] old(self).trackers@[i]).req_id@ == req_id@ && final(self).trackers@ == old(self).trackers@.remove(i),
    {
        let found = find_tracker(&self.trackers, req_id);
        match found {
            Some(i) => {
                let ghost olds = self.trackers@;
                self.trackers.remove(i);
                proof {
                    assert(old(self).spec_has_tracker(req_id@)) by {
                        assert(olds[i as int].req_id@ == req_id@);
                    }
                    assert forall|k: int|
                        0 <= k < self.trackers@.len() implies (#[trigger] self.trackers@[k]).tally
                        .wf() && self.trackers@[k].tally.node_count == self.node_count by {
                        assert(self.trackers@[k] == if k < i as int {
                            olds[k]
                        } else {
                            olds[k + 1]
                        });
                    }
                }
                true
            },
            None => false,
        }
    }

    /// The node-selection policy for a classified request: a
    /// single-with-proof request goes to one node, whose answer the
    /// state proof lets us trust; a full-quorum or consensus request
    /// fans out to every known node.
    pub fn dispatch_for_mode(&self, mode: RequestMode) -> (e: NetworkerEvent)
        ensures
            mode == RequestMode::SingleWithProof ==> e == NetworkerEvent::SendOneRequest,
            mode != RequestMode::SingleWithProof ==> e == NetworkerEvent::SendAllRequest,
    {
        match mode {
            RequestMode::SingleWithProof => NetworkerEvent::SendOneRequest,
            _ => NetworkerEvent::SendAllRequest,
        }
    }

    /// Classify an outbound request while active: translate it (the
    /// caller sees its resolved id, or exactly why it could not be
    /// classified), and open a tally for it when classification
    /// succeeded. In any other state nothing is sent and nothing changes.
    pub fn send_request(&mut self, msg: String) -> (r: Option<RequestEvent>)
        requires
            old(self).wf(),
        ensures
            final(self).wf(),
            old(self).state != PoolState::Active ==> *final(self) == *old(self) && r is None,
            old(self).state == PoolState::Active ==> {
                &&& (r matches Some(re) && request_event_matches(re, old(self).tables, msg@))
                &&& final(self).state == old(self).state
                &&& final(self).node_count == old(self).node_count
                &&& final(self).local_seq_no == old(self).local_seq_no
                &&& final(self).target_seq_no == old(self).target_seq_no
                &&& final(self).status_count == old(self).status_count
                &&& final(self).status_max == old(self).status_max
                &&& final(self).retries_left == old(self).retries_left
                &&& final(self).tables == old(self).tables
                &&& match (json_req_id(msg@), json_op_type(msg@)) {
                    (Some(n), Some(op)) => json_ok(msg@) ==> {
                        &&& final(self).trackers@.len() == old(self).trackers@.len() + 1
                        &&& final(self).trackers@.last().req_id@ == spec_decimal(n as int)
                        &&& final(self).trackers@.last().tally.mode == old(self).tables.spec_mode_of(op)
                        &&& final(self).trackers@.last().tally.total == 0
                        &&& final(self).trackers@.last().tally.entries@.len() == 0
                        &&& final(self).trackers@.last().tally.node_count == old(self).node_count
                        &&& (forall|j: int|
                            0 <= j < old(self).trackers@.len() ==> final(self).trackers@[j] == old(
                                self,
                            ).trackers@[j])
                    },
                    _ => final(self).trackers@ == old(self).trackers@,
                }
                &&& (!json_ok(msg@) ==> final(self).trackers@ == old(self).trackers@)
            },
    {
        if !matches!(self.state, PoolState::Active) {
            return None;
        }
        let ev = PoolEvent::SendRequest(msg);
        let translated = ev.into_request_event(&self.tables);
        let re = match translated {
            Some(re) => re,
            None => {
                proof {
                    assert(false);
                }
                return None;
            },
        };
        let mode: RequestMode;
        let id: String;
        match &re {
            RequestEvent::CustomSingleRequest(_, res) => {
                match res {
                    Ok(i) => {
                        mode = RequestMode::SingleWithProof;
                        id = i.clone();
                    },
                    Err(_) => {
                        return Some(re);
                    },
                }
            },
            RequestEvent::CustomConsensusRequest(_, res) => {
                match res {
                    Ok(i) => {
                        mode = RequestMode::Consensus;
                        id = i.clone();
                    },
                    Err(_) => {
                        return Some(re);
                    },
                }
            },
            RequestEvent::CustomFullRequest(_, res) => {
                match res {
                    Ok(i) => {
                        mode = RequestMode::Full;
                        id = i.clone();
                    },
                    Err(_) => {
                        return Some(re);
                    },
                }
            },
            _ => {
                proof {
                    assert(false);
                }
                return None;
            },
        }
        let tally = ConsensusTally::new(mode, self.node_count);
        self.trackers.push(RequestTracker { req_id: id, tally });
        Some(re)
    }

    /// Handle one raw payload received from a node. Malformed or
    /// unrecognized bytes never change anything — one hostile or buggy
    /// node never destabilizes the pool. While discovering, a quorum of
    /// ledger statuses picks the catch-up target; while catching up, a
    /// catch-up batch advances the local ledger until the target is
    /// reached; while active, a reply-kind payload is tallied against its
    /// open request, other requests' tallies untouched. Everything else
    /// is dropped.
    pub fn handle_node_reply(&mut self, raw: &str, alias: &str) -> (out: ReplyOutcome)
        requires
            old(self).wf(),
        ensures
            final(self).wf(),
            !spec_classifies(raw@) ==> *final(self) == *old(self) && out is Ignored,
            match old(self).state {
                PoolState::DiscoveringTarget => if spec_classifies(raw@) && json_msg_tag(raw@)
                    == Some("LEDGER_STATUS"@) {
                    match json_seq_no(raw@) {
                        Some(n) => {
                            let newmax = if n > old(self).status_max {
                                n
                            } else {
                                old(self).status_max
                            };
                            if old(self).status_count + 1 < spec_threshold(
                                old(self).node_count as int,
                            ) {
                                *final(self) == (PoolController {
                                    status_count: (old(self).status_count + 1) as usize,
                                    status_max: newmax,
                                    ..*old(self)
                                }) && out is StatusRecorded
                            } else if newmax <= old(self).local_seq_no {
                                *final(self) == (PoolController {
                                    state: PoolState::Active,
                                    status_count: 0,
                                    status_max: 0,
                                    ..*old(self)
                                }) && out is AlreadyCurrent
                            } else {
                                *final(self) == (PoolController {
                                    state: PoolState::SyncingCatchup,
                                    status_count: 0,
                                    status_max: 0,
                                    target_seq_no: newmax,
                                    ..*old(self)
                                }) && (out matches ReplyOutcome::CatchupStarted(t) && t == newmax)
                            }
                        },
                        None => false,
                    }
                } else {
                    *final(self) == *old(self) && out is Ignored
                },
                PoolState::SyncingCatchup => if spec_classifies(raw@) && json_msg_tag(raw@)
                    == Some("CATCHUP_REP"@) {
                    match json_seq_no(raw@) {
                        Some(n) => if n >= old(self).target_seq_no {
                            *final(self) == (PoolController {
                                state: PoolState::Active,
                                local_seq_no: n,
                                ..*old(self)
                            }) && out is Synced
                        } else {
                            *final(self) == (PoolController {
                                local_seq_no: n,
                                ..*old(self)
                            }) && out is CatchupApplied
                        },
                        None => false,
                    }
                } else {
                    *final(self) == *old(self) && out is Ignored
                },
                PoolState::Active => if spec_classifies(raw@) && is_reply_tag(json_msg_tag(raw@)) {
                    match json_req_id(raw@) {
                        Some(n) => if !old(self).spec_has_tracker(spec_decimal(n as int)) {
                            *final(self) == *old(self) && out is Ignored
                        } else {
                            active_tallied(*old(self), *final(self), raw@, alias@, n, out)
                        },
                        None => false,
                    }
                } else {
                    *final(self) == *old(self) && out is Ignored
                },
                _ => *final(self) == *old(self) && out is Ignored,
            },
    {
        proof {
            lemma_tags_distinct();
        }
        let parsed = classify_message(raw);
        let msg = match parsed {
            Some(m) => m,
            None => {
                return ReplyOutcome::Ignored;
            },
        };
        match self.state {
            PoolState::DiscoveringTarget => {
                match msg {
                    NodeMessage::LedgerStatus(ls) => {
                        let n = ls.txn_seq_no;
                        let newmax = if n > self.status_max {
                            n
                        } else {
                            self.status_max
                        };
                        let threshold = quorum_threshold(self.node_count);
                        let cnt = self.status_count + 1;
                        if cnt < threshold {
                            self.status_count = cnt;
                            self.status_max = newmax;
                            ReplyOutcome::StatusRecorded
                        } else {
                            self.status_count = 0;
                            self.status_max = 0;
                            if newmax <= self.local_seq_no {
                                self.state = PoolState::Active;
                                ReplyOutcome::AlreadyCurrent
                            } else {
                                self.target_seq_no = newmax;
                                self.state = PoolState::SyncingCatchup;
                                ReplyOutcome::CatchupStarted(newmax)
                            }
                        }
                    },
                    _ => ReplyOutcome::Ignored,
                }
            },
            PoolState::SyncingCatchup => {
                match msg {
                    NodeMessage::CatchupRep(c) => {
                        self.local_seq_no = c.txn_seq_no;
                        if c.txn_seq_no >= self.target_seq_no {
                            self.state = PoolState::Active;
                            ReplyOutcome::Synced
                        } else {
                            ReplyOutcome::CatchupApplied
                        }
                    },
                    _ => ReplyOutcome::Ignored,
                }
            },
            PoolState::Active => {
                let n: u64;
                match &msg {
                    NodeMessage::Reply(p) => {
                        n = p.req_id;
                    },
                    NodeMessage::RequestAck(p) => {
                        n = p.req_id;
                    },
                    NodeMessage::RequestNack(p) => {
                        n = p.req_id;
                    },
                    NodeMessage::Reject(p) => {
                        n = p.req_id;
                    },
                    _ => {
                        return ReplyOutcome::Ignored;
                    },
                }
                let id = decimal_string(n);
                let found = find_tracker(&self.trackers, id.as_str());
                match found {
                    None => ReplyOutcome::Ignored,
                    Some(i) => {
                        let ghost olds = self.trackers@;
                        proof {
                            assert(old(self).spec_has_tracker(spec_decimal(n as int))) by {
                                assert(olds[i as int].req_id@ == spec_decimal(n as int));
                            }
                        }
                        if self.trackers[i].tally.total >= self.trackers[i].tally.node_count {
                            return ReplyOutcome::Ignored;
                        }
                        let fp = canonical_fingerprint(raw);
                        let mut rt = self.trackers.remove(i);
                        let v = rt.tally.add_reply(alias, fp.as_str());
                        let rid = rt.req_id.clone();
                        if matches!(v, TrackerVerdict::Pending) {
                            let ghost newrt = rt;
                            self.trackers.insert(i, rt);
                            proof {
                                assert(self.trackers@ =~= olds.update(i as int, newrt));
                                assert forall|k: int|
                                    0 <= k < self.trackers@.len() implies (#[trigger] self
                                    .trackers@[k]).tally.wf() && self.trackers@[k].tally.node_count
                                    == self.node_count by {
                                    if k != i as int {
                                        assert(self.trackers@[k] == olds[k]);
                                    }
                                }
                            }
                        } else {
                            proof {
                                assert forall|k: int|
                                    0 <= k < self.trackers@.len() implies (#[trigger] self
                                    .trackers@[k]).tally.wf() && self.trackers@[k].tally.node_count
                                    == self.node_count by {
                                    assert(self.trackers@[k] == if k < i as int {
                                        olds[k]
                                    } else {
                                        olds[k + 1]
                                    });
                                }
                            }
                        }
                        ReplyOutcome::Tallied(rid, v)
                    },
                }
            },
            _ => ReplyOutcome::Ignored,
        }
    }
}

} // verus!
