use pool_events::resolver::RequestMode;
use pool_events::tracker::{ConsensusTally, TrackerVerdict};

#[test]
fn two_matching_of_four_reach_consensus() {
    let mut t = ConsensusTally::new(RequestMode::Consensus, 4);
    assert_eq!(t.add_reply("n1", "fp-a"), TrackerVerdict::Pending);
    assert_eq!(t.add_reply("n2", "fp-a"), TrackerVerdict::Reached);
}

#[test]
fn one_matching_and_three_distinct_fail_consensus() {
    let mut t = ConsensusTally::new(RequestMode::Consensus, 4);
    assert_eq!(t.add_reply("n1", "fp-a"), TrackerVerdict::Pending);
    assert_eq!(t.add_reply("n2", "fp-b"), TrackerVerdict::Pending);
    assert_eq!(t.add_reply("n3", "fp-c"), TrackerVerdict::Pending);
    assert_eq!(t.add_reply("n4", "fp-d"), TrackerVerdict::Failed);
}

#[test]
fn dissent_then_agreement_still_reaches() {
    let mut t = ConsensusTally::new(RequestMode::Consensus, 7);
    assert_eq!(t.add_reply("n1", "nack:err"), TrackerVerdict::Pending);
    assert_eq!(t.add_reply("n2", "fp-a"), TrackerVerdict::Pending);
    assert_eq!(t.add_reply("n3", "fp-a"), TrackerVerdict::Pending);
    assert_eq!(t.add_reply("n4", "fp-a"), TrackerVerdict::Reached);
}

#[test]
fn duplicate_alias_is_counted_once() {
    let mut t = ConsensusTally::new(RequestMode::Consensus, 4);
    assert_eq!(t.add_reply("n1", "fp-a"), TrackerVerdict::Pending);
    assert_eq!(t.add_reply("n1", "fp-a"), TrackerVerdict::Pending);
    assert_eq!(t.total, 1);
    assert_eq!(t.entries.len(), 1);
    assert_eq!(t.entries[0].aliases.len(), 1);
}

#[test]
fn full_mode_needs_every_node() {
    let mut t = ConsensusTally::new(RequestMode::Full, 5);
    assert_eq!(t.add_reply("n1", "fp-a"), TrackerVerdict::Pending);
    assert_eq!(t.add_reply("n2", "fp-a"), TrackerVerdict::Pending);
    assert_eq!(t.add_reply("n3", "fp-a"), TrackerVerdict::Pending);
    assert_eq!(t.add_reply("n4", "fp-a"), TrackerVerdict::Pending);
    assert_eq!(t.add_reply("n5", "fp-a"), TrackerVerdict::Reached);
}

#[test]
fn full_mode_nacks_do_not_short_circuit() {
    let mut t = ConsensusTally::new(RequestMode::Full, 5);
    assert_eq!(t.add_reply("n1", "fp-a"), TrackerVerdict::Pending);
    assert_eq!(t.add_reply("n2", "nack:no"), TrackerVerdict::Pending);
    assert_eq!(t.add_reply("n3", "reject:busy"), TrackerVerdict::Pending);
    assert_eq!(t.add_reply("n4", "fp-b"), TrackerVerdict::Pending);
    assert_eq!(t.add_reply("n5", "fp-c"), TrackerVerdict::Reached);
}

#[test]
fn single_mode_waits_for_proof_verification() {
    let mut t = ConsensusTally::new(RequestMode::SingleWithProof, 4);
    assert_eq!(t.add_reply("n1", "fp-a"), TrackerVerdict::Pending);
    assert_eq!(t.apply_proof_outcome(true), TrackerVerdict::Reached);
    assert_eq!(t.apply_proof_outcome(false), TrackerVerdict::Failed);
}

#[test]
fn single_node_pool_reaches_on_one_reply() {
    let mut t = ConsensusTally::new(RequestMode::Consensus, 1);
    assert_eq!(t.add_reply("n1", "fp-a"), TrackerVerdict::Reached);
}

#[test]
fn tally_rows_group_by_fingerprint() {
    let mut t = ConsensusTally::new(RequestMode::Consensus, 7);
    t.add_reply("n1", "fp-a");
    t.add_reply("n2", "fp-b");
    t.add_reply("n3", "fp-a");
    assert_eq!(t.entries.len(), 2);
    assert_eq!(t.total, 3);
    let a = t.entries.iter().find(|e| e.fingerprint == "fp-a").expect("row for fp-a");
    assert_eq!(a.aliases, vec!["n1".to_string(), "n3".to_string()]);
    let b = t.entries.iter().find(|e| e.fingerprint == "fp-b").expect("row for fp-b");
    assert_eq!(b.aliases, vec!["n2".to_string()]);
}
