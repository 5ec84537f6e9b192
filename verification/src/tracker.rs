use vstd::prelude::*;
use crate::resolver::RequestMode;
use crate::text::{contains_str, lemma_contains_str_push, spec_contains_str};
use crate::text::str_eq;

verus! {

/// The quorum threshold for `n` known nodes: `f + 1`, where `f = (n-1)/3`
/// is the number of faulty nodes tolerated.
pub open spec fn spec_threshold(n: int) -> int {
    (n - 1) / 3 + 1
}

/// Quorum threshold for `n` known nodes: tolerating `f = (n-1)/3` faulty
/// nodes, `f + 1` identical replies are required to trust a result.
pub fn quorum_threshold(n: usize) -> (t: usize)
    requires
        n >= 1,
    ensures
        t as int == spec_threshold(n as int),
        t == (n - 1) / 3 + 1,
{
    (n - 1) / 3 + 1
}

/// The verdict a tally emits for one reply.
#[derive(Clone, Copy, PartialEq, Eq, Structural, Debug)]
pub enum TrackerVerdict {
    /// No verdict yet; keep tallying.
    Pending,
    /// Enough agreement (or, for a full-quorum request, every node) —
    /// the request is resolved.
    Reached,
    /// No fingerprint can reach the threshold any more.
    Failed,
}

/// One row of a tally: a canonical reply fingerprint and the aliases of
/// the nodes that returned it.
pub struct TallyEntry {
    /// The canonical form of the reply payload.
    pub fingerprint: String,
    /// The nodes that returned exactly this payload.
    pub aliases: Vec<String>,
}

/// The replies accumulated for one request id: a mapping from reply
/// fingerprint to the set of nodes that returned it, with the node count
/// the quorum rule is applied against.
pub struct ConsensusTally {
    /// The trust strategy of the request, decided at classification and
    /// never reconsidered.
    pub mode: RequestMode,
    /// How many nodes the request knows of.
    pub node_count: usize,
    /// How many replies have been tallied.
    pub total: usize,
    /// The tally rows.
    pub entries: Vec<TallyEntry>,
}

/// The number of replies a sequence of rows holds in all.
pub open spec fn sum_counts(s: Seq<TallyEntry>) -> int
    decreases s.len(),
{
    if s.len() == 0 {
        0
    } else {
        sum_counts(s.drop_last()) + s.last().aliases@.len()
    }
}

/// The number of replies whose fingerprint is `fp`.
pub open spec fn count_in(s: Seq<TallyEntry>, fp: Seq<char>) -> int
    decreases s.len(),
{
    if s.len() == 0 {
        0
    } else {
        count_in(s.drop_last(), fp) + if s.last().fingerprint@ == fp {
            s.last().aliases@.len() as int
        } else {
            0
        }
    }
}

/// The largest number of agreeing replies any row holds.
pub open spec fn max_count(s: Seq<TallyEntry>) -> int
    decreases s.len(),
{
    if s.len() == 0 {
        0
    } else {
        let m = max_count(s.drop_last());
        let c = s.last().aliases@.len() as int;
        if c > m {
            c
        } else {
            m
        }
    }
}

/// Pushing a row adds its replies to every aggregate.
proof fn lemma_tally_push(s: Seq<TallyEntry>, e: TallyEntry, fp: Seq<char>)
    ensures
        sum_counts(s.push(e)) == sum_counts(s) + e.aliases@.len(),
        count_in(s.push(e), fp) == count_in(s, fp) + if e.fingerprint@ == fp {
            e.aliases@.len() as int
        } else {
            0
        },
        max_count(s.push(e)) == if e.aliases@.len() as int > max_count(s) {
            e.aliases@.len() as int
        } else {
            max_count(s)
        },
{
    assert(s.push(e).drop_last() =~= s);
    assert(s.push(e).last() == e);
}

/// Replacing the row at `i` shifts every aggregate by the difference
/// between the new row and the old.
proof fn lemma_tally_update(s: Seq<TallyEntry>, i: int, e: TallyEntry, fp: Seq<char>)
    requires
        0 <= i < s.len(),
    ensures
        sum_counts(s.update(i, e)) == sum_counts(s) - s[i].aliases@.len() + e.aliases@.len(),
        count_in(s.update(i, e), fp) == count_in(s, fp) - (if s[i].fingerprint@ == fp {
            s[i].aliases@.len() as int
        } else {
            0
        }) + (if e.fingerprint@ == fp {
            e.aliases@.len() as int
        } else {
            0
        }),
    decreases s.len(),
{
    let t = s.update(i, e);
    if i == s.len() - 1 {
        assert(t.drop_last() =~= s.drop_last());
        assert(t.last() == e);
    } else {
        assert(t.drop_last() =~= s.drop_last().update(i, e));
        assert(t.last() == s.last());
        lemma_tally_update(s.drop_last(), i, e, fp);
    }
}

/// Aggregates are non-negative, and no row exceeds the whole.
pub proof fn lemma_tally_bounds(s: Seq<TallyEntry>, fp: Seq<char>)
    ensures
        0 <= sum_counts(s),
        0 <= count_in(s, fp) <= sum_counts(s),
        0 <= max_count(s) <= sum_counts(s),
    decreases s.len(),
{
    if s.len() > 0 {
        lemma_tally_bounds(s.drop_last(), fp);
    }
}

/// With every fingerprint on one row only, a row's size is the count of
/// its fingerprint.
proof fn lemma_count_entry(s: Seq<TallyEntry>, i: int)
    requires
        0 <= i < s.len(),
        forall|x: int, y: int|
            0 <= x < y < s.len() ==> (#[trigger] s[x]).fingerprint@ != (
            #[trigger] s[y]).fingerprint@,
    ensures
        count_in(s, s[i].fingerprint@) == s[i].aliases@.len(),
    decreases s.len(),
{
    if i == s.len() - 1 {
        lemma_count_absent(s.drop_last(), s[i].fingerprint@);
    } else {
        assert(s.drop_last()[i] == s[i]);
        lemma_count_entry(s.drop_last(), i);
    }
}

/// A fingerprint on no row counts zero.
proof fn lemma_count_absent(s: Seq<TallyEntry>, fp: Seq<char>)
    requires
        forall|x: int| 0 <= x < s.len() ==> (#[trigger] s[x]).fingerprint@ != fp,
    ensures
        count_in(s, fp) == 0,
    decreases s.len(),
{
    if s.len() > 0 {
        lemma_count_absent(s.drop_last(), fp);
    }
}

/// Find the row holding a fingerprint.
fn find_entry(entries: &Vec<TallyEntry>, fp: &str) -> (r: Option<usize>)
    ensures
        match r {
            Some(i) => i < entries@.len() && entries@[i as int].fingerprint@ == fp@,
            None => forall|i: int|
                0 <= i < entries@.len() ==> (#[trigger] entries@[i]).fingerprint@ != fp@,
        },
{
    let mut i: usize = 0;
    while i < entries.len()
        invariant
            i <= entries@.len(),
            forall|j: int| 0 <= j < i ==> (#[trigger] entries@[j]).fingerprint@ != fp@,
        decreases entries@.len() - i,
    {
        if str_eq(entries[i].fingerprint.as_str(), fp) {
            return Some(i);
        }
        i += 1;
    }
    None
}

/// The largest number of agreeing replies among the rows.
fn max_entry_count(entries: &Vec<TallyEntry>) -> (m: usize)
    ensures
        m as int == max_count(entries@),
{
    let mut m: usize = 0;
    let mut i: usize = 0;
    while i < entries.len()
        invariant
            i <= entries@.len(),
            m as int == max_count(entries@.take(i as int)),
        decreases entries@.len() - i,
    {
        let c = entries[i].aliases.len();
        proof {
            assert(entries@.take(i as int + 1).drop_last() =~= entries@.take(i as int));
            assert(entries@.take(i as int + 1).last() == entries@[i as int]);
        }
        if c > m {
            m = c;
        }
        i += 1;
    }
    proof {
        assert(entries@.take(entries@.len() as int) =~= entries@);
    }
    m
}

impl ConsensusTally {
    /// The number of replies whose canonical form is `fp`.
    pub open spec fn spec_count_of(self, fp: Seq<char>) -> int {
        count_in(self.entries@, fp)
    }

    /// The number of replies tallied in all.
    pub open spec fn total_replies(self) -> int {
        sum_counts(self.entries@)
    }

    /// Whether the node `a` has already been tallied.
    pub open spec fn spec_has_alias(self, a: Seq<char>) -> bool {
        exists|i: int|
            0 <= i < self.entries@.len() && spec_contains_str(
                (#[trigger] self.entries@[i]).aliases@,
                a,
            )
    }

    /// Whether the node `a` is tallied under the fingerprint `fp`.
    pub open spec fn spec_voted_for(self, fp: Seq<char>, a: Seq<char>) -> bool {
        exists|i: int|
            0 <= i < self.entries@.len() && (#[trigger] self.entries@[i]).fingerprint@ == fp
                && spec_contains_str(self.entries@[i].aliases@, a)
    }

    /// The quorum threshold this tally applies.
    pub open spec fn threshold(self) -> int {
        spec_threshold(self.node_count as int)
    }

    /// Well-formedness: at least one node is known, the running total is
    /// the sum over the rows and within the node count, and every
    /// fingerprint is on one row only.
    pub open spec fn wf(self) -> bool {
        &&& self.node_count >= 1
        &&& self.total as int == sum_counts(self.entries@)
        &&& self.total <= self.node_count
        &&& forall|x: int, y: int|
            0 <= x < y < self.entries@.len() ==> (#[trigger] self.entries@[x]).fingerprint@ != (
            #[trigger] self.entries@[y]).fingerprint@
    }

    /// An empty tally, created when the first reply for a request id is
    /// expected.
    pub fn new(mode: RequestMode, node_count: usize) -> (t: ConsensusTally)
        requires
            node_count >= 1,
        ensures
            t.wf(),
            t.mode == mode,
            t.node_count == node_count,
            t.total == 0,
            t.entries@.len() == 0,
    {
        ConsensusTally { mode, node_count, total: 0, entries: Vec::new() }
    }

    /// Tally one reply: the canonical fingerprint `fingerprint` returned
    /// by the node `alias`. A node already tallied is ignored. The
    /// verdict follows the request's mode: a consensus request is reached
    /// once the fingerprint accumulates the threshold, and failed once no
    /// fingerprint can reach it with the replies still outstanding; a
    /// full-quorum request is reached only once every node has replied,
    /// however many agree, and never fails here (a nack or reject is a
    /// fingerprint of its own, a dissenting vote, not a failure); a
    /// single-with-proof request stays pending until the delegated proof
    /// verification reports back.
    pub fn add_reply(&mut self, alias: &str, fingerprint: &str) -> (v: TrackerVerdict)
        requires
            old(self).wf(),
            old(self).total < old(self).node_count,
        ensures
            final(self).wf(),
            final(self).mode == old(self).mode,
            final(self).node_count == old(self).node_count,
            old(self).spec_has_alias(alias@) ==> *final(self) == *old(self) && v
                == TrackerVerdict::Pending,
            !old(self).spec_has_alias(alias@) ==> {
                &&& final(self).total == old(self).total + 1
                &&& final(self).spec_count_of(fingerprint@) == old(self).spec_count_of(
                    fingerprint@,
                ) + 1
                &&& (forall|fp: Seq<char>|
                    fp != fingerprint@ ==> #[trigger] final(self).spec_count_of(fp) == old(
                        self,
                    ).spec_count_of(fp))
                &&& final(self).spec_voted_for(fingerprint@, alias@)
                &&& (forall|fp: Seq<char>, a: Seq<char>|
                    !(fp == fingerprint@ && a == alias@) ==> #[trigger] final(self).spec_voted_for(
                        fp,
                        a,
                    ) == old(self).spec_voted_for(fp, a))
                &&& final(self).spec_has_alias(alias@)
                &&& (forall|a: Seq<char>|
                    a != alias@ ==> #[trigger] final(self).spec_has_alias(a) == old(
                        self,
                    ).spec_has_alias(a))
                &&& (final(self).mode == RequestMode::Consensus ==> ((v == TrackerVerdict::Reached
                    <==> final(self).spec_count_of(fingerprint@) >= final(self).threshold()) && (v
                    == TrackerVerdict::Failed <==> final(self).spec_count_of(fingerprint@)
                    < final(self).threshold() && max_count(final(self).entries@)
                    + (final(self).node_count - final(self).total) < final(self).threshold())))
                &&& (final(self).mode == RequestMode::Full ==> ((v == TrackerVerdict::Reached
                    <==> final(self).total == final(self).node_count) && v
                    != TrackerVerdict::Failed))
                &&& (final(self).mode == RequestMode::SingleWithProof ==> v
                    == TrackerVerdict::Pending)
            },
    {
        let ghost old_tally = *self;
        if tally_has_alias(&self.entries, alias) {
            return TrackerVerdict::Pending;
        }
        let ghost olds = self.entries@;
        let idx = find_entry(&self.entries, fingerprint);
        let agreeing: usize;
        match idx {
            Some(i) => {
                let mut entry = self.entries.remove(i);
                entry.aliases.push(alias.to_string());
                agreeing = entry.aliases.len();
                let ghost new_entry = entry;
                self.entries.insert(i, entry);
                proof {
                    assert(self.entries@ =~= olds.update(i as int, new_entry));
                    lemma_update_effect(olds, i as int, new_entry, old_tally, *self, fingerprint@, alias@);
                }
            },
            None => {
                let mut aliases: Vec<String> = Vec::new();
                aliases.push(alias.to_string());
                let entry = TallyEntry { fingerprint: fingerprint.to_string(), aliases };
                agreeing = 1;
                let ghost new_entry = entry;
                self.entries.push(entry);
                proof {
                    lemma_push_effect(olds, new_entry, old_tally, *self, fingerprint@, alias@);
                }
            },
        }
        let ghost mid = *self;
        self.total = self.total + 1;
        let threshold = quorum_threshold(self.node_count);
        proof {
            lemma_tally_bounds(self.entries@, fingerprint@);
            assert forall|fp: Seq<char>| fp != fingerprint@ implies #[trigger] self.spec_count_of(
                fp,
            ) == old_tally.spec_count_of(fp) by {
                assert(mid.spec_count_of(fp) == old_tally.spec_count_of(fp));
                assert(self.spec_count_of(fp) == mid.spec_count_of(fp));
            }
            assert forall|fp: Seq<char>, a: Seq<char>|
                !(fp == fingerprint@ && a == alias@) implies #[trigger] self.spec_voted_for(fp, a)
                == old_tally.spec_voted_for(fp, a) by {
                assert(mid.spec_voted_for(fp, a) == old_tally.spec_voted_for(fp, a));
                assert(self.entries@ == mid.entries@);
                assert(self.spec_voted_for(fp, a) == mid.spec_voted_for(fp, a));
            }
            assert(self.spec_has_alias(alias@)) by {
                assert(self.entries@ == mid.entries@);
                assert(mid.spec_has_alias(alias@));
            }
            assert forall|a: Seq<char>| a != alias@ implies #[trigger] self.spec_has_alias(a)
                == old_tally.spec_has_alias(a) by {
                assert(mid.spec_has_alias(a) == old_tally.spec_has_alias(a));
                assert(self.entries@ == mid.entries@);
                assert(self.spec_has_alias(a) == mid.spec_has_alias(a));
            }
        }
        match self.mode {
            RequestMode::Consensus => {
                if agreeing >= threshold {
                    TrackerVerdict::Reached
                } else {
                    let m = max_entry_count(&self.entries);
                    if m + (self.node_count - self.total) < threshold {
                        TrackerVerdict::Failed
                    } else {
                        TrackerVerdict::Pending
                    }
                }
            },
            RequestMode::Full => {
                if self.total == self.node_count {
                    TrackerVerdict::Reached
                } else {
                    TrackerVerdict::Pending
                }
            },
            RequestMode::SingleWithProof => TrackerVerdict::Pending,
        }
    }

    /// The outcome of the delegated state-proof verification for a
    /// single-with-proof request: a verified proof resolves the request;
    /// a failed verification fails it, never silently accepted.
    pub fn apply_proof_outcome(&self, ok: bool) -> (v: TrackerVerdict)
        requires
            self.mode == RequestMode::SingleWithProof,
        ensures
            v == if ok {
                TrackerVerdict::Reached
            } else {
                TrackerVerdict::Failed
            },
    {
        if ok {
            TrackerVerdict::Reached
        } else {
            TrackerVerdict::Failed
        }
    }
}

/// Whether any row tallies the node `alias`.
fn tally_has_alias(entries: &Vec<TallyEntry>, alias: &str) -> (r: bool)
    ensures
        r == exists|i: int|
            0 <= i < entries@.len() && spec_contains_str(
                (#[trigger] entries@[i]).aliases@,
                alias@,
            ),
{
    let mut i: usize = 0;
    while i < entries.len()
        invariant
            i <= entries@.len(),
            forall|j: int|
                0 <= j < i ==> !spec_contains_str((#[trigger] entries@[j]).aliases@, alias@),
        decreases entries@.len() - i,
    {
        if contains_str(&entries[i].aliases, alias) {
            return true;
        }
        i += 1;
    }
    false
}

/// The effect of growing the row at `i` by the one alias `a` under the
/// fingerprint `fp`: every count, membership and aggregate of the new
/// tally in terms of the old.
proof fn lemma_update_effect(
    olds: Seq<TallyEntry>,
    i: int,
    e: TallyEntry,
    old_t: ConsensusTally,
    new_t: ConsensusTally,
    fp: Seq<char>,
    a: Seq<char>,
)
    requires
        old_t.wf(),
        old_t.entries@ == olds,
        new_t.entries@ == olds.update(i, e),
        new_t.node_count == old_t.node_count,
        0 <= i < olds.len(),
        olds[i].fingerprint@ == fp,
        e.fingerprint@ == fp,
        e.aliases@ == olds[i].aliases@.push(e.aliases@.last()),
        e.aliases@.last()@ == a,
        !old_t.spec_has_alias(a),
    ensures
        sum_counts(new_t.entries@) == sum_counts(olds) + 1,
        new_t.spec_count_of(fp) == old_t.spec_count_of(fp) + 1,
        forall|q: Seq<char>|
            q != fp ==> #[trigger] new_t.spec_count_of(q) == old_t.spec_count_of(q),
        new_t.spec_voted_for(fp, a),
        forall|q: Seq<char>, b: Seq<char>|
            !(q == fp && b == a) ==> #[trigger] new_t.spec_voted_for(q, b) == old_t.spec_voted_for(
                q,
                b,
            ),
        new_t.spec_has_alias(a),
        forall|b: Seq<char>|
            b != a ==> #[trigger] new_t.spec_has_alias(b) == old_t.spec_has_alias(b),
        new_t.spec_count_of(fp) == e.aliases@.len(),
        forall|x: int, y: int|
            0 <= x < y < new_t.entries@.len() ==> (#[trigger] new_t.entries@[x]).fingerprint@ != (
            #[trigger] new_t.entries@[y]).fingerprint@,
{
    let s = e.aliases@.last();
    lemma_tally_update(olds, i, e, fp);
    assert forall|q: Seq<char>| q != fp implies #[trigger] new_t.spec_count_of(q)
        == old_t.spec_count_of(q) by {
        lemma_tally_update(olds, i, e, q);
    }
    assert(spec_contains_str(e.aliases@, a)) by {
        assert(e.aliases@[e.aliases@.len() - 1]@ == a);
    }
    assert(new_t.entries@[i] == e);
    assert(new_t.spec_voted_for(fp, a));
    assert forall|q: Seq<char>, b: Seq<char>| !(q == fp && b == a) implies #[trigger] new_t
        .spec_voted_for(q, b) == old_t.spec_voted_for(q, b) by {
        lemma_contains_str_push(olds[i].aliases@, s, b);
        if new_t.spec_voted_for(q, b) {
            let j = choose|j: int|
                0 <= j < new_t.entries@.len() && (#[trigger] new_t.entries@[j]).fingerprint@ == q
                    && spec_contains_str(new_t.entries@[j].aliases@, b);
            if j == i {
                assert(q == fp);
                assert(b != a);
                assert(spec_contains_str(olds[i].aliases@, b));
                assert(old_t.spec_voted_for(q, b));
            } else {
                assert(olds[j] == new_t.entries@[j]);
                assert(old_t.spec_voted_for(q, b));
            }
        }
        if old_t.spec_voted_for(q, b) {
            let j = choose|j: int|
                0 <= j < olds.len() && (#[trigger] olds[j]).fingerprint@ == q && spec_contains_str(
                    olds[j].aliases@,
                    b,
                )
            ;
            if j == i {
                assert(spec_contains_str(e.aliases@, b));
                assert(new_t.spec_voted_for(q, b));
            } else {
                assert(new_t.entries@[j] == olds[j]);
                assert(new_t.spec_voted_for(q, b));
            }
        }
    }
    assert(new_t.spec_has_alias(a)) by {
        assert(spec_contains_str(new_t.entries@[i].aliases@, a));
    }
    assert forall|b: Seq<char>| b != a implies #[trigger] new_t.spec_has_alias(b)
        == old_t.spec_has_alias(b) by {
        lemma_contains_str_push(olds[i].aliases@, s, b);
        if new_t.spec_has_alias(b) {
            let j = choose|j: int|
                0 <= j < new_t.entries@.len() && spec_contains_str(
                    (#[trigger] new_t.entries@[j]).aliases@,
                    b,
                );
            if j == i {
                assert(spec_contains_str(olds[i].aliases@, b));
                assert(old_t.spec_has_alias(b));
            } else {
                assert(olds[j] == new_t.entries@[j]);
                assert(old_t.spec_has_alias(b));
            }
        }
        if old_t.spec_has_alias(b) {
            let j = choose|j: int|
                0 <= j < olds.len() && spec_contains_str((#[trigger] olds[j]).aliases@, b);
            if j == i {
                assert(spec_contains_str(e.aliases@, b));
                assert(new_t.spec_has_alias(b));
            } else {
                assert(new_t.entries@[j] == olds[j]);
                assert(new_t.spec_has_alias(b));
            }
        }
    }
    assert forall|x: int, y: int|
        0 <= x < y < new_t.entries@.len() implies (#[trigger] new_t.entries@[x]).fingerprint@ != (
    #[trigger] new_t.entries@[y]).fingerprint@ by {
        assert(new_t.entries@[x].fingerprint@ == olds[x].fingerprint@);
        assert(new_t.entries@[y].fingerprint@ == olds[y].fingerprint@);
    }
    lemma_count_entry(new_t.entries@, i);
}

/// The effect of opening a new row for the fingerprint `fp` with the one
/// alias `a`.
proof fn lemma_push_effect(
    olds: Seq<TallyEntry>,
    e: TallyEntry,
    old_t: ConsensusTally,
    new_t: ConsensusTally,
    fp: Seq<char>,
    a: Seq<char>,
)
    requires
        old_t.wf(),
        old_t.entries@ == olds,
        new_t.entries@ == olds.push(e),
        new_t.node_count == old_t.node_count,
        e.fingerprint@ == fp,
        e.aliases@.len() == 1,
        e.aliases@[0]@ == a,
        forall|x: int| 0 <= x < olds.len() ==> (#[trigger] olds[x]).fingerprint@ != fp,
    ensures
        sum_counts(new_t.entries@) == sum_counts(olds) + 1,
        new_t.spec_count_of(fp) == old_t.spec_count_of(fp) + 1,
        forall|q: Seq<char>|
            q != fp ==> #[trigger] new_t.spec_count_of(q) == old_t.spec_count_of(q),
        new_t.spec_voted_for(fp, a),
        forall|q: Seq<char>, b: Seq<char>|
            !(q == fp && b == a) ==> #[trigger] new_t.spec_voted_for(q, b) == old_t.spec_voted_for(
                q,
                b,
            ),
        new_t.spec_has_alias(a),
        forall|b: Seq<char>|
            b != a ==> #[trigger] new_t.spec_has_alias(b) == old_t.spec_has_alias(b),
        new_t.spec_count_of(fp) == e.aliases@.len(),
        forall|x: int, y: int|
            0 <= x < y < new_t.entries@.len() ==> (#[trigger] new_t.entries@[x]).fingerprint@ != (
            #[trigger] new_t.entries@[y]).fingerprint@,
{
    lemma_tally_push(olds, e, fp);
    lemma_count_absent(olds, fp);
    assert forall|q: Seq<char>| q != fp implies #[trigger] new_t.spec_count_of(q)
        == old_t.spec_count_of(q) by {
        lemma_tally_push(olds, e, q);
    }
    let n = olds.len() as int;
    assert(new_t.entries@[n] == e);
    assert(spec_contains_str(e.aliases@, a)) by {
        assert(e.aliases@[0]@ == a);
    }
    assert(new_t.spec_voted_for(fp, a));
    assert forall|q: Seq<char>, b: Seq<char>| !(q == fp && b == a) implies #[trigger] new_t
        .spec_voted_for(q, b) == old_t.spec_voted_for(q, b) by {
        if new_t.spec_voted_for(q, b) {
            let j = choose|j: int|
                0 <= j < new_t.entries@.len() && (#[trigger] new_t.entries@[j]).fingerprint@ == q
                    && spec_contains_str(new_t.entries@[j].aliases@, b);
            if j == n {
                assert(q == fp);
                assert(spec_contains_str(e.aliases@, b));
                let k = choose|k: int| 0 <= k < e.aliases@.len() && e.aliases@[k]@ == b;
                assert(k == 0);
                assert(b == a);
            } else {
                assert(olds[j] == new_t.entries@[j]);
                assert(old_t.spec_voted_for(q, b));
            }
        }
        if old_t.spec_voted_for(q, b) {
            let j = choose|j: int|
                0 <= j < olds.len() && (#[trigger] olds[j]).fingerprint@ == q && spec_contains_str(
                    olds[j].aliases@,
                    b,
                )
            ;
            assert(new_t.entries@[j] == olds[j]);
            assert(new_t.spec_voted_for(q, b));
        }
    }
    assert(new_t.spec_has_alias(a)) by {
        assert(spec_contains_str(new_t.entries@[n].aliases@, a));
    }
    assert forall|b: Seq<char>| b != a implies #[trigger] new_t.spec_has_alias(b)
        == old_t.spec_has_alias(b) by {
        if new_t.spec_has_alias(b) {
            let j = choose|j: int|
                0 <= j < new_t.entries@.len() && spec_contains_str(
                    (#[trigger] new_t.entries@[j]).aliases@,
                    b,
                );
            if j == n {
                assert(spec_contains_str(e.aliases@, b));
                let k = choose|k: int| 0 <= k < e.aliases@.len() && e.aliases@[k]@ == b;
                assert(k == 0);
                assert(b == a);
            } else {
                assert(olds[j] == new_t.entries@[j]);
                assert(old_t.spec_has_alias(b));
            }
        }
        if old_t.spec_has_alias(b) {
            let j = choose|j: int|
                0 <= j < olds.len() && spec_contains_str((#[trigger] olds[j]).aliases@, b);
            assert(new_t.entries@[j] == olds[j]);
            assert(new_t.spec_has_alias(b));
        }
    }
    assert forall|x: int, y: int|
        0 <= x < y < new_t.entries@.len() implies (#[trigger] new_t.entries@[x]).fingerprint@ != (
    #[trigger] new_t.entries@[y]).fingerprint@ by {
        if y < n {
            assert(new_t.entries@[x].fingerprint@ == olds[x].fingerprint@);
            assert(new_t.entries@[y].fingerprint@ == olds[y].fingerprint@);
        } else {
            assert(new_t.entries@[x].fingerprint@ == olds[x].fingerprint@);
            assert(new_t.entries@[y] == e);
        }
    }
    lemma_count_entry(new_t.entries@, n);
}

} // verus!
