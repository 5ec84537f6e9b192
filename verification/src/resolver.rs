use vstd::prelude::*;
use crate::text::contains_str;
use crate::text::lemma_contains_map;

verus! {

/// The trust strategy applied to one outbound request. Decided once,
/// before the first byte is sent, and never reconsidered.
#[derive(Clone, Copy, PartialEq, Eq, Structural, Debug)]
pub enum RequestMode {
    /// Sent to one node; its answer is trusted after a local check of the
    /// cryptographic state proof it returns.
    SingleWithProof,
    /// Sent to every known node; a reply from all of them is required.
    Full,
    /// Sent to a subset; a qualified majority of byte-identical replies
    /// is required.
    Consensus,
}

/// The classification tables: which operation types are read with a state
/// proof, and which must reach every node. Held as data so that new
/// operation types can be added without touching control flow.
pub struct OpTables {
    /// Operation types resolved to `SingleWithProof`.
    pub state_proof_ops: Vec<String>,
    /// Operation types resolved to `Full`.
    pub full_ops: Vec<String>,
}

/// The operation-type codes of the reads that return a state proof:
/// read-by-identity, read-schema, read-credential-definition,
/// read-attribute, read-revocation-registry,
/// read-revocation-registry-definition, read-revocation-registry-delta.
pub open spec fn default_state_proof_ops() -> Seq<Seq<char>> {
    seq!["105"@, "107"@, "108"@, "104"@, "116"@, "115"@, "117"@]
}

/// The operation-type codes of the administrative operations that must
/// reach every node: pool-restart, get-validator-info.
pub open spec fn default_full_ops() -> Seq<Seq<char>> {
    seq!["118"@, "119"@]
}

impl OpTables {
    /// The state-proof table as a sequence of character sequences.
    pub open spec fn single_set(self) -> Seq<Seq<char>> {
        self.state_proof_ops@.map_values(|s: String| s@)
    }

    /// The full-quorum table as a sequence of character sequences.
    pub open spec fn full_set(self) -> Seq<Seq<char>> {
        self.full_ops@.map_values(|s: String| s@)
    }

    /// The mode an operation type resolves to: `SingleWithProof` if it is
    /// in the state-proof table, else `Full` if it is in the full-quorum
    /// table, else `Consensus` — the default strategy for every other
    /// recognized or unrecognized operation.
    pub open spec fn spec_mode_of(self, op: Seq<char>) -> RequestMode {
        if self.single_set().contains(op) {
            RequestMode::SingleWithProof
        } else if self.full_set().contains(op) {
            RequestMode::Full
        } else {
            RequestMode::Consensus
        }
    }

    /// The built-in tables.
    pub fn new_default() -> (t: OpTables)
        ensures
            t.single_set() == default_state_proof_ops(),
            t.full_set() == default_full_ops(),
    {
        let mut single: Vec<String> = Vec::new();
        single.push("105".to_string());
        single.push("107".to_string());
        single.push("108".to_string());
        single.push("104".to_string());
        single.push("116".to_string());
        single.push("115".to_string());
        single.push("117".to_string());
        let mut full: Vec<String> = Vec::new();
        full.push("118".to_string());
        full.push("119".to_string());
        let t = OpTables { state_proof_ops: single, full_ops: full };
        proof {
            assert(t.single_set() =~= default_state_proof_ops());
            assert(t.full_set() =~= default_full_ops());
        }
        t
    }

    /// Resolve the trust strategy of an operation type.
    pub fn resolve_mode(&self, op: &str) -> (m: RequestMode)
        ensures
            m == self.spec_mode_of(op@),
    {
        proof {
            lemma_contains_map(self.state_proof_ops@, op@);
            lemma_contains_map(self.full_ops@, op@);
        }
        if contains_str(&self.state_proof_ops, op) {
            RequestMode::SingleWithProof
        } else if contains_str(&self.full_ops, op) {
            RequestMode::Full
        } else {
            RequestMode::Consensus
        }
    }
}

/// Classification is a pure function of the static tables: an operation
/// type in the state-proof table resolves to `SingleWithProof`; one in the
/// full-quorum table (and not in the state-proof table) resolves to
/// `Full`; every other operation type resolves to `Consensus`.
pub proof fn lemma_mode_of_tables(t: OpTables, op: Seq<char>)
    ensures
        t.single_set().contains(op) ==> t.spec_mode_of(op) == RequestMode::SingleWithProof,
        !t.single_set().contains(op) && t.full_set().contains(op) ==> t.spec_mode_of(op)
            == RequestMode::Full,
        !t.single_set().contains(op) && !t.full_set().contains(op) ==> t.spec_mode_of(op)
            == RequestMode::Consensus,
{
}

/// Classification is stable under reordering the tables: two tables that
/// hold the same operation types as sets resolve every operation type to
/// the same mode.
pub proof fn lemma_mode_reorder(a: OpTables, b: OpTables, op: Seq<char>)
    requires
        a.single_set().to_set() == b.single_set().to_set(),
        a.full_set().to_set() == b.full_set().to_set(),
    ensures
        a.spec_mode_of(op) == b.spec_mode_of(op),
{
    assert(a.single_set().contains(op) == a.single_set().to_set().contains(op));
    assert(b.single_set().contains(op) == b.single_set().to_set().contains(op));
    assert(a.full_set().contains(op) == a.full_set().to_set().contains(op));
    assert(b.full_set().contains(op) == b.full_set().to_set().contains(op));
}

} // verus!
