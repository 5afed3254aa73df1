//! The abstract value domain: the Definite-Check sub-lattice and the lattice
//! of pointer-provenance facts tracked per register.

use vstd::prelude::*;

verus! {

/// A Definite-Check fact: whether a dynamic bounds check is guaranteed to
/// have occurred on *every* path reaching the current location.
///
/// `Checked` may stand at a location only if every control-flow path from
/// function entry passes through a bounds comparison dominating the use.
/// This is a must-analysis: merges at control-flow joins go through `meet`,
/// which keeps `Checked` only when both incoming facts are `Checked`.
#[derive(Clone, Copy, PartialEq, Eq, Structural, Debug)]
pub enum DAV {
    Checked,
    NotChecked,
    Unknown,
}

impl DAV {
    /// Must-merge of two facts: `Checked` survives only against itself;
    /// any disagreement degrades to `NotChecked`.
    pub open spec fn spec_meet(self, other: DAV) -> DAV {
        if self == other {
            self
        } else {
            DAV::NotChecked
        }
    }

    /// Merge the facts of two incoming control-flow paths.
    pub fn meet(self, other: DAV) -> (r: DAV)
        ensures
            r == self.spec_meet(other),
    {
        if self == other {
            self
        } else {
            DAV::NotChecked
        }
    }

    /// Meet is idempotent: merging a fact with itself changes nothing.
    pub proof fn lemma_meet_idempotent(a: DAV)
        ensures
            a.spec_meet(a) == a,
    {
    }

    /// Meet is commutative: the order of the incoming paths is irrelevant.
    pub proof fn lemma_meet_commutative(a: DAV, b: DAV)
        ensures
            a.spec_meet(b) == b.spec_meet(a),
    {
    }

    /// Meet is associative, so a many-way merge is well defined.
    pub proof fn lemma_meet_associative(a: DAV, b: DAV, c: DAV)
        ensures
            a.spec_meet(b).spec_meet(c) == a.spec_meet(b.spec_meet(c)),
    {
    }

    /// The must-semantics of the merge: a join point is `Checked` exactly
    /// when every incoming path is `Checked`.
    pub proof fn lemma_meet_checked_iff_both(a: DAV, b: DAV)
        ensures
            a.spec_meet(b) == DAV::Checked <==> (a == DAV::Checked && b == DAV::Checked),
    {
    }
}

/// An abstract value: what is known of the contents of a register or tracked
/// memory cell at one program point.
#[derive(Clone, Copy, PartialEq, Eq, Structural, Debug)]
pub enum CallCheckValue {
    /// Provably one of the module's function entry addresses or a PLT stub.
    /// The payload is a finer-grained identity that this property does not
    /// consult but that the domain preserves.
    FnPtr(u64),
    /// Provably the base address of the sandbox's indirect call table.
    GuestTableBase,
    /// An index or byte-offset into the call table, tagged with whether a
    /// bounds check definitely dominates this use.
    PtrOffset(DAV),
    /// An offset additionally proven to index an entry of a known function
    /// type; table construction guarantees such entries are bounds-safe,
    /// whatever the check tag would have been.
    TypedPtrOffset(u64),
    /// No fact holds; must be treated as unsafe.
    Unknown,
}

impl CallCheckValue {
    /// Least upper bound of two facts. `Unknown` is the top of the lattice;
    /// all distinct facts are pairwise incomparable, so joining two
    /// differing facts collapses to `Unknown`.
    pub open spec fn spec_join(self, other: CallCheckValue) -> CallCheckValue {
        if self == other {
            self
        } else {
            CallCheckValue::Unknown
        }
    }

    /// Merge two abstract values at a control-flow join.
    pub fn join(self, other: CallCheckValue) -> (r: CallCheckValue)
        ensures
            r == self.spec_join(other),
    {
        if self == other {
            self
        } else {
            CallCheckValue::Unknown
        }
    }

    /// The partial order of the lattice: `a` is at most `b` when joining
    /// `a` into `b` adds nothing.
    pub open spec fn spec_leq(self, other: CallCheckValue) -> bool {
        self.spec_join(other) == other
    }

    /// Partial-order test.
    pub fn leq(self, other: CallCheckValue) -> (r: bool)
        ensures
            r == self.spec_leq(other),
    {
        self.join(other) == other
    }

    /// Join is idempotent.
    pub proof fn lemma_join_idempotent(a: CallCheckValue)
        ensures
            a.spec_join(a) == a,
    {
    }

    /// Join is commutative.
    pub proof fn lemma_join_commutative(a: CallCheckValue, b: CallCheckValue)
        ensures
            a.spec_join(b) == b.spec_join(a),
    {
    }

    /// `Unknown` absorbs every fact.
    pub proof fn lemma_join_unknown_absorbs(a: CallCheckValue)
        ensures
            a.spec_join(CallCheckValue::Unknown) == CallCheckValue::Unknown,
            CallCheckValue::Unknown.spec_join(a) == CallCheckValue::Unknown,
    {
    }

    /// `leq` is a partial order: reflexive, transitive and antisymmetric,
    /// with `Unknown` as its top.
    pub proof fn lemma_leq_partial_order(a: CallCheckValue, b: CallCheckValue, c: CallCheckValue)
        ensures
            a.spec_leq(a),
            a.spec_leq(b) && b.spec_leq(c) ==> a.spec_leq(c),
            a.spec_leq(b) && b.spec_leq(a) ==> a == b,
            a.spec_leq(CallCheckValue::Unknown),
    {
    }
}

} // verus!
