//! The abstract machine state at one program point, and the converged
//! per-location result the analyzer hands to the checker.

use vstd::prelude::*;
use crate::ir::{LocIdx, ValSize};
use crate::lattices::CallCheckValue;

verus! {

/// Abstract state at one program point: register number to abstract value.
/// Reads of any width alias the same physical register, so the width of a
/// read does not affect the value returned. A register the state does not
/// track is `Unknown`, the unsafe top of the domain.
pub struct AbstractState {
    pub regs: Vec<CallCheckValue>,
}

impl AbstractState {
    /// The abstract value of register `regnum`.
    pub open spec fn spec_get(self, regnum: u8) -> CallCheckValue {
        if (regnum as int) < self.regs@.len() {
            self.regs@[regnum as int]
        } else {
            CallCheckValue::Unknown
        }
    }

    /// The all-`Unknown` state over `n` tracked registers: the state at a
    /// function's entry, before any fact is established.
    pub fn entry(n: usize) -> (r: AbstractState)
        ensures
            r.regs@.len() == n,
            forall|regnum: u8| r.spec_get(regnum) == CallCheckValue::Unknown,
    {
        let mut regs: Vec<CallCheckValue> = Vec::new();
        let mut i: usize = 0;
        while i < n
            invariant
                i <= n,
                regs@.len() == i,
                forall|j: int| 0 <= j < i ==> regs@[j] == CallCheckValue::Unknown,
            decreases n - i,
        {
            regs.push(CallCheckValue::Unknown);
            i = i + 1;
        }
        AbstractState { regs }
    }

    /// Read a register. The width argument records the width class of the
    /// operand; aliased widths read the same tracked slot.
    pub fn get_reg(&self, regnum: u8, size: ValSize) -> (r: CallCheckValue)
        ensures
            r == self.spec_get(regnum),
    {
        let i = regnum as usize;
        if i < self.regs.len() {
            self.regs[i]
        } else {
            CallCheckValue::Unknown
        }
    }

    /// Record a fact about register `regnum`, leaving every other register
    /// unchanged. A register beyond the tracked range is brought into range
    /// first, the gap filled with `Unknown`.
    pub fn set_reg(&mut self, regnum: u8, v: CallCheckValue)
        ensures
            final(self).spec_get(regnum) == v,
            forall|other: u8| other != regnum ==> final(self).spec_get(other) == old(self).spec_get(other),
    {
        let i = regnum as usize;
        while self.regs.len() <= i
            invariant
                forall|other: u8| self.spec_get(other) == old(self).spec_get(other),
            decreases i + 1 - self.regs.len(),
        {
            self.regs.push(CallCheckValue::Unknown);
        }
        self.regs.set(i, v);
    }
}

/// One entry of the converged analyzer result: the abstract pre-state that
/// holds just before the statement at `loc` executes.
pub struct StateEntry {
    pub loc: LocIdx,
    pub state: AbstractState,
}

/// The first state recorded for `loc`, if any.
pub open spec fn lookup_seq(entries: Seq<StateEntry>, loc: LocIdx) -> Option<AbstractState>
    decreases entries.len(),
{
    if entries.len() == 0 {
        None
    } else if entries[0].loc == loc {
        Some(entries[0].state)
    } else {
        lookup_seq(entries.drop_first(), loc)
    }
}

/// The converged analyzer result: one abstract pre-state per reachable
/// program location. It is read-only input to the checker; the checker
/// never feeds updates back into it.
pub struct StateMap {
    pub entries: Vec<StateEntry>,
}

impl StateMap {
    /// The pre-state recorded for `loc`, if any.
    pub open spec fn spec_lookup(self, loc: LocIdx) -> Option<AbstractState> {
        lookup_seq(self.entries@, loc)
    }

    /// Look up the pre-state for `loc`. `None` means the location is absent
    /// from the converged result, which callers must treat as fatal.
    pub fn get(&self, loc: &LocIdx) -> (r: Option<&AbstractState>)
        ensures
            match r {
                Some(s) => self.spec_lookup(*loc) == Some(*s),
                None => self.spec_lookup(*loc) is None,
            },
    {
        let mut i: usize = 0;
        proof {
            assert(self.entries@.skip(0) =~= self.entries@);
        }
        while i < self.entries.len()
            invariant
                i <= self.entries@.len(),
                lookup_seq(self.entries@, *loc) == lookup_seq(self.entries@.skip(i as int), *loc),
            decreases self.entries@.len() - i,
        {
            proof {
                assert(self.entries@.skip(i as int)[0] == self.entries@[i as int]);
                assert(self.entries@.skip(i as int).drop_first() =~= self.entries@.skip(i as int + 1));
            }
            if self.entries[i].loc.addr == loc.addr && self.entries[i].loc.idx == loc.idx {
                return Some(&self.entries[i].state);
            }
            i = i + 1;
        }
        proof {
            assert(self.entries@.skip(self.entries@.len() as int) =~= Seq::<StateEntry>::empty());
        }
        None
    }
}

} // verus!
