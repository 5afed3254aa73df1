//! The call property: every indirect call targets a resolved function
//! pointer, and every call-table lookup combines a verified table base with
//! a checked or typed offset.

use vstd::prelude::*;
use vstd::arithmetic::div_mod::lemma_fundamental_div_mod_converse_mod;
use crate::checker::{
    all_states_present, check_all, expected_report, report_matches, CheckError, PropertyChecker,
    Violation, ViolationKind,
};
use crate::ir::{LocIdx, MemArg, MemArgs, Program, Stmt, ValSize, Value};
use crate::lattices::{CallCheckValue, DAV};
use crate::repr::{
    i64_repr, push_string, spec_dec, spec_dec_signed, spec_value_repr, u64_repr, value_repr,
};
use crate::state::{lookup_seq, AbstractState, StateMap};

verus! {

/// The absolute target of a near call at address `addr` with immediate
/// displacement `imm`: `imm + addr + 5` (the length of a near-call
/// encoding), in wrap-around machine arithmetic.
pub open spec fn spec_resolved_target(imm: i64, addr: u64) -> u64 {
    ((imm + addr + 5) % 0x1_0000_0000_0000_0000) as u64
}

/// Compute the absolute target of an immediate call.
pub fn resolved_target(imm: i64, addr: u64) -> (r: u64)
    ensures
        r == spec_resolved_target(imm, addr),
{
    let w = addr.wrapping_add_signed(imm);
    let r = w.wrapping_add(5);
    proof {
        let m: int = 0x1_0000_0000_0000_0000;
        let t: int = imm + addr + 5;
        let d: int = t - r;
        assert(d == 0 || d == m || d == -m || d == 2 * m || d == -2 * m);
        if d == 0 {
            lemma_fundamental_div_mod_converse_mod(t, m, 0, r as int);
        } else if d == m {
            lemma_fundamental_div_mod_converse_mod(t, m, 1, r as int);
        } else if d == -m {
            lemma_fundamental_div_mod_converse_mod(t, m, -1, r as int);
        } else if d == 2 * m {
            lemma_fundamental_div_mod_converse_mod(t, m, 2, r as int);
        } else {
            lemma_fundamental_div_mod_converse_mod(t, m, -2, r as int);
        }
    }
    r
}

/// Whether `x` is one of the addresses in `v`.
pub fn contains_addr(v: &Vec<u64>, x: u64) -> (r: bool)
    ensures
        r == v@.contains(x),
{
    let mut i: usize = 0;
    while i < v.len()
        invariant
            i <= v@.len(),
            forall|j: int| 0 <= j < i ==> v@[j] != x,
        decreases v@.len() - i,
    {
        if v[i] == x {
            return true;
        }
        i = i + 1;
    }
    proof {
        assert(!v@.contains(x));
    }
    false
}

/// Whether `v` may stand beside a verified table base in a call-table
/// lookup: an offset whose bounds check definitely occurred, or a typed
/// offset, which table construction itself guarantees bounds-safe.
pub open spec fn spec_good_partner(v: CallCheckValue) -> bool {
    v == CallCheckValue::PtrOffset(DAV::Checked) || v is TypedPtrOffset
}

fn good_partner(v: &CallCheckValue) -> (r: bool)
    ensures
        r == spec_good_partner(*v),
{
    match v {
        CallCheckValue::PtrOffset(DAV::Checked) => true,
        CallCheckValue::TypedPtrOffset(_) => true,
        _ => false,
    }
}

/// The decision on the register pair of a table-lookup site: when either
/// side is the guest table base, the other must be an accepted partner;
/// a pair without a table base is no call-table lookup at all and is
/// vacuously accepted.
pub open spec fn spec_lookup_pair_ok(v1: CallCheckValue, v2: CallCheckValue) -> bool {
    if v1 == CallCheckValue::GuestTableBase {
        spec_good_partner(v2)
    } else if v2 == CallCheckValue::GuestTableBase {
        spec_good_partner(v1)
    } else {
        true
    }
}

fn lookup_pair_ok(v1: &CallCheckValue, v2: &CallCheckValue) -> (r: bool)
    ensures
        r == spec_lookup_pair_ok(*v1, *v2),
{
    if *v1 == CallCheckValue::GuestTableBase {
        good_partner(v2)
    } else if *v2 == CallCheckValue::GuestTableBase {
        good_partner(v1)
    } else {
        true
    }
}

/// The call-table lookup decision on a memory operand. Only the canonical
/// `table_base + index * 8` indexing shape is inspected: exactly three
/// sub-operands, two 64-bit registers and the immediate 8. Every other
/// shape is vacuously accepted.
pub open spec fn spec_calltable_lookup_ok(state: AbstractState, memargs: MemArgs) -> bool {
    match memargs {
        MemArgs::Mem3Args(
            MemArg::Reg(r1, ValSize::Size64),
            MemArg::Reg(r2, ValSize::Size64),
            MemArg::Imm(_, _, scale),
        ) => if scale == 8 {
            spec_lookup_pair_ok(state.spec_get(r1), state.spec_get(r2))
        } else {
            true
        },
        _ => true,
    }
}

/// Rendering of one memory sub-operand: a register with its abstract
/// classification, or an immediate.
pub open spec fn spec_memarg_repr(state: AbstractState, memarg: MemArg) -> Seq<char> {
    match memarg {
        MemArg::Reg(r, _) => "r"@ + spec_dec(r as int) + ": "@ + spec_value_repr(
            state.spec_get(r),
        ),
        MemArg::Imm(_, _, x) => spec_dec_signed(x as int),
    }
}

/// Render one memory sub-operand with its resolved abstract value.
pub fn memarg_repr(state: &AbstractState, memarg: &MemArg) -> (r: String)
    ensures
        r@ == spec_memarg_repr(*state, *memarg),
{
    match memarg {
        MemArg::Reg(regnum, _) => {
            let mut s = "r".to_owned();
            let num = u64_repr(*regnum as u64);
            push_string(&mut s, num.as_str());
            push_string(&mut s, ": ");
            let val = value_repr(&state.get_reg(*regnum, ValSize::Size64));
            push_string(&mut s, val.as_str());
            proof {
                assert(s@ =~= spec_memarg_repr(*state, *memarg));
            }
            s
        },
        MemArg::Imm(_, _, x) => i64_repr(*x),
    }
}

/// Rendering of a whole memory access, each sub-operand resolved.
pub open spec fn spec_mem_access_repr(state: AbstractState, memargs: MemArgs) -> Seq<char> {
    match memargs {
        MemArgs::Mem1Arg(x) => "mem["@ + spec_memarg_repr(state, x) + "]"@,
        MemArgs::Mem2Args(x, y) => "mem["@ + spec_memarg_repr(state, x) + " + "@
            + spec_memarg_repr(state, y) + "]"@,
        MemArgs::Mem3Args(x, y, z) => "mem["@ + spec_memarg_repr(state, x) + " + "@
            + spec_memarg_repr(state, y) + " + "@ + spec_memarg_repr(state, z) + "]"@,
        MemArgs::MemScale(x, y, z) => "mem["@ + spec_memarg_repr(state, x) + " + "@
            + spec_memarg_repr(state, y) + " * "@ + spec_memarg_repr(state, z) + "]"@,
    }
}

/// Render a memory access with each sub-operand's abstract classification,
/// as reported in lookup diagnostics.
pub fn mem_access_repr(state: &AbstractState, memargs: &MemArgs) -> (r: String)
    ensures
        r@ == spec_mem_access_repr(*state, *memargs),
{
    let mut s = "mem[".to_owned();
    match memargs {
        MemArgs::Mem1Arg(x) => {
            let xr = memarg_repr(state, x);
            push_string(&mut s, xr.as_str());
        },
        MemArgs::Mem2Args(x, y) => {
            let xr = memarg_repr(state, x);
            push_string(&mut s, xr.as_str());
            push_string(&mut s, " + ");
            let yr = memarg_repr(state, y);
            push_string(&mut s, yr.as_str());
        },
        MemArgs::Mem3Args(x, y, z) => {
            let xr = memarg_repr(state, x);
            push_string(&mut s, xr.as_str());
            push_string(&mut s, " + ");
            let yr = memarg_repr(state, y);
            push_string(&mut s, yr.as_str());
            push_string(&mut s, " + ");
            let zr = memarg_repr(state, z);
            push_string(&mut s, zr.as_str());
        },
        MemArgs::MemScale(x, y, z) => {
            let xr = memarg_repr(state, x);
            push_string(&mut s, xr.as_str());
            push_string(&mut s, " + ");
            let yr = memarg_repr(state, y);
            push_string(&mut s, yr.as_str());
            push_string(&mut s, " * ");
            let zr = memarg_repr(state, z);
            push_string(&mut s, zr.as_str());
        },
    }
    push_string(&mut s, "]");
    proof {
        assert(s@ =~= spec_mem_access_repr(*state, *memargs));
    }
    s
}

/// Rendering of a call-target operand, as reported in indirect-call
/// diagnostics.
pub open spec fn spec_target_repr(state: AbstractState, target: Value) -> Seq<char> {
    match target {
        Value::Reg(r, _) => "r"@ + spec_dec(r as int) + ": "@ + spec_value_repr(state.spec_get(r)),
        Value::Mem(_, ma) => spec_mem_access_repr(state, ma),
        Value::Imm(_, _, imm) => spec_dec_signed(imm as int),
        Value::RIPConst => "RIPConst"@,
    }
}

/// Render a call-target operand with its abstract classification.
pub fn target_repr(state: &AbstractState, target: &Value) -> (r: String)
    ensures
        r@ == spec_target_repr(*state, *target),
{
    match target {
        Value::Reg(regnum, _) => {
            let mut s = "r".to_owned();
            let num = u64_repr(*regnum as u64);
            push_string(&mut s, num.as_str());
            push_string(&mut s, ": ");
            let val = value_repr(&state.get_reg(*regnum, ValSize::Size64));
            push_string(&mut s, val.as_str());
            proof {
                assert(s@ =~= spec_target_repr(*state, *target));
            }
            s
        },
        Value::Mem(_, ma) => mem_access_repr(state, ma),
        Value::Imm(_, _, imm) => i64_repr(*imm),
        Value::RIPConst => "RIPConst".to_owned(),
    }
}

/// The call property over one module: the known function entry addresses
/// and the `[start, end)` address range of the PLT.
pub struct CallChecker {
    pub funcs: Vec<u64>,
    pub plt: (u64, u64),
}

impl CallChecker {
    /// The indirect-call decision on a call-target operand at address
    /// `addr`: a register must hold a resolved function pointer; a memory
    /// operand is never accepted; an immediate displacement must resolve
    /// into the function set or the PLT range; a RIP-relative constant is
    /// statically fixed and always accepted.
    pub open spec fn spec_indirect_call_ok(
        &self,
        state: AbstractState,
        target: Value,
        addr: u64,
    ) -> bool {
        match target {
            Value::Reg(r, _) => state.spec_get(r) is FnPtr,
            Value::Mem(_, _) => false,
            Value::Imm(_, _, imm) => {
                let t = spec_resolved_target(imm, addr);
                self.funcs@.contains(t) || (self.plt.0 <= t && t < self.plt.1)
            },
            Value::RIPConst => true,
        }
    }

    /// Decide the indirect-call check for the target operand of a call at
    /// `loc_idx`.
    pub fn check_indirect_call(&self, state: &AbstractState, target: &Value, loc_idx: &LocIdx) -> (r:
        bool)
        ensures
            r == self.spec_indirect_call_ok(*state, *target, loc_idx.addr),
    {
        match target {
            Value::Reg(regnum, size) => {
                let v = state.get_reg(*regnum, *size);
                match v {
                    CallCheckValue::FnPtr(_) => true,
                    _ => false,
                }
            },
            Value::Mem(_, _) => false,
            Value::Imm(_, _, imm) => {
                let t = resolved_target(*imm, loc_idx.addr);
                let (plt_start, plt_end) = self.plt;
                contains_addr(&self.funcs, t) || (t >= plt_start && t < plt_end)
            },
            Value::RIPConst => true,
        }
    }

    /// Decide the call-table lookup check for a memory operand.
    pub fn check_calltable_lookup(&self, state: &AbstractState, memargs: &MemArgs) -> (r: bool)
        ensures
            r == spec_calltable_lookup_ok(*state, *memargs),
    {
        match memargs {
            MemArgs::Mem3Args(
                MemArg::Reg(regnum1, ValSize::Size64),
                MemArg::Reg(regnum2, ValSize::Size64),
                MemArg::Imm(_, _, scale),
            ) => {
                if *scale == 8 {
                    let v1 = state.get_reg(*regnum1, ValSize::Size64);
                    let v2 = state.get_reg(*regnum2, ValSize::Size64);
                    lookup_pair_ok(&v1, &v2)
                } else {
                    true
                }
            },
            _ => true,
        }
    }

    /// Scan a whole function against this property: every statement is
    /// evaluated against its converged pre-state, and every violation is
    /// collected in program order. `Ok` with an empty report is a pass;
    /// a location absent from the converged result aborts the scan.
    pub fn check(&self, prog: &Program, result: &StateMap) -> (r: Result<Vec<Violation>, CheckError>)
        ensures
            match r {
                Ok(vs) => {
                    &&& all_states_present(prog.stmts@, *result)
                    &&& report_matches(vs@, expected_report(*self, prog.stmts@, *result))
                },
                Err(e) => exists|i: int|
                    {
                        &&& 0 <= i < prog.stmts@.len()
                        &&& lookup_seq(result.entries@, (#[trigger] prog.stmts@[i]).loc) is None
                        &&& forall|j: int|
                            0 <= j < i ==> lookup_seq(
                                result.entries@,
                                (#[trigger] prog.stmts@[j]).loc,
                            ) is Some
                        &&& e == CheckError::MissingState(prog.stmts@[i].loc)
                    },
            },
    {
        check_all(self, prog, result)
    }
}

impl PropertyChecker for CallChecker {
    /// The per-statement decision: a call is held to the indirect-call
    /// check on its target; a unary operation with a memory source is held
    /// to the call-table lookup check; every other statement is accepted.
    open spec fn spec_check(&self, state: AbstractState, stmt: Stmt, addr: u64) -> Option<
        ViolationKind,
    > {
        match stmt {
            Stmt::Call(v) => if self.spec_indirect_call_ok(state, v, addr) {
                None
            } else {
                Some(ViolationKind::IndirectCall)
            },
            Stmt::Unop(_, _, v) => match v {
                Value::Mem(_, ma) => if spec_calltable_lookup_ok(state, ma) {
                    None
                } else {
                    Some(ViolationKind::TableLookup)
                },
                _ => None,
            },
            Stmt::Other => None,
        }
    }

    /// The diagnostic for a rejected statement: the call target's resolved
    /// classification, or the rendering of each memory sub-operand.
    open spec fn spec_detail(&self, state: AbstractState, stmt: Stmt) -> Seq<char> {
        match stmt {
            Stmt::Call(v) => spec_target_repr(state, v),
            Stmt::Unop(_, _, v) => match v {
                Value::Mem(_, ma) => spec_mem_access_repr(state, ma),
                _ => Seq::empty(),
            },
            Stmt::Other => Seq::empty(),
        }
    }

    fn check_statement(&self, state: &AbstractState, stmt: &Stmt, loc: &LocIdx) -> (r: Option<
        Violation,
    >) {
        match stmt {
            Stmt::Call(v) => {
                if !self.check_indirect_call(state, v, loc) {
                    Some(
                        Violation {
                            addr: loc.addr,
                            kind: ViolationKind::IndirectCall,
                            detail: target_repr(state, v),
                        },
                    )
                } else {
                    None
                }
            },
            Stmt::Unop(_, _, v) => {
                match v {
                    Value::Mem(_, memargs) => {
                        if !self.check_calltable_lookup(state, memargs) {
                            Some(
                                Violation {
                                    addr: loc.addr,
                                    kind: ViolationKind::TableLookup,
                                    detail: mem_access_repr(state, memargs),
                                },
                            )
                        } else {
                            None
                        }
                    },
                    _ => None,
                }
            },
            Stmt::Other => None,
        }
    }
}

/// Check the call property over one function: build the checker from the
/// known function addresses and the PLT range, then scan the program
/// against the converged analyzer result.
pub fn check_calls(result: &StateMap, prog: &Program, funcs: Vec<u64>, plt: (u64, u64)) -> (r:
    Result<Vec<Violation>, CheckError>)
    ensures
        match r {
            Ok(vs) => {
                &&& all_states_present(prog.stmts@, *result)
                &&& report_matches(
                    vs@,
                    expected_report((CallChecker { funcs, plt }), prog.stmts@, *result),
                )
            },
            Err(e) => exists|i: int|
                {
                    &&& 0 <= i < prog.stmts@.len()
                    &&& lookup_seq(result.entries@, (#[trigger] prog.stmts@[i]).loc) is None
                    &&& forall|j: int|
                        0 <= j < i ==> lookup_seq(
                            result.entries@,
                            (#[trigger] prog.stmts@[j]).loc,
                        ) is Some
                    &&& e == CheckError::MissingState(prog.stmts@[i].loc)
                },
        },
{
    let c = CallChecker { funcs, plt };
    c.check(prog, result)
}

/// A register call target is accepted exactly when the register's abstract
/// value is a function pointer; every other classification is rejected.
pub proof fn lemma_register_call_decision(
    c: CallChecker,
    state: AbstractState,
    regnum: u8,
    size: ValSize,
    addr: u64,
)
    ensures
        c.spec_indirect_call_ok(state, Value::Reg(regnum, size), addr) <==> state.spec_get(
            regnum,
        ) is FnPtr,
{
}

/// An immediate call displacement is accepted exactly when the resolved
/// target `imm + addr + 5` is a known function entry or lies in the
/// half-open PLT range: inclusive at `plt.0`, exclusive at `plt.1`.
pub proof fn lemma_immediate_call_decision(
    c: CallChecker,
    state: AbstractState,
    ty: crate::ir::ImmType,
    size: ValSize,
    imm: i64,
    addr: u64,
)
    ensures
        c.spec_indirect_call_ok(state, Value::Imm(ty, size, imm), addr) <==> {
            let t = spec_resolved_target(imm, addr);
            c.funcs@.contains(t) || (c.plt.0 <= t && t < c.plt.1)
        },
{
}

/// A memory-operand call target is rejected unconditionally, whatever the
/// abstract state holds.
pub proof fn lemma_memory_call_rejected(
    c: CallChecker,
    state: AbstractState,
    size: ValSize,
    memargs: MemArgs,
    addr: u64,
)
    ensures
        !c.spec_indirect_call_ok(state, Value::Mem(size, memargs), addr),
{
}

/// At a 3-operand 64/64/scale-8 table-lookup site, the register pair is
/// accepted exactly when one side is the guest table base and the other a
/// checked or typed offset, or when neither side is the table base; every
/// pair of exactly one table base with any other partner is rejected.
pub proof fn lemma_lookup_decision(
    state: AbstractState,
    r1: u8,
    r2: u8,
    ty: crate::ir::ImmType,
    size: ValSize,
)
    ensures
        ({
            let v1 = state.spec_get(r1);
            let v2 = state.spec_get(r2);
            spec_calltable_lookup_ok(
                state,
                MemArgs::Mem3Args(
                    MemArg::Reg(r1, ValSize::Size64),
                    MemArg::Reg(r2, ValSize::Size64),
                    MemArg::Imm(ty, size, 8),
                ),
            ) <==> {
                ||| (v1 == CallCheckValue::GuestTableBase && spec_good_partner(v2))
                ||| (v2 == CallCheckValue::GuestTableBase && spec_good_partner(v1))
                ||| (v1 != CallCheckValue::GuestTableBase && v2 != CallCheckValue::GuestTableBase)
            }
        }),
{
}

} // verus!
