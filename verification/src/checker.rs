//! The generic checker framework: an instruction-by-instruction replay that
//! asks a pluggable property to accept or reject each statement, scanning
//! the whole program and collecting every violation.

use vstd::prelude::*;
use crate::ir::{LocIdx, Program, ProgStmt, Stmt};
use crate::state::{lookup_seq, AbstractState, StateMap};

verus! {

/// Which sub-check of a property rejected a statement.
#[derive(Clone, Copy, PartialEq, Eq, Structural, Debug)]
pub enum ViolationKind {
    IndirectCall,
    TableLookup,
}

/// A located property violation with its diagnostic rendering.
#[derive(Debug)]
pub struct Violation {
    pub addr: u64,
    pub kind: ViolationKind,
    pub detail: String,
}

/// Fatal internal-consistency error: the checker was asked to check a
/// location absent from the converged result. Substituting a default state
/// could mask an unsound analysis, so this aborts the check instead.
#[derive(Clone, Copy, PartialEq, Eq, Structural, Debug)]
pub enum CheckError {
    MissingState(LocIdx),
}

/// A property that the framework evaluates at each statement.
pub trait PropertyChecker: Sized {
    /// Whether the property rejects `stmt` under pre-state `state`, and
    /// with which kind of violation.
    spec fn spec_check(&self, state: AbstractState, stmt: Stmt, addr: u64) -> Option<ViolationKind>;

    /// The diagnostic rendering reported for a rejected statement.
    spec fn spec_detail(&self, state: AbstractState, stmt: Stmt) -> Seq<char>;

    /// Evaluate the property at one statement; `None` is acceptance.
    fn check_statement(&self, state: &AbstractState, stmt: &Stmt, loc: &LocIdx) -> (r: Option<
        Violation,
    >)
        ensures
            match r {
                None => self.spec_check(*state, *stmt, loc.addr) is None,
                Some(v) => {
                    &&& self.spec_check(*state, *stmt, loc.addr) == Some(v.kind)
                    &&& v.addr == loc.addr
                    &&& v.detail@ == self.spec_detail(*state, *stmt)
                },
            },
    ;
}

/// The report one statement contributes: empty on acceptance, and one
/// `(address, kind, detail)` triple on rejection.
pub open spec fn entry_report<C: PropertyChecker>(c: C, ps: ProgStmt, result: StateMap) -> Seq<
    (u64, ViolationKind, Seq<char>),
> {
    match lookup_seq(result.entries@, ps.loc) {
        None => Seq::empty(),
        Some(st) => match c.spec_check(st, ps.stmt, ps.loc.addr) {
            None => Seq::empty(),
            Some(k) => seq![(ps.loc.addr, k, c.spec_detail(st, ps.stmt))],
        },
    }
}

/// The full report of a scan: every statement's contribution, in program
/// order.
pub open spec fn expected_report<C: PropertyChecker>(
    c: C,
    stmts: Seq<ProgStmt>,
    result: StateMap,
) -> Seq<(u64, ViolationKind, Seq<char>)>
    decreases stmts.len(),
{
    if stmts.len() == 0 {
        Seq::empty()
    } else {
        entry_report(c, stmts[0], result) + expected_report(c, stmts.drop_first(), result)
    }
}

/// Whether the converged result holds a state for every location of the
/// program.
pub open spec fn all_states_present(stmts: Seq<ProgStmt>, result: StateMap) -> bool {
    forall|i: int|
        0 <= i < stmts.len() ==> lookup_seq(result.entries@, #[trigger] stmts[i].loc) is Some
}

/// Whether `vs` is exactly the report `exp`, field by field.
pub open spec fn report_matches(vs: Seq<Violation>, exp: Seq<(u64, ViolationKind, Seq<char>)>) -> bool {
    &&& vs.len() == exp.len()
    &&& forall|i: int|
        0 <= i < vs.len() ==> {
            &&& (#[trigger] vs[i]).addr == exp[i].0
            &&& vs[i].kind == exp[i].1
            &&& vs[i].detail@ == exp[i].2
        }
}

proof fn lemma_expected_report_push<C: PropertyChecker>(
    c: C,
    stmts: Seq<ProgStmt>,
    ps: ProgStmt,
    result: StateMap,
)
    ensures
        expected_report(c, stmts.push(ps), result) == expected_report(c, stmts, result)
            + entry_report(c, ps, result),
    decreases stmts.len(),
{
    let p = stmts.push(ps);
    if stmts.len() == 0 {
        assert(p[0] == ps);
        assert(p.drop_first() =~= Seq::<ProgStmt>::empty());
        assert(expected_report(c, p.drop_first(), result) == Seq::<
            (u64, ViolationKind, Seq<char>),
        >::empty());
        assert(expected_report(c, p, result) == entry_report(c, ps, result) + Seq::<
            (u64, ViolationKind, Seq<char>),
        >::empty());
        assert(expected_report(c, stmts, result) == Seq::<(u64, ViolationKind, Seq<char>)>::empty());
        assert(expected_report(c, p, result) =~= expected_report(c, stmts, result) + entry_report(
            c,
            ps,
            result,
        ));
    } else {
        assert(p.drop_first() =~= stmts.drop_first().push(ps));
        lemma_expected_report_push(c, stmts.drop_first(), ps, result);
        assert(p[0] == stmts[0]);
        assert(expected_report(c, p, result) == entry_report(c, stmts[0], result) + (expected_report(
            c,
            stmts.drop_first(),
            result,
        ) + entry_report(c, ps, result)));
        assert(expected_report(c, p, result) =~= expected_report(c, stmts, result) + entry_report(
            c,
            ps,
            result,
        ));
    }
}

/// Whether the property accepts one statement under its recorded
/// pre-state. A statement without a recorded state raises no violation;
/// it aborts the scan instead.
pub open spec fn stmt_accepted<C: PropertyChecker>(c: C, ps: ProgStmt, result: StateMap) -> bool {
    match lookup_seq(result.entries@, ps.loc) {
        None => true,
        Some(st) => c.spec_check(st, ps.stmt, ps.loc.addr) is None,
    }
}

/// The report of a scan is empty exactly when the property accepts every
/// statement of the program under its converged pre-state: a pass vouches
/// for each location, and a single rejection shows in the report.
pub proof fn lemma_report_empty_iff_all_accepted<C: PropertyChecker>(
    c: C,
    stmts: Seq<ProgStmt>,
    result: StateMap,
)
    ensures
        expected_report(c, stmts, result).len() == 0 <==> (forall|i: int|
            0 <= i < stmts.len() ==> stmt_accepted(c, #[trigger] stmts[i], result)),
    decreases stmts.len(),
{
    if stmts.len() > 0 {
        let tail = stmts.drop_first();
        lemma_report_empty_iff_all_accepted(c, tail, result);
        assert(expected_report(c, stmts, result).len() == entry_report(c, stmts[0], result).len()
            + expected_report(c, tail, result).len());
        assert(entry_report(c, stmts[0], result).len() == 0 <==> stmt_accepted(c, stmts[0], result));
        if expected_report(c, stmts, result).len() == 0 {
            assert forall|i: int|
                0 <= i < stmts.len() implies stmt_accepted(c, #[trigger] stmts[i], result) by {
                if i > 0 {
                    assert(stmts[i] == tail[i - 1]);
                    assert(stmt_accepted(c, tail[i - 1], result));
                }
            }
        } else {
            if entry_report(c, stmts[0], result).len() > 0 {
                assert(!stmt_accepted(c, stmts[0], result));
            } else {
                let i = choose|i: int|
                    0 <= i < tail.len() && !stmt_accepted(c, #[trigger] tail[i], result);
                assert(stmts[i + 1] == tail[i]);
                assert(!stmt_accepted(c, stmts[i + 1], result));
            }
        }
    }
}

/// Scan the whole program in order, evaluating the property at every
/// statement against its converged pre-state, and collect every violation.
/// The scan does not stop at the first violation; the verdict is the empty
/// report exactly when the property accepts everywhere. A location absent
/// from the converged result aborts the scan with the first such location.
pub fn check_all<C: PropertyChecker>(c: &C, prog: &Program, result: &StateMap) -> (r: Result<
    Vec<Violation>,
    CheckError,
>)
    ensures
        match r {
            Ok(vs) => {
                &&& all_states_present(prog.stmts@, *result)
                &&& report_matches(vs@, expected_report(*c, prog.stmts@, *result))
            },
            Err(e) => exists|i: int|
                {
                    &&& 0 <= i < prog.stmts@.len()
                    &&& lookup_seq(result.entries@, (#[trigger] prog.stmts@[i]).loc) is None
                    &&& forall|j: int|
                        0 <= j < i ==> lookup_seq(
                            result.entries@,
                            (#[trigger] prog.stmts@[j]).loc,
                        ) is Some
                    &&& e == CheckError::MissingState(prog.stmts@[i].loc)
                },
        },
{
    let mut out: Vec<Violation> = Vec::new();
    let mut i: usize = 0;
    proof {
        assert(prog.stmts@.take(0) =~= Seq::<ProgStmt>::empty());
    }
    while i < prog.stmts.len()
        invariant
            i <= prog.stmts@.len(),
            forall|j: int|
                0 <= j < i ==> lookup_seq(result.entries@, (#[trigger] prog.stmts@[j]).loc) is Some,
            report_matches(out@, expected_report(*c, prog.stmts@.take(i as int), *result)),
        decreases prog.stmts@.len() - i,
    {
        let ps = prog.stmts[i];
        match result.get(&ps.loc) {
            None => {
                return Err(CheckError::MissingState(ps.loc));
            },
            Some(st) => {
                proof {
                    lemma_expected_report_push(*c, prog.stmts@.take(i as int), ps, *result);
                    assert(prog.stmts@.take(i as int).push(ps) =~= prog.stmts@.take(i as int + 1));
                }
                match c.check_statement(st, &ps.stmt, &ps.loc) {
                    None => {},
                    Some(v) => {
                        out.push(v);
                    },
                }
            },
        }
        i = i + 1;
    }
    proof {
        assert(prog.stmts@.take(prog.stmts@.len() as int) =~= prog.stmts@);
    }
    Ok(out)
}

} // verus!
