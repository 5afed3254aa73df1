use call_checker::call_checker::{mem_access_repr, memarg_repr, target_repr};
use call_checker::ir::{ImmType, MemArg, MemArgs, ValSize, Value};
use call_checker::lattices::{CallCheckValue, DAV};
use call_checker::repr::{dav_repr, i64_repr, u64_repr, value_repr};
use call_checker::state::AbstractState;

#[test]
fn meet_is_idempotent_and_commutative() {
    let facts = [DAV::Checked, DAV::NotChecked, DAV::Unknown];
    for a in facts {
        assert_eq!(a.meet(a), a);
        for b in facts {
            assert_eq!(a.meet(b), b.meet(a));
        }
    }
}

#[test]
fn three_way_merge_with_one_unchecked_path_degrades() {
    // Checked on only two of three incoming paths must not stay Checked
    let merged = DAV::Checked.meet(DAV::Checked).meet(DAV::NotChecked);
    assert_eq!(merged, DAV::NotChecked);
    let merged_other_order = DAV::NotChecked.meet(DAV::Checked).meet(DAV::Checked);
    assert_eq!(merged_other_order, DAV::NotChecked);
}

#[test]
fn meet_keeps_checked_only_against_itself() {
    assert_eq!(DAV::Checked.meet(DAV::Checked), DAV::Checked);
    assert_eq!(DAV::Checked.meet(DAV::NotChecked), DAV::NotChecked);
    assert_eq!(DAV::Checked.meet(DAV::Unknown), DAV::NotChecked);
    assert_eq!(DAV::Unknown.meet(DAV::Unknown), DAV::Unknown);
}

#[test]
fn join_collapses_differing_facts_to_unknown() {
    let a = CallCheckValue::FnPtr(1);
    let b = CallCheckValue::FnPtr(2);
    assert_eq!(a.join(a), a);
    assert_eq!(a.join(b), CallCheckValue::Unknown);
    assert_eq!(
        CallCheckValue::PtrOffset(DAV::Checked).join(CallCheckValue::PtrOffset(DAV::NotChecked)),
        CallCheckValue::Unknown
    );
    assert_eq!(
        CallCheckValue::GuestTableBase.join(CallCheckValue::Unknown),
        CallCheckValue::Unknown
    );
    assert_eq!(
        CallCheckValue::Unknown.join(CallCheckValue::GuestTableBase),
        CallCheckValue::Unknown
    );
}

#[test]
fn leq_orders_facts_below_unknown() {
    let gtb = CallCheckValue::GuestTableBase;
    assert!(gtb.leq(gtb));
    assert!(gtb.leq(CallCheckValue::Unknown));
    assert!(!CallCheckValue::Unknown.leq(gtb));
    assert!(!gtb.leq(CallCheckValue::FnPtr(0)));
}

#[test]
fn entry_state_is_all_unknown() {
    let st = AbstractState::entry(16);
    assert_eq!(st.regs.len(), 16);
    for i in 0..=255u8 {
        assert_eq!(st.get_reg(i, ValSize::Size64), CallCheckValue::Unknown);
    }
}

#[test]
fn set_reg_tracks_and_preserves() {
    let mut st = AbstractState::entry(2);
    st.set_reg(1, CallCheckValue::GuestTableBase);
    st.set_reg(5, CallCheckValue::FnPtr(11));
    assert_eq!(st.get_reg(1, ValSize::Size64), CallCheckValue::GuestTableBase);
    assert_eq!(st.get_reg(5, ValSize::Size64), CallCheckValue::FnPtr(11));
    assert_eq!(st.get_reg(0, ValSize::Size64), CallCheckValue::Unknown);
    assert_eq!(st.get_reg(3, ValSize::Size64), CallCheckValue::Unknown);
    // width classes alias the same tracked slot
    assert_eq!(st.get_reg(1, ValSize::Size8), CallCheckValue::GuestTableBase);
    assert_eq!(st.get_reg(1, ValSize::Size32), CallCheckValue::GuestTableBase);
}

#[test]
fn decimal_renderings() {
    assert_eq!(u64_repr(0), "0");
    assert_eq!(u64_repr(9), "9");
    assert_eq!(u64_repr(10), "10");
    assert_eq!(u64_repr(1234567890), "1234567890");
    assert_eq!(u64_repr(u64::MAX), "18446744073709551615");
    assert_eq!(i64_repr(0), "0");
    assert_eq!(i64_repr(-1), "-1");
    assert_eq!(i64_repr(-987), "-987");
    assert_eq!(i64_repr(i64::MIN), "-9223372036854775808");
    assert_eq!(i64_repr(i64::MAX), "9223372036854775807");
}

#[test]
fn dav_renderings() {
    assert_eq!(dav_repr(&DAV::Checked), "Checked");
    assert_eq!(dav_repr(&DAV::NotChecked), "NotChecked");
    assert_eq!(dav_repr(&DAV::Unknown), "Unknown");
}

#[test]
fn value_renderings() {
    assert_eq!(value_repr(&CallCheckValue::FnPtr(42)), "FnPtr(42)");
    assert_eq!(value_repr(&CallCheckValue::GuestTableBase), "GuestTableBase");
    assert_eq!(
        value_repr(&CallCheckValue::PtrOffset(DAV::Checked)),
        "PtrOffset(Checked)"
    );
    assert_eq!(
        value_repr(&CallCheckValue::PtrOffset(DAV::NotChecked)),
        "PtrOffset(NotChecked)"
    );
    assert_eq!(
        value_repr(&CallCheckValue::PtrOffset(DAV::Unknown)),
        "PtrOffset(Unknown)"
    );
    assert_eq!(value_repr(&CallCheckValue::TypedPtrOffset(3)), "TypedPtrOffset(3)");
    assert_eq!(value_repr(&CallCheckValue::Unknown), "Unknown");
}

#[test]
fn operand_renderings() {
    let st = AbstractState {
        regs: vec![
            CallCheckValue::GuestTableBase,
            CallCheckValue::PtrOffset(DAV::Checked),
        ],
    };
    assert_eq!(
        memarg_repr(&st, &MemArg::Reg(0, ValSize::Size64)),
        "r0: GuestTableBase"
    );
    assert_eq!(
        memarg_repr(&st, &MemArg::Imm(ImmType::Signed, ValSize::Size32, -12)),
        "-12"
    );
    assert_eq!(
        mem_access_repr(&st, &MemArgs::Mem1Arg(MemArg::Reg(0, ValSize::Size64))),
        "mem[r0: GuestTableBase]"
    );
    assert_eq!(
        mem_access_repr(
            &st,
            &MemArgs::Mem2Args(MemArg::Reg(0, ValSize::Size64), MemArg::Reg(1, ValSize::Size64))
        ),
        "mem[r0: GuestTableBase + r1: PtrOffset(Checked)]"
    );
    assert_eq!(
        mem_access_repr(
            &st,
            &MemArgs::Mem3Args(
                MemArg::Reg(0, ValSize::Size64),
                MemArg::Reg(1, ValSize::Size64),
                MemArg::Imm(ImmType::Signed, ValSize::Size32, 8)
            )
        ),
        "mem[r0: GuestTableBase + r1: PtrOffset(Checked) + 8]"
    );
    assert_eq!(
        mem_access_repr(
            &st,
            &MemArgs::MemScale(
                MemArg::Reg(0, ValSize::Size64),
                MemArg::Reg(1, ValSize::Size64),
                MemArg::Imm(ImmType::Signed, ValSize::Size32, 8)
            )
        ),
        "mem[r0: GuestTableBase + r1: PtrOffset(Checked) * 8]"
    );
    assert_eq!(
        target_repr(&st, &Value::Reg(1, ValSize::Size64)),
        "r1: PtrOffset(Checked)"
    );
    assert_eq!(target_repr(&st, &Value::RIPConst), "RIPConst");
    assert_eq!(
        target_repr(&st, &Value::Imm(ImmType::Signed, ValSize::Size64, 300)),
        "300"
    );
}
