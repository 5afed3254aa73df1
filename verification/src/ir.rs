//! The intermediate representation the checker inspects: operands, statements
//! and program locations of one disassembled function.

use vstd::prelude::*;

verus! {

/// Width class of a register operand, in bits.
#[derive(Clone, Copy, PartialEq, Eq, Structural, Debug)]
pub enum ValSize {
    Size8,
    Size16,
    Size32,
    Size64,
    Size128,
    Size256,
}

/// Signedness tag carried by an immediate operand.
#[derive(Clone, Copy, PartialEq, Eq, Structural, Debug)]
pub enum ImmType {
    Signed,
    Unsigned,
}

/// One sub-operand of a memory reference: a register or an immediate
/// (scale or displacement).
#[derive(Clone, Copy, PartialEq, Eq, Structural, Debug)]
pub enum MemArg {
    Reg(u8, ValSize),
    Imm(ImmType, ValSize, i64),
}

/// The shape of a memory reference: one to three sub-operands, added or
/// (for `MemScale`) with the third operand scaling the second.
#[derive(Clone, Copy, PartialEq, Eq, Structural, Debug)]
pub enum MemArgs {
    Mem1Arg(MemArg),
    Mem2Args(MemArg, MemArg),
    Mem3Args(MemArg, MemArg, MemArg),
    MemScale(MemArg, MemArg, MemArg),
}

/// An operand of a statement.
#[derive(Clone, Copy, PartialEq, Eq, Structural, Debug)]
pub enum Value {
    /// A register, identified by number and width class.
    Reg(u8, ValSize),
    /// A memory dereference.
    Mem(ValSize, MemArgs),
    /// An immediate integer; as a call target it is a displacement.
    Imm(ImmType, ValSize, i64),
    /// A RIP-relative constant whose address is statically fixed.
    RIPConst,
}

/// Opcode of a unary operation (destination, source).
#[derive(Clone, Copy, PartialEq, Eq, Structural, Debug)]
pub enum Unopcode {
    Mov,
    Movsx,
}

/// One IR statement. Only calls and unary operations with a memory source
/// are relevant to the call property; every other opcode is `Other`.
#[derive(Clone, Copy, PartialEq, Eq, Structural, Debug)]
pub enum Stmt {
    /// A call with its target operand.
    Call(Value),
    /// A unary operation: opcode, destination, source.
    Unop(Unopcode, Value, Value),
    /// Any opcode irrelevant to this property.
    Other,
}

/// A program location: instruction address plus a sub-index distinguishing
/// the effects of a multi-effect instruction.
#[derive(Clone, Copy, PartialEq, Eq, Structural, Debug)]
pub struct LocIdx {
    pub addr: u64,
    pub idx: u32,
}

/// A statement together with its location.
#[derive(Clone, Copy, PartialEq, Eq, Structural, Debug)]
pub struct ProgStmt {
    pub loc: LocIdx,
    pub stmt: Stmt,
}

/// The statements of one function, in program order.
pub struct Program {
    pub stmts: Vec<ProgStmt>,
}

} // verus!
