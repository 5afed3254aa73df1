//! A static checker for control-flow integrity of sandboxed machine code.
//!
//! Given the intermediate representation of a disassembled function and a
//! converged abstract pre-state for every program location, the checker walks
//! the instructions in program order and validates that every indirect call
//! targets a resolved function pointer and that every call-table lookup
//! combines a verified table base with a checked (or typed) offset.

pub mod ir;
pub mod lattices;
pub mod state;
pub mod repr;
pub mod checker;
pub mod call_checker;
