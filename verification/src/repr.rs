//! Renderings of abstract values and operands for diagnostics, with exact
//! character-sequence contracts.

use vstd::prelude::*;
use crate::lattices::{CallCheckValue, DAV};

verus! {

/// Relies on String::push: appends one character to the string.
#[verifier::external_body]
pub(crate) fn push_char(s: &mut String, c: char)
    ensures
        final(s)@ == old(s)@.push(c),
{
    s.push(c);
}

/// Relies on String::push_str: appends a string slice to the string.
#[verifier::external_body]
pub(crate) fn push_string(s: &mut String, t: &str)
    ensures
        final(s)@ == old(s)@ + t@,
{
    s.push_str(t);
}

/// The character for one decimal digit.
pub open spec fn spec_digit_char(d: int) -> char {
    if d == 0 {
        '0'
    } else if d == 1 {
        '1'
    } else if d == 2 {
        '2'
    } else if d == 3 {
        '3'
    } else if d == 4 {
        '4'
    } else if d == 5 {
        '5'
    } else if d == 6 {
        '6'
    } else if d == 7 {
        '7'
    } else if d == 8 {
        '8'
    } else {
        '9'
    }
}

/// The decimal rendering of a nonnegative integer, most significant digit
/// first and without leading zeros.
pub open spec fn spec_dec(n: int) -> Seq<char>
    decreases n,
{
    if n < 10 {
        seq![spec_digit_char(n)]
    } else {
        spec_dec(n / 10).push(spec_digit_char(n % 10))
    }
}

/// The decimal rendering of a signed integer.
pub open spec fn spec_dec_signed(x: int) -> Seq<char> {
    if x >= 0 {
        spec_dec(x)
    } else {
        seq!['-'] + spec_dec(-x)
    }
}

fn digit_char(d: u64) -> (c: char)
    requires
        d < 10,
    ensures
        c == spec_digit_char(d as int),
{
    if d == 0 {
        '0'
    } else if d == 1 {
        '1'
    } else if d == 2 {
        '2'
    } else if d == 3 {
        '3'
    } else if d == 4 {
        '4'
    } else if d == 5 {
        '5'
    } else if d == 6 {
        '6'
    } else if d == 7 {
        '7'
    } else if d == 8 {
        '8'
    } else {
        '9'
    }
}

/// Render an unsigned integer in decimal.
pub fn u64_repr(n: u64) -> (r: String)
    ensures
        r@ == spec_dec(n as int),
    decreases n,
{
    if n < 10 {
        let mut s = String::new();
        push_char(&mut s, digit_char(n));
        proof {
            assert(s@ =~= spec_dec(n as int));
        }
        s
    } else {
        let mut s = u64_repr(n / 10);
        push_char(&mut s, digit_char(n % 10));
        s
    }
}

/// Render a signed integer in decimal.
pub fn i64_repr(x: i64) -> (r: String)
    ensures
        r@ == spec_dec_signed(x as int),
{
    if x >= 0 {
        u64_repr(x as u64)
    } else {
        let m: u64 = ((-(x + 1)) as u64) + 1;
        proof {
            assert(m == -(x as int));
        }
        let mut s = String::new();
        push_char(&mut s, '-');
        let digits = u64_repr(m);
        push_string(&mut s, digits.as_str());
        proof {
            assert(s@ =~= spec_dec_signed(x as int));
        }
        s
    }
}

/// The rendering of a Definite-Check fact.
pub open spec fn spec_dav_repr(d: DAV) -> Seq<char> {
    match d {
        DAV::Checked => "Checked"@,
        DAV::NotChecked => "NotChecked"@,
        DAV::Unknown => "Unknown"@,
    }
}

/// Render a Definite-Check fact.
pub fn dav_repr(d: &DAV) -> (r: String)
    ensures
        r@ == spec_dav_repr(*d),
{
    match d {
        DAV::Checked => "Checked".to_owned(),
        DAV::NotChecked => "NotChecked".to_owned(),
        DAV::Unknown => "Unknown".to_owned(),
    }
}

/// The rendering of an abstract value: the classification's name, with the
/// tag or payload in parentheses where the variant carries one.
pub open spec fn spec_value_repr(v: CallCheckValue) -> Seq<char> {
    match v {
        CallCheckValue::FnPtr(c) => "FnPtr("@ + spec_dec(c as int) + ")"@,
        CallCheckValue::GuestTableBase => "GuestTableBase"@,
        CallCheckValue::PtrOffset(d) => "PtrOffset("@ + spec_dav_repr(d) + ")"@,
        CallCheckValue::TypedPtrOffset(t) => "TypedPtrOffset("@ + spec_dec(t as int) + ")"@,
        CallCheckValue::Unknown => "Unknown"@,
    }
}

/// Render an abstract value.
pub fn value_repr(v: &CallCheckValue) -> (r: String)
    ensures
        r@ == spec_value_repr(*v),
{
    match v {
        CallCheckValue::FnPtr(c) => {
            let mut s = "FnPtr(".to_owned();
            let digits = u64_repr(*c);
            push_string(&mut s, digits.as_str());
            push_string(&mut s, ")");
            proof {
                assert(s@ =~= spec_value_repr(*v));
            }
            s
        },
        CallCheckValue::GuestTableBase => "GuestTableBase".to_owned(),
        CallCheckValue::PtrOffset(d) => {
            let mut s = "PtrOffset(".to_owned();
            let tag = dav_repr(d);
            push_string(&mut s, tag.as_str());
            push_string(&mut s, ")");
            proof {
                assert(s@ =~= spec_value_repr(*v));
            }
            s
        },
        CallCheckValue::TypedPtrOffset(t) => {
            let mut s = "TypedPtrOffset(".to_owned();
            let digits = u64_repr(*t);
            push_string(&mut s, digits.as_str());
            push_string(&mut s, ")");
            proof {
                assert(s@ =~= spec_value_repr(*v));
            }
            s
        },
        CallCheckValue::Unknown => "Unknown".to_owned(),
    }
}

} // verus!
