//! Front-end core of a compiler for a small statically-typed language:
//! an arena-indexed data model shared by the source tree and the
//! intermediate representation, the type-resolution and lowering pass
//! that turns a parsed program into an IR module, and the materialization
//! step that turns IR types into native machine type descriptions.

use vstd::prelude::*;

pub mod arena;
pub mod ast;
pub mod backend;
pub mod ir;

verus! {

/// Relies on `<str as PartialEq>::eq`: true exactly when the two string
/// slices hold the same characters.
#[verifier::external_body]
pub(crate) fn str_eq(a: &str, b: &str) -> (r: bool)
    ensures
        r == (a@ == b@),
{
    a == b
}

/// The decimal digit character for `d`, which must be between 0 and 9.
pub open spec fn digit_char(d: int) -> char {
    if d == 0 {
        '0'
    } else if d == 1 {
        '1'
    } else if d == 2 {
        '2'
    } else if d == 3 {
        '3'
    } else if d == 4 {
        '4'
    } else if d == 5 {
        '5'
    } else if d == 6 {
        '6'
    } else if d == 7 {
        '7'
    } else if d == 8 {
        '8'
    } else {
        '9'
    }
}

/// The decimal rendering of a non-negative integer, without sign or padding.
pub open spec fn dec_nat(n: nat) -> Seq<char>
    decreases n,
{
    if n < 10 {
        seq![digit_char(n as int)]
    } else {
        dec_nat(n / 10) + seq![digit_char((n % 10) as int)]
    }
}

/// The decimal rendering of an integer: a `-` sign followed by the digits
/// when negative, the digits alone otherwise.
pub open spec fn dec_int(n: int) -> Seq<char> {
    if n < 0 {
        seq!['-'] + dec_nat((-n) as nat)
    } else {
        dec_nat(n as nat)
    }
}

/// Relies on `i64::to_string` (through `Display`): the canonical decimal
/// rendering, a `-` sign followed by the digits for negative values.
#[verifier::external_body]
pub(crate) fn i64_to_string(n: i64) -> (r: String)
    ensures
        r@ == dec_int(n as int),
{
    n.to_string()
}

/// Relies on `usize::to_string` (through `Display`): the canonical decimal
/// rendering of an unsigned value.
#[verifier::external_body]
pub(crate) fn usize_to_string(n: usize) -> (r: String)
    ensures
        r@ == dec_nat(n as nat),
{
    n.to_string()
}

} // verus!
