//! The textual forms of an error: its diagnostic form, and its number in
//! binary and in hexadecimal.

use vstd::prelude::*;
use vstd::string::StringExecFns;
use crate::error::Error;
use crate::table::{err_name, symbol};

verus! {

/// The sixteen digits, with lower-case letters from ten on.
pub open spec fn lower_digits() -> Seq<char> {
    seq!['0', '1', '2', '3', '4', '5', '6', '7', '8', '9', 'a', 'b', 'c', 'd', 'e', 'f']
}

/// The sixteen digits, with upper-case letters from ten on.
pub open spec fn upper_digits() -> Seq<char> {
    seq!['0', '1', '2', '3', '4', '5', '6', '7', '8', '9', 'A', 'B', 'C', 'D', 'E', 'F']
}

/// The digits of `n` in the given base, the most significant first and
/// without leading zeros; zero is the one digit `0`.
pub open spec fn radix_text(n: nat, base: nat, upper: bool) -> Seq<char>
    decreases n,
    when 2 <= base <= 16
    via radix_text_decreases
{
    let digits = if upper {
        upper_digits()
    } else {
        lower_digits()
    };
    if n < base {
        seq![digits[n as int]]
    } else {
        radix_text(n / base, base, upper).push(digits[(n % base) as int])
    }
}

#[via_fn]
proof fn radix_text_decreases(n: nat, base: nat, upper: bool) {
    assert(n >= base && base >= 2 ==> n / base < n) by (nonlinear_arith);
}

/// The decimal digits of `n`, after a minus sign where it is negative.
pub open spec fn decimal_text(n: int) -> Seq<char> {
    if n < 0 {
        seq!['-'] + radix_text((-n) as nat, 10, false)
    } else {
        radix_text(n as nat, 10, false)
    }
}

/// The unsigned 32-bit integer with the bits of `n` in two's complement.
pub open spec fn bits_of(n: i32) -> nat {
    if n < 0 {
        (n + 0x1_0000_0000) as nat
    } else {
        n as nat
    }
}

/// Formats `n` with `<i32 as core::fmt::Debug>::fmt`, with no flags set.
/// Believed, not proved: it writes the number in decimal, with a minus sign
/// before a negative one.
#[verifier::external_body]
fn format_debug(n: i32) -> (s: String)
    ensures
        s@ == decimal_text(n as int),
{
    format!("{:?}", n)
}

/// Formats `n` with `<i32 as core::fmt::Binary>::fmt`, with no flags set.
/// Believed, not proved: it writes the bits of `n`, a negative number in
/// two's complement, from the first bit that is set.
#[verifier::external_body]
fn format_binary(n: i32) -> (s: String)
    ensures
        s@ == radix_text(bits_of(n), 2, false),
{
    format!("{:b}", n)
}

/// Formats `n` with `<i32 as core::fmt::LowerHex>::fmt`, with no flags set.
/// Believed, not proved: it writes the bits of `n`, a negative number in
/// two's complement, in base sixteen with the letters `a` to `f`.
#[verifier::external_body]
fn format_lower_hex(n: i32) -> (s: String)
    ensures
        s@ == radix_text(bits_of(n), 16, false),
{
    format!("{:x}", n)
}

/// Formats `n` with `<i32 as core::fmt::UpperHex>::fmt`, with no flags set.
/// Believed, not proved: it writes the bits of `n`, a negative number in
/// two's complement, in base sixteen with the letters `A` to `F`.
#[verifier::external_body]
fn format_upper_hex(n: i32) -> (s: String)
    ensures
        s@ == radix_text(bits_of(n), 16, true),
{
    format!("{:X}", n)
}

/// The tagged form of an error without a name: the type's name, and the
/// number's text in round brackets.
pub open spec fn tagged_text(number: Seq<char>) -> Seq<char> {
    "Error("@ + number + ")"@
}

/// The diagnostic form of the error with number `errno`: its symbolic name
/// where it has one, and else the tagged form around its decimal digits.
pub open spec fn debug_text(errno: int) -> Seq<char> {
    match symbol(errno) {
        Some(name) => name@,
        None => tagged_text(decimal_text(errno)),
    }
}

/// Puts the text of a number into the tagged form.
pub fn tagged(number: &str) -> (s: String)
    ensures
        s@ == tagged_text(number@),
{
    let mut s = String::from_str("Error(");
    s.append(number);
    s.append(")");
    s
}

impl Error {
    /// The diagnostic form of the error: its symbolic name where it has one,
    /// such as `ENOENT`, and else the tagged form, such as `Error(12345)`.
    pub fn to_debug_string(&self) -> (s: String)
        ensures
            s@ == debug_text(self@),
    {
        match err_name(*self) {
            Some(name) => String::from_str(name),
            None => {
                let number = format_debug(self.get());
                tagged(number.as_str())
            },
        }
    }

    /// The error's number in binary, as the integer itself is written.
    pub fn to_binary_string(&self) -> (s: String)
        ensures
            s@ == radix_text(bits_of(self@ as i32), 2, false),
    {
        format_binary(self.get())
    }

    /// The error's number in hexadecimal with lower-case digits, as the
    /// integer itself is written.
    pub fn to_lower_hex_string(&self) -> (s: String)
        ensures
            s@ == radix_text(bits_of(self@ as i32), 16, false),
    {
        format_lower_hex(self.get())
    }

    /// The error's number in hexadecimal with upper-case digits, as the
    /// integer itself is written.
    pub fn to_upper_hex_string(&self) -> (s: String)
        ensures
            s@ == radix_text(bits_of(self@ as i32), 16, true),
    {
        format_upper_hex(self.get())
    }
}

/// An error with a name is written as that name alone, and an error without
/// one in the tagged form.
pub proof fn lemma_debug_text_cases(errno: int)
    ensures
        symbol(errno) matches Some(name) ==> debug_text(errno) == name@,
        symbol(errno).is_none() ==> debug_text(errno) == "Error("@ + decimal_text(errno) + ")"@,
        !(1 <= errno <= 106) ==> symbol(errno).is_none(),
{
}

} // verus!
