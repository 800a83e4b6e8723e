//! Equality between an error and the integer types.
//!
//! Each comparison is total: where one side has no counterpart in the other
//! side's type, the two are unequal. In contracts each of them means that the
//! two numbers are the same integer.

use vstd::prelude::*;
use vstd::std_specs::cmp::PartialEqSpec;
use crate::error::{lemma_view_in_range, Error};

verus! {

/// An error equals an `i16` that is its number.
/// Both sides are compared as 32-bit signed integers.
impl PartialEq<i16> for Error {
    fn eq(&self, other: &i16) -> (r: bool) {
        i32::from(*other) == self.get()
    }
}

impl vstd::std_specs::cmp::PartialEqSpecImpl<i16> for Error {
    open spec fn obeys_eq_spec() -> bool {
        true
    }

    open spec fn eq_spec(&self, other: &i16) -> bool {
        self@ == *other as int
    }
}

/// An `i16` equals the error whose number it is.
/// Both sides are compared as 32-bit signed integers.
impl PartialEq<Error> for i16 {
    fn eq(&self, other: &Error) -> (r: bool) {
        i32::from(*self) == other.get()
    }
}

impl vstd::std_specs::cmp::PartialEqSpecImpl<Error> for i16 {
    open spec fn obeys_eq_spec() -> bool {
        true
    }

    open spec fn eq_spec(&self, other: &Error) -> bool {
        other@ == *self as int
    }
}

/// An error equals an `i32` that is its number.
/// Both sides are compared as 32-bit signed integers.
impl PartialEq<i32> for Error {
    fn eq(&self, other: &i32) -> (r: bool) {
        *other == self.get()
    }
}

impl vstd::std_specs::cmp::PartialEqSpecImpl<i32> for Error {
    open spec fn obeys_eq_spec() -> bool {
        true
    }

    open spec fn eq_spec(&self, other: &i32) -> bool {
        self@ == *other as int
    }
}

/// An `i32` equals the error whose number it is.
/// Both sides are compared as 32-bit signed integers.
impl PartialEq<Error> for i32 {
    fn eq(&self, other: &Error) -> (r: bool) {
        *self == other.get()
    }
}

impl vstd::std_specs::cmp::PartialEqSpecImpl<Error> for i32 {
    open spec fn obeys_eq_spec() -> bool {
        true
    }

    open spec fn eq_spec(&self, other: &Error) -> bool {
        other@ == *self as int
    }
}

/// An error equals an `i64` that is its number.
/// Both sides are compared as 64-bit signed integers.
impl PartialEq<i64> for Error {
    fn eq(&self, other: &i64) -> (r: bool) {
        *other == i64::from(self.get())
    }
}

impl vstd::std_specs::cmp::PartialEqSpecImpl<i64> for Error {
    open spec fn obeys_eq_spec() -> bool {
        true
    }

    open spec fn eq_spec(&self, other: &i64) -> bool {
        self@ == *other as int
    }
}

/// An `i64` equals the error whose number it is.
/// Both sides are compared as 64-bit signed integers.
impl PartialEq<Error> for i64 {
    fn eq(&self, other: &Error) -> (r: bool) {
        *self == i64::from(other.get())
    }
}

impl vstd::std_specs::cmp::PartialEqSpecImpl<Error> for i64 {
    open spec fn obeys_eq_spec() -> bool {
        true
    }

    open spec fn eq_spec(&self, other: &Error) -> bool {
        other@ == *self as int
    }
}

/// An error equals a `u16` that is its number.
/// Both sides are compared as 32-bit signed integers.
impl PartialEq<u16> for Error {
    fn eq(&self, other: &u16) -> (r: bool) {
        *other as i32 == self.get()
    }
}

impl vstd::std_specs::cmp::PartialEqSpecImpl<u16> for Error {
    open spec fn obeys_eq_spec() -> bool {
        true
    }

    open spec fn eq_spec(&self, other: &u16) -> bool {
        self@ == *other as int
    }
}

/// A `u16` equals the error whose number it is.
/// Both sides are compared as 32-bit signed integers.
impl PartialEq<Error> for u16 {
    fn eq(&self, other: &Error) -> (r: bool) {
        *self as i32 == other.get()
    }
}

impl vstd::std_specs::cmp::PartialEqSpecImpl<Error> for u16 {
    open spec fn obeys_eq_spec() -> bool {
        true
    }

    open spec fn eq_spec(&self, other: &Error) -> bool {
        other@ == *self as int
    }
}

/// An error equals a `u32` that is its number.
/// Both sides are compared as 64-bit signed integers.
impl PartialEq<u32> for Error {
    fn eq(&self, other: &u32) -> (r: bool) {
        *other as i64 == i64::from(self.get())
    }
}

impl vstd::std_specs::cmp::PartialEqSpecImpl<u32> for Error {
    open spec fn obeys_eq_spec() -> bool {
        true
    }

    open spec fn eq_spec(&self, other: &u32) -> bool {
        self@ == *other as int
    }
}

/// A `u32` equals the error whose number it is.
/// Both sides are compared as 64-bit signed integers.
impl PartialEq<Error> for u32 {
    fn eq(&self, other: &Error) -> (r: bool) {
        *self as i64 == i64::from(other.get())
    }
}

impl vstd::std_specs::cmp::PartialEqSpecImpl<Error> for u32 {
    open spec fn obeys_eq_spec() -> bool {
        true
    }

    open spec fn eq_spec(&self, other: &Error) -> bool {
        other@ == *self as int
    }
}

/// An error equals a `u64` that is its number.
/// A negative error number equals no `u64`.
impl PartialEq<u64> for Error {
    fn eq(&self, other: &u64) -> (r: bool) {
        match u64::try_from(self.get()) {
            Ok(x) => x == *other,
            Err(_) => false,
        }
    }
}

impl vstd::std_specs::cmp::PartialEqSpecImpl<u64> for Error {
    open spec fn obeys_eq_spec() -> bool {
        true
    }

    open spec fn eq_spec(&self, other: &u64) -> bool {
        self@ == *other as int
    }
}

/// A `u64` equals the error whose number it is.
/// A negative error number equals no `u64`.
impl PartialEq<Error> for u64 {
    fn eq(&self, other: &Error) -> (r: bool) {
        match u64::try_from(other.get()) {
            Ok(x) => x == *self,
            Err(_) => false,
        }
    }
}

impl vstd::std_specs::cmp::PartialEqSpecImpl<Error> for u64 {
    open spec fn obeys_eq_spec() -> bool {
        true
    }

    open spec fn eq_spec(&self, other: &Error) -> bool {
        other@ == *self as int
    }
}

/// An error equals a `usize` that is its number.
/// A negative error number equals no `usize`.
impl PartialEq<usize> for Error {
    fn eq(&self, other: &usize) -> (r: bool) {
        match usize::try_from(self.get()) {
            Ok(x) => x == *other,
            Err(_) => false,
        }
    }
}

impl vstd::std_specs::cmp::PartialEqSpecImpl<usize> for Error {
    open spec fn obeys_eq_spec() -> bool {
        true
    }

    open spec fn eq_spec(&self, other: &usize) -> bool {
        self@ == *other as int
    }
}

/// A `usize` equals the error whose number it is.
/// A negative error number equals no `usize`.
impl PartialEq<Error> for usize {
    fn eq(&self, other: &Error) -> (r: bool) {
        match usize::try_from(other.get()) {
            Ok(x) => x == *self,
            Err(_) => false,
        }
    }
}

impl vstd::std_specs::cmp::PartialEqSpecImpl<Error> for usize {
    open spec fn obeys_eq_spec() -> bool {
        true
    }

    open spec fn eq_spec(&self, other: &Error) -> bool {
        other@ == *self as int
    }
}

/// An error equals an `isize` that is its number.
/// An error number that does not fit in an `isize` equals none.
impl PartialEq<isize> for Error {
    fn eq(&self, other: &isize) -> (r: bool) {
        match isize::try_from(self.get()) {
            Ok(x) => x == *other,
            Err(_) => false,
        }
    }
}

impl vstd::std_specs::cmp::PartialEqSpecImpl<isize> for Error {
    open spec fn obeys_eq_spec() -> bool {
        true
    }

    open spec fn eq_spec(&self, other: &isize) -> bool {
        self@ == *other as int
    }
}

/// An `isize` equals the error whose number it is.
/// An error number that does not fit in an `isize` equals none.
impl PartialEq<Error> for isize {
    fn eq(&self, other: &Error) -> (r: bool) {
        match isize::try_from(other.get()) {
            Ok(x) => x == *self,
            Err(_) => false,
        }
    }
}

impl vstd::std_specs::cmp::PartialEqSpecImpl<Error> for isize {
    open spec fn obeys_eq_spec() -> bool {
        true
    }

    open spec fn eq_spec(&self, other: &Error) -> bool {
        other@ == *self as int
    }
}

/// Equality with an integer does not depend on which side the error stands.
pub proof fn lemma_eq_symmetric(
    e: Error,
    a: i16,
    b: i32,
    c: i64,
    d: u16,
    f: u32,
    g: u64,
    h: usize,
    i: isize,
)
    ensures
        e.eq_spec(&a) == a.eq_spec(&e),
        e.eq_spec(&b) == b.eq_spec(&e),
        e.eq_spec(&c) == c.eq_spec(&e),
        e.eq_spec(&d) == d.eq_spec(&e),
        e.eq_spec(&f) == f.eq_spec(&e),
        e.eq_spec(&g) == g.eq_spec(&e),
        e.eq_spec(&h) == h.eq_spec(&e),
        e.eq_spec(&i) == i.eq_spec(&e),
{
}

/// An integer that is no 32-bit signed integer equals no error, and neither
/// does zero.
pub proof fn lemma_eq_out_of_range(e: Error, b: i32, c: i64, f: u32, g: u64, h: usize, i: isize)
    requires
        e@ != 0,
    ensures
        b == 0 ==> !e.eq_spec(&b),
        !(i32::MIN <= c <= i32::MAX) ==> !e.eq_spec(&c),
        f > i32::MAX ==> !e.eq_spec(&f),
        g > i32::MAX ==> !e.eq_spec(&g),
        h > i32::MAX ==> !e.eq_spec(&h),
        !(i32::MIN <= i <= i32::MAX) ==> !e.eq_spec(&i),
{
    lemma_view_in_range(e);
}

/// An error with a negative number equals no unsigned integer.
pub proof fn lemma_eq_negative(e: Error, d: u16, f: u32, g: u64, h: usize)
    requires
        e@ < 0,
    ensures
        !e.eq_spec(&d),
        !e.eq_spec(&f),
        !e.eq_spec(&g),
        !e.eq_spec(&h),
{
}

} // verus!
