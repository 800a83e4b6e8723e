//! The error number type, its constructors, accessors and conversions.

use vstd::prelude::*;

verus! {

/// An error number returned from a macOS system call.
///
/// The wrapped integer is never zero, so that zero stays free to mean
/// "no error" wherever an optional error number is held.
#[derive(Clone, Copy, PartialEq, Eq, Structural, Hash, Ord)]
pub struct Error(i32);

impl View for Error {
    type V = int;

    /// The error number as a mathematical integer.
    closed spec fn view(&self) -> int {
        self.0 as int
    }
}

impl Error {
    #[verifier::type_invariant]
    spec fn nonzero(self) -> bool {
        self.0 != 0
    }

    /// The error whose number is `errno`, for a number that fits in 32 bits
    /// and is not zero.
    pub closed spec fn of(errno: int) -> Error {
        Error(errno as i32)
    }

    /// What [`Error::new`] returns: nothing for zero, and otherwise the error
    /// with that number.
    pub open spec fn spec_new(errno: int) -> Option<Error> {
        if errno == 0 {
            None
        } else {
            Some(Error::of(errno))
        }
    }

    /// Creates an error from a raw error number, or `None` if `errno` is zero.
    pub fn new(errno: i32) -> (r: Option<Error>)
        ensures
            r == Error::spec_new(errno as int),
            r.is_some() <==> errno != 0,
            r matches Some(e) ==> e@ == errno,
    {
        if errno != 0 {
            Some(Error(errno))
        } else {
            errno_out_of_range()
        }
    }

    /// Creates an error from a raw error number that the caller knows to be
    /// non-zero.
    pub fn new_unchecked(errno: i32) -> (e: Error)
        requires
            errno != 0,
        ensures
            e == Error::of(errno as int),
            e@ == errno,
    {
        Error(errno)
    }

    /// Returns the error number as a primitive `i32`.
    pub fn get(&self) -> (n: i32)
        ensures
            n == self@,
            n != 0,
    {
        proof {
            use_type_invariant(self);
        }
        self.0
    }
}

/// The result of construction from a number outside the range of error
/// numbers, which is zero alone.
pub fn errno_out_of_range() -> (r: Option<Error>)
    ensures
        r.is_none(),
{
    None
}

impl From<Error> for i32 {
    fn from(err: Error) -> (n: i32) {
        err.get()
    }
}

impl vstd::std_specs::convert::FromSpecImpl<Error> for i32 {
    open spec fn obeys_from_spec() -> bool {
        true
    }

    open spec fn from_spec(err: Error) -> i32 {
        err@ as i32
    }
}

impl From<Error> for i64 {
    fn from(err: Error) -> (n: i64) {
        i64::from(err.get())
    }
}

impl vstd::std_specs::convert::FromSpecImpl<Error> for i64 {
    open spec fn obeys_from_spec() -> bool {
        true
    }

    open spec fn from_spec(err: Error) -> i64 {
        err@ as i64
    }
}

/// An error's number fits in 32 bits.
pub proof fn lemma_view_in_range(e: Error)
    ensures
        i32::MIN <= e@ <= i32::MAX,
{
}

/// Two errors with the same number are the same error.
pub proof fn lemma_view_injective(a: Error, b: Error)
    requires
        a@ == b@,
    ensures
        a == b,
{
}

/// The error made of a number that fits in 32 bits has that number.
pub proof fn lemma_of_view(errno: int)
    requires
        i32::MIN <= errno <= i32::MAX,
    ensures
        Error::of(errno)@ == errno,
{
}

/// Construction from a non-zero number succeeds and the result holds that
/// number; construction from zero fails.
pub proof fn lemma_new_total(errno: i32)
    ensures
        errno != 0 ==> Error::spec_new(errno as int).is_some()
            && Error::spec_new(errno as int).unwrap()@ == errno,
        errno == 0 ==> Error::spec_new(errno as int).is_none(),
{
}

/// Construction from an error's own number gives that error back.
pub proof fn lemma_new_round_trip(e: Error)
    requires
        e@ != 0,
    ensures
        Error::spec_new(e@) == Some(e),
{
}

/// Conversion to the integer types keeps the number.
pub proof fn lemma_conversions_lossless(e: Error)
    ensures
        <i32 as vstd::std_specs::convert::FromSpec<Error>>::from_spec(e) == e@,
        <i64 as vstd::std_specs::convert::FromSpec<Error>>::from_spec(e) == e@,
{
}

} // verus!
