//! Absolute values of signed components.

use num_traits::Signed;
use vstd::prelude::*;

verus! {

/// A signed component type whose absolute value can be taken.
pub trait Magnitude: Copy {
    /// The absolute value of `self` can be represented.
    spec fn magnitude_req(self) -> bool;

    /// The absolute value of `self`.
    spec fn magnitude_spec(self) -> Self;

    /// Returns the absolute value of `self`.
    fn magnitude(self) -> (magnitude: Self)
        requires
            self.magnitude_req(),
        ensures
            magnitude == self.magnitude_spec(),
    ;
}

/// Calls `num_traits::Signed::abs` for `i8`, which negates a negative
/// number and hands any other back. The least `i8` has no negation and
/// is left out; of every other value the result is its absolute value.
#[verifier::external_body]
fn abs_i8(value: i8) -> (magnitude: i8)
    requires
        value != i8::MIN,
    ensures
        magnitude == (if value < 0 {
            -value
        } else {
            value as int
        }),
{
    Signed::abs(&value)
}

impl Magnitude for i8 {
    open spec fn magnitude_req(self) -> bool {
        self != i8::MIN
    }

    open spec fn magnitude_spec(self) -> i8 {
        if self < 0 {
            (-self) as i8
        } else {
            self
        }
    }

    fn magnitude(self) -> (magnitude: i8) {
        abs_i8(self)
    }
}

/// Calls `num_traits::Signed::abs` for `i16`, which negates a negative
/// number and hands any other back. The least `i16` has no negation and
/// is left out; of every other value the result is its absolute value.
#[verifier::external_body]
fn abs_i16(value: i16) -> (magnitude: i16)
    requires
        value != i16::MIN,
    ensures
        magnitude == (if value < 0 {
            -value
        } else {
            value as int
        }),
{
    Signed::abs(&value)
}

impl Magnitude for i16 {
    open spec fn magnitude_req(self) -> bool {
        self != i16::MIN
    }

    open spec fn magnitude_spec(self) -> i16 {
        if self < 0 {
            (-self) as i16
        } else {
            self
        }
    }

    fn magnitude(self) -> (magnitude: i16) {
        abs_i16(self)
    }
}

/// Calls `num_traits::Signed::abs` for `i32`, which negates a negative
/// number and hands any other back. The least `i32` has no negation and
/// is left out; of every other value the result is its absolute value.
#[verifier::external_body]
fn abs_i32(value: i32) -> (magnitude: i32)
    requires
        value != i32::MIN,
    ensures
        magnitude == (if value < 0 {
            -value
        } else {
            value as int
        }),
{
    Signed::abs(&value)
}

impl Magnitude for i32 {
    open spec fn magnitude_req(self) -> bool {
        self != i32::MIN
    }

    open spec fn magnitude_spec(self) -> i32 {
        if self < 0 {
            (-self) as i32
        } else {
            self
        }
    }

    fn magnitude(self) -> (magnitude: i32) {
        abs_i32(self)
    }
}

/// Calls `num_traits::Signed::abs` for `i64`, which negates a negative
/// number and hands any other back. The least `i64` has no negation and
/// is left out; of every other value the result is its absolute value.
#[verifier::external_body]
fn abs_i64(value: i64) -> (magnitude: i64)
    requires
        value != i64::MIN,
    ensures
        magnitude == (if value < 0 {
            -value
        } else {
            value as int
        }),
{
    Signed::abs(&value)
}

impl Magnitude for i64 {
    open spec fn magnitude_req(self) -> bool {
        self != i64::MIN
    }

    open spec fn magnitude_spec(self) -> i64 {
        if self < 0 {
            (-self) as i64
        } else {
            self
        }
    }

    fn magnitude(self) -> (magnitude: i64) {
        abs_i64(self)
    }
}

/// Calls `num_traits::Signed::abs` for `i128`, which negates a negative
/// number and hands any other back. The least `i128` has no negation and
/// is left out; of every other value the result is its absolute value.
#[verifier::external_body]
fn abs_i128(value: i128) -> (magnitude: i128)
    requires
        value != i128::MIN,
    ensures
        magnitude == (if value < 0 {
            -value
        } else {
            value as int
        }),
{
    Signed::abs(&value)
}

impl Magnitude for i128 {
    open spec fn magnitude_req(self) -> bool {
        self != i128::MIN
    }

    open spec fn magnitude_spec(self) -> i128 {
        if self < 0 {
            (-self) as i128
        } else {
            self
        }
    }

    fn magnitude(self) -> (magnitude: i128) {
        abs_i128(self)
    }
}

/// Calls `num_traits::Signed::abs` for `isize`, which negates a negative
/// number and hands any other back. The least `isize` has no negation and
/// is left out; of every other value the result is its absolute value.
#[verifier::external_body]
fn abs_isize(value: isize) -> (magnitude: isize)
    requires
        value != isize::MIN,
    ensures
        magnitude == (if value < 0 {
            -value
        } else {
            value as int
        }),
{
    Signed::abs(&value)
}

impl Magnitude for isize {
    open spec fn magnitude_req(self) -> bool {
        self != isize::MIN
    }

    open spec fn magnitude_spec(self) -> isize {
        if self < 0 {
            (-self) as isize
        } else {
            self
        }
    }

    fn magnitude(self) -> (magnitude: isize) {
        abs_isize(self)
    }
}

} // verus!
