//! Document numbers without floating point: a binary64 is carried as its bit
//! pattern, compared by integer arithmetic on the pattern, and shown through
//! the two texts that were rendered when it was read.

use vstd::prelude::*;

verus! {

/// The sign bit of a binary64 pattern.
pub const SIGN_BIT: u64 = 0x8000_0000_0000_0000;

/// The pattern of positive infinity; a larger magnitude is not a number.
pub const INFINITY_BITS: u64 = 0x7FF0_0000_0000_0000;

/// The pattern of the binary64 nearest to eight tenths.
pub const EIGHT_TENTHS: u64 = 0x3FE9_9999_9999_999A;

/// The pattern of the binary64 nearest to nine tenths.
pub const NINE_TENTHS: u64 = 0x3FEC_CCCC_CCCC_CCCD;

/// The pattern without its sign bit.
pub open spec fn magnitude(bits: u64) -> int {
    if bits >= SIGN_BIT {
        bits - SIGN_BIT
    } else {
        bits as int
    }
}

/// Whether the pattern is not a number.
pub open spec fn is_nan(bits: u64) -> bool {
    magnitude(bits) > INFINITY_BITS
}

/// The place of a pattern that is a number in the order of the reals: the
/// magnitudes of one sign are ordered as the values are, and both zeros
/// share the place 0.
pub open spec fn rank(bits: u64) -> int {
    if bits >= SIGN_BIT {
        -magnitude(bits)
    } else {
        magnitude(bits)
    }
}

/// `a < b` as binary64 comparison defines it: false where either is not a
/// number, else the order of the values.
pub open spec fn less_than(a: u64, b: u64) -> bool {
    !is_nan(a) && !is_nan(b) && rank(a) < rank(b)
}

/// Decides `a < b` on two binary64 patterns.
pub fn bits_less_than(a: u64, b: u64) -> (r: bool)
    ensures
        r == less_than(a, b),
{
    let a_negative = a >= SIGN_BIT;
    let b_negative = b >= SIGN_BIT;
    let a_size: u64 = if a_negative {
        a - SIGN_BIT
    } else {
        a
    };
    let b_size: u64 = if b_negative {
        b - SIGN_BIT
    } else {
        b
    };
    if a_size > INFINITY_BITS || b_size > INFINITY_BITS {
        false
    } else if a_negative && b_negative {
        a_size > b_size
    } else if a_negative {
        !(a_size == 0 && b_size == 0)
    } else if b_negative {
        false
    } else {
        a_size < b_size
    }
}

/// A number read from the document: the bit pattern of its binary64 value,
/// its shortest decimal text and its text with two decimal places.
#[derive(Debug)]
pub struct Measure {
    pub bits: u64,
    pub shortest: String,
    pub two_places: String,
}

/// The mathematical content of a [`Measure`].
pub struct MeasureView {
    pub bits: u64,
    pub shortest: Seq<char>,
    pub two_places: Seq<char>,
}

impl View for Measure {
    type V = MeasureView;

    open spec fn view(&self) -> MeasureView {
        MeasureView { bits: self.bits, shortest: self.shortest@, two_places: self.two_places@ }
    }
}

/// The measure that stands for an absent number: positive zero.
pub open spec fn zero_measure() -> MeasureView {
    MeasureView { bits: 0, shortest: "0"@, two_places: "0.00"@ }
}

impl Measure {
    /// Positive zero, with the texts `0` and `0.00`.
    pub fn zero() -> (r: Measure)
        ensures
            r@ == zero_measure(),
    {
        Measure { bits: 0, shortest: "0".to_owned(), two_places: "0.00".to_owned() }
    }

    /// Whether the value is below eight tenths.
    pub fn below_eight_tenths(&self) -> (r: bool)
        ensures
            r == less_than(self.bits, EIGHT_TENTHS),
    {
        bits_less_than(self.bits, EIGHT_TENTHS)
    }

    /// Whether the value is above nine tenths.
    pub fn above_nine_tenths(&self) -> (r: bool)
        ensures
            r == less_than(NINE_TENTHS, self.bits),
    {
        bits_less_than(NINE_TENTHS, self.bits)
    }
}

} // verus!
