use vstd::prelude::*;

verus! {

/// A finite-or-infinite, never NaN, IEEE-754 double held by its bit pattern.
#[derive(Debug, Clone, Copy, PartialEq, Eq, Structural)]
pub struct Num {
    pub bits: u64,
}

pub const SIGN_MASK: u64 = 0x8000_0000_0000_0000;

pub const MAGNITUDE_MASK: u64 = 0x7fff_ffff_ffff_ffff;

pub const EXPONENT_MASK: u64 = 0x7ff0_0000_0000_0000;

pub const MANTISSA_MASK: u64 = 0x000f_ffff_ffff_ffff;

/// The bit pattern of `1.0`.
pub const ONE_BITS: u64 = 0x3ff0_0000_0000_0000;

impl Num {
    /// Not a NaN: a NaN has every exponent bit set and a non-zero mantissa.
    pub open spec fn wf(self) -> bool {
        !((self.bits & EXPONENT_MASK) == EXPONENT_MASK && (self.bits & MANTISSA_MASK) != 0)
    }

    /// `+0.0` or `-0.0`.
    pub open spec fn is_zero_spec(self) -> bool {
        self.bits & MAGNITUDE_MASK == 0
    }

    /// Exactly `1.0`.
    pub open spec fn is_one_spec(self) -> bool {
        self.bits == ONE_BITS
    }

    /// Strictly above zero.
    pub open spec fn is_pos_spec(self) -> bool {
        self.bits & SIGN_MASK == 0 && !self.is_zero_spec()
    }

    /// Strictly below zero.
    pub open spec fn is_neg_spec(self) -> bool {
        self.bits & SIGN_MASK != 0 && !self.is_zero_spec()
    }

    /// Numeric equality: equal patterns, or both zeros of either sign.
    pub open spec fn same_value(self, other: Num) -> bool {
        self.bits == other.bits || (self.is_zero_spec() && other.is_zero_spec())
    }

    pub fn from_bits(bits: u64) -> (r: Option<Num>)
        ensures
            r is Some <==> (Num { bits }).wf(),
            r is Some ==> r->0.bits == bits,
    {
        let n = Num { bits };
        if (bits & EXPONENT_MASK) == EXPONENT_MASK && (bits & MANTISSA_MASK) != 0 {
            None
        } else {
            Some(n)
        }
    }

    pub fn is_zero(&self) -> (r: bool)
        ensures
            r == self.is_zero_spec(),
    {
        self.bits & MAGNITUDE_MASK == 0
    }

    pub fn is_one(&self) -> (r: bool)
        ensures
            r == self.is_one_spec(),
    {
        self.bits == ONE_BITS
    }

    pub fn is_pos(&self) -> (r: bool)
        ensures
            r == self.is_pos_spec(),
    {
        self.bits & SIGN_MASK == 0 && !self.is_zero()
    }

    pub fn is_neg(&self) -> (r: bool)
        ensures
            r == self.is_neg_spec(),
    {
        self.bits & SIGN_MASK != 0 && !self.is_zero()
    }

    pub fn same_as(&self, other: &Num) -> (r: bool)
        ensures
            r == self.same_value(*other),
    {
        self.bits == other.bits || (self.is_zero() && other.is_zero())
    }
}

} // verus!
