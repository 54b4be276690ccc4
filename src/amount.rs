use vstd::prelude::*;

verus! {

/// 2^128, the weight of the high half of a `U256`.
pub open spec fn half_base() -> nat {
    0x1_0000_0000_0000_0000_0000_0000_0000_0000nat
}

/// 2^256: every `U256` value lies below it.
pub open spec fn word_base() -> nat {
    half_base() * half_base()
}

/// An unsigned 256-bit integer, held as two 128-bit halves.
#[derive(Clone, Copy, Debug, PartialEq, Eq, Structural)]
pub struct U256 {
    pub hi: u128,
    pub lo: u128,
}

impl View for U256 {
    type V = nat;

    open spec fn view(&self) -> nat {
        self.hi as nat * half_base() + self.lo as nat
    }
}

impl U256 {
    /// The value zero.
    pub fn zero() -> (r: U256)
        ensures
            r@ == 0,
    {
        U256 { hi: 0, lo: 0 }
    }

    /// The value `hi * 2^128 + lo`.
    pub fn from_halves(hi: u128, lo: u128) -> (r: U256)
        ensures
            r@ == hi as nat * half_base() + lo as nat,
    {
        U256 { hi, lo }
    }

    /// A value that fits in 128 bits.
    pub fn from_u128(v: u128) -> (r: U256)
        ensures
            r@ == v as nat,
    {
        U256 { hi: 0, lo: v }
    }

    /// Whether `self` is strictly below `other`.
    pub fn lt(&self, other: &U256) -> (r: bool)
        ensures
            r == (self@ < other@),
    {
        if self.hi != other.hi {
            self.hi < other.hi
        } else {
            self.lo < other.lo
        }
    }

    /// The exact sum; the caller guarantees that it stays below 2^256.
    pub fn add(&self, other: &U256) -> (r: U256)
        requires
            self@ + other@ < word_base(),
        ensures
            r@ == self@ + other@,
    {
        if self.lo <= u128::MAX - other.lo {
            U256 { hi: self.hi + other.hi, lo: self.lo + other.lo }
        } else {
            let lo: u128 = self.lo - (u128::MAX - other.lo) - 1;
            U256 { hi: self.hi + other.hi + 1, lo }
        }
    }

    /// The exact difference; the caller guarantees that `other` is not above `self`.
    pub fn sub(&self, other: &U256) -> (r: U256)
        requires
            other@ <= self@,
        ensures
            r@ == self@ - other@,
    {
        if other.lo <= self.lo {
            U256 { hi: self.hi - other.hi, lo: self.lo - other.lo }
        } else {
            let lo: u128 = (u128::MAX - other.lo) + self.lo + 1;
            U256 { hi: self.hi - other.hi - 1, lo }
        }
    }
}

} // verus!
