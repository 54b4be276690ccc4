use vstd::prelude::*;

verus! {

/// A 160-bit account identity: the top 32 bits in `hi`, the rest in `lo`.
#[derive(Clone, Copy, Debug, PartialEq, Eq, Hash, Structural)]
pub struct Address {
    pub hi: u32,
    pub lo: u128,
}

impl Address {
    /// The null sentinel: the source of minted and the destination of burnt units.
    pub fn zero() -> (r: Address)
        ensures
            r == Address::null(),
    {
        Address { hi: 0, lo: 0 }
    }

    /// The null sentinel, in specifications.
    pub open spec fn null() -> Address {
        Address { hi: 0, lo: 0 }
    }

    /// The identity whose top 32 bits are `hi` and whose low 128 bits are `lo`.
    pub fn new(hi: u32, lo: u128) -> (r: Address)
        ensures
            r.hi == hi,
            r.lo == lo,
    {
        Address { hi, lo }
    }
}

/// The key of an allowance: who granted it and who may spend it.
#[derive(Clone, Copy, Debug, PartialEq, Eq, Hash, Structural)]
pub struct Grant {
    pub owner: Address,
    pub spender: Address,
}

} // verus!
