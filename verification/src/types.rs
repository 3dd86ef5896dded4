//! Fixed-width word types standing in for the backend's hashes, addresses
//! and 256-bit quantities, held as plain integer words so that contracts
//! can speak of them directly.

use vstd::prelude::*;

verus! {

/// A 256-bit hash, as four 64-bit words (most significant first).
#[derive(Clone, Copy, Debug, PartialEq, Eq, Structural)]
pub struct H256 {
    pub w0: u64,
    pub w1: u64,
    pub w2: u64,
    pub w3: u64,
}

impl H256 {
    pub fn zero() -> (r: H256)
        ensures
            r == (H256 { w0: 0, w1: 0, w2: 0, w3: 0 }),
    {
        H256 { w0: 0, w1: 0, w2: 0, w3: 0 }
    }

    pub open spec fn spec_zero() -> H256 {
        H256 { w0: 0, w1: 0, w2: 0, w3: 0 }
    }
}

/// A 160-bit account address, as two 64-bit words and one 32-bit word
/// (most significant first).
#[derive(Clone, Copy, Debug, PartialEq, Eq, Structural)]
pub struct H160 {
    pub hi: u64,
    pub mid: u64,
    pub lo: u32,
}

impl H160 {
    pub fn zero() -> (r: H160)
        ensures
            r == (H160 { hi: 0, mid: 0, lo: 0 }),
    {
        H160 { hi: 0, mid: 0, lo: 0 }
    }

    pub open spec fn spec_zero() -> H160 {
        H160 { hi: 0, mid: 0, lo: 0 }
    }
}

/// An unsigned 256-bit quantity, as four 64-bit words (most significant
/// first).
#[derive(Clone, Copy, Debug, PartialEq, Eq, Structural)]
pub struct U256 {
    pub w0: u64,
    pub w1: u64,
    pub w2: u64,
    pub w3: u64,
}

impl U256 {
    pub fn zero() -> (r: U256)
        ensures
            r == (U256 { w0: 0, w1: 0, w2: 0, w3: 0 }),
    {
        U256 { w0: 0, w1: 0, w2: 0, w3: 0 }
    }

    pub open spec fn spec_zero() -> U256 {
        U256 { w0: 0, w1: 0, w2: 0, w3: 0 }
    }

    pub fn from_u64(n: u64) -> (r: U256)
        ensures
            r == U256::spec_from_u64(n),
    {
        U256 { w0: 0, w1: 0, w2: 0, w3: n }
    }

    pub open spec fn spec_from_u64(n: u64) -> U256 {
        U256 { w0: 0, w1: 0, w2: 0, w3: n }
    }
}

} // verus!
