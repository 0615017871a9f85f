//! The seed of the hashers behind the hash collections: two 64-bit keys
//! cut from one 128-bit random value.
use vstd::prelude::*;

verus! {

/// Two hash keys drawn at random when a collection is made.
#[derive(Clone, Copy, Debug, PartialEq, Eq, Structural)]
pub struct RandomState {
    k0: u64,
    k1: u64,
}

impl View for RandomState {
    type V = (u64, u64);

    closed spec fn view(&self) -> (u64, u64) {
        (self.k0, self.k1)
    }
}

impl RandomState {
    /// Keys from a 128-bit random value: its low half, then its high half.
    pub fn new(random_value: u128) -> (r: Self)
        ensures
            r@.0 as int == random_value as int % 0x1_0000_0000_0000_0000,
            r@.1 as int == random_value as int / 0x1_0000_0000_0000_0000,
    {
        let k0 = random_value as u64;
        let k1 = (random_value >> 64u128) as u64;
        assert(k0 as u128 == random_value % 0x1_0000_0000_0000_0000u128 && k1 as u128
            == random_value / 0x1_0000_0000_0000_0000u128) by (bit_vector)
            requires
                k0 == random_value as u64,
                k1 == (random_value >> 64u128) as u64,
        ;
        RandomState { k0, k1 }
    }

    /// The first key.
    pub fn k0(&self) -> (r: u64)
        ensures
            r == self@.0,
    {
        self.k0
    }

    /// The second key.
    pub fn k1(&self) -> (r: u64)
        ensures
            r == self@.1,
    {
        self.k1
    }
}

} // verus!
