use vstd::prelude::*;

use crate::peano::Nat;

verus! {

/// A natural number stored as a `u32`.
#[derive(Debug, PartialEq, Eq, Clone, Structural)]
pub struct U32Nat(u32);

impl Nat for U32Nat {
    closed spec fn magnitude(&self) -> u32 {
        self.0
    }

    closed spec fn from_magnitude(n: u32) -> Self {
        U32Nat(n)
    }

    proof fn lemma_magnitude_of(n: u32) {
    }

    proof fn lemma_from_magnitude_of(x: Self) {
    }

    fn value(&self) -> (r: u32) {
        self.0
    }

    fn wrap(n: u32) -> (r: Self) {
        U32Nat(n)
    }

    fn zero() -> (r: Self) {
        U32Nat(0)
    }

    fn is_zero(&self) -> (r: bool) {
        self.0 == 0
    }

    fn succ(&self) -> (r: Self) {
        U32Nat(self.0 + 1)
    }
}

} // verus!
