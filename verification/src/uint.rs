//! 256-bit unsigned integers, as the chain reports quantities.

use vstd::prelude::*;

verus! {

/// Two to the power 64: the weight of the second word.
pub open spec fn two_64() -> nat {
    0x1_0000_0000_0000_0000nat
}

/// Two to the power 128: the weight of the third word.
pub open spec fn two_128() -> nat {
    0x1_0000_0000_0000_0000_0000_0000_0000_0000nat
}

/// Two to the power 192: the weight of the fourth word.
pub open spec fn two_192() -> nat {
    0x1_0000_0000_0000_0000_0000_0000_0000_0000_0000_0000_0000_0000nat
}

/// Two to the power 256: one more than the largest `U256`.
pub open spec fn two_256() -> nat {
    0x1_0000_0000_0000_0000_0000_0000_0000_0000_0000_0000_0000_0000_0000_0000_0000_0000nat
}

/// A 256-bit unsigned integer: four 64-bit words, least significant first.
///
/// This is the layout of `ethers::types::U256`, so a value crosses over by
/// moving its words.
#[derive(Clone, Copy, Debug, PartialEq, Eq)]
pub struct U256 {
    pub limbs: [u64; 4],
}

impl View for U256 {
    type V = nat;

    /// The number that the four words stand for.
    open spec fn view(&self) -> nat {
        (self.limbs[0] as nat) + (self.limbs[1] as nat) * two_64() + (self.limbs[2] as nat)
            * two_128() + (self.limbs[3] as nat) * two_192()
    }
}

impl U256 {
    /// The number zero, as a value.
    pub open spec fn spec_zero() -> U256 {
        U256 { limbs: [0, 0, 0, 0] }
    }

    /// The number zero.
    pub fn zero() -> (z: U256)
        ensures
            z == U256::spec_zero(),
            z@ == 0,
    {
        U256 { limbs: [0, 0, 0, 0] }
    }

    /// The 256-bit integer with the value of `v`.
    pub fn from_u64(v: u64) -> (x: U256)
        ensures
            x@ == v,
    {
        U256 { limbs: [v, 0, 0, 0] }
    }
}

/// Every `U256` stands for a number below two to the power 256.
pub proof fn lemma_value_in_range(x: U256)
    ensures
        x@ < two_256(),
{
}

/// The value says everything about a `U256`: two with the same value have
/// the same four words.
pub proof fn lemma_same_value_same_words(a: U256, b: U256)
    requires
        a@ == b@,
    ensures
        a.limbs@ =~= b.limbs@,
{
}

/// Multiplies through `ethers::types::U256`'s `Mul`, which computes the full
/// product of the two integers and panics when it does not fit in 256 bits;
/// the precondition keeps to the products that fit.
#[verifier::external_body]
pub(crate) fn product(a: U256, b: U256) -> (product: U256)
    requires
        a@ * b@ < two_256(),
    ensures
        product@ == a@ * b@,
{
    let product = ethers::types::U256(a.limbs) * ethers::types::U256(b.limbs);
    U256 { limbs: product.0 }
}

/// Narrows a 256-bit integer to 64 bits: the same number where it fits,
/// nothing where it does not.
pub fn downcast_to_u64(input: U256) -> (narrow: Option<u64>)
    ensures
        input@ <= u64::MAX ==> narrow == Some(input@ as u64),
        input@ > u64::MAX ==> narrow is None,
{
    if input.limbs[1] == 0 && input.limbs[2] == 0 && input.limbs[3] == 0 {
        Some(input.limbs[0])
    } else {
        None
    }
}

} // verus!
