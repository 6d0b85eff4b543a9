//! Addresses and amounts as plain values.

use vstd::prelude::*;
use vstd::std_specs::cmp::PartialEqSpecImpl;

verus! {

/// A 20-byte account address.
#[derive(Clone, Copy, Debug, Eq)]
pub struct Address {
    pub bytes: [u8; 20],
}

impl PartialEq for Address {
    fn eq(&self, other: &Address) -> (equal: bool) {
        let mut i: usize = 0;
        while i < 20
            invariant
                i <= 20,
                forall|j: int| 0 <= j < i ==> self.bytes[j] == other.bytes[j],
            decreases 20 - i,
        {
            if self.bytes[i] != other.bytes[i] {
                return false;
            }
            i += 1;
        }
        assert(self.bytes@ =~= other.bytes@);
        assert(self.bytes == other.bytes);
        true
    }
}

impl PartialEqSpecImpl for Address {
    open spec fn obeys_eq_spec() -> bool {
        true
    }

    open spec fn eq_spec(&self, other: &Address) -> bool {
        *self == *other
    }
}

impl View for Address {
    type V = Address;

    open spec fn view(&self) -> Address {
        *self
    }
}

impl Address {
    /// The all-zero address.
    pub open spec fn spec_zero() -> Address {
        Address {
            bytes: [
                0, 0, 0, 0, 0, 0, 0, 0, 0, 0, 0, 0, 0, 0, 0, 0, 0, 0, 0, 0,
            ],
        }
    }

    /// The all-zero address.
    #[verifier::when_used_as_spec(spec_zero)]
    pub fn zero() -> (z: Address)
        ensures
            z == Address::spec_zero(),
    {
        Address {
            bytes: [
                0, 0, 0, 0, 0, 0, 0, 0, 0, 0, 0, 0, 0, 0, 0, 0, 0, 0, 0, 0,
            ],
        }
    }
}

/// The address at which the contract lies that the account with the bytes
/// `deployer` creates when its nonce is `nonce`: the last twenty bytes of the
/// Keccak-256 hash of the RLP encoding of the two.
pub uninterp spec fn create_address(deployer: Seq<u8>, nonce: u64) -> Seq<u8>;

/// `alloy_primitives::Address::create`: the address that it computes is a
/// function of the deployer's bytes and of the nonce, here under the name
/// [`create_address`]. It does not fail on any input.
#[verifier::external_body]
fn created_by(deployer: &Address, nonce: u64) -> (created: Address)
    ensures
        created.bytes@ == create_address(deployer.bytes@, nonce),
{
    let created = alloy_primitives::Address::new(deployer.bytes).create(nonce);
    Address { bytes: created.into_array() }
}

impl Address {
    /// The address of the contract that this account creates when its nonce
    /// is `nonce`.
    pub open spec fn spec_create(&self, nonce: u64) -> Address {
        choose|created: Address| created.bytes@ == create_address(self.bytes@, nonce)
    }

    /// The address of the contract that this account creates when its nonce
    /// is `nonce`.
    #[verifier::when_used_as_spec(spec_create)]
    pub fn create(&self, nonce: u64) -> (created: Address)
        ensures
            created == self.spec_create(nonce),
            created.bytes@ == create_address(self.bytes@, nonce),
    {
        let created = created_by(self, nonce);
        proof {
            let chosen = self.spec_create(nonce);
            assert(chosen.bytes@ =~= created.bytes@);
            assert(chosen.bytes == created.bytes);
        }
        created
    }
}

/// A 256-bit unsigned amount, least significant limb first.
#[derive(Clone, Copy, Debug, PartialEq, Eq)]
pub struct U256 {
    pub limbs: [u64; 4],
}

impl U256 {
    /// The number that the limbs stand for.
    pub open spec fn value(self) -> nat {
        (self.limbs[0] as nat) + (self.limbs[1] as nat) * 0x1_0000_0000_0000_0000
            + (self.limbs[2] as nat) * 0x1_0000_0000_0000_0000_0000_0000_0000_0000
            + (self.limbs[3] as nat)
            * 0x1_0000_0000_0000_0000_0000_0000_0000_0000_0000_0000_0000_0000
    }

    /// The amount of nothing.
    pub open spec fn spec_zero() -> U256 {
        U256 { limbs: [0, 0, 0, 0] }
    }

    /// The largest amount: two to the power of 256, less one.
    pub open spec fn spec_max() -> U256 {
        U256 { limbs: [u64::MAX, u64::MAX, u64::MAX, u64::MAX] }
    }

    /// The amount of nothing.
    #[verifier::when_used_as_spec(spec_zero)]
    pub fn zero() -> (z: U256)
        ensures
            z == U256::spec_zero(),
            z.value() == 0,
    {
        U256 { limbs: [0, 0, 0, 0] }
    }

    /// The largest amount.
    #[verifier::when_used_as_spec(spec_max)]
    pub fn max() -> (m: U256)
        ensures
            m == U256::spec_max(),
            m.value() + 1
                == 0x1_0000_0000_0000_0000_0000_0000_0000_0000_0000_0000_0000_0000_0000_0000_0000_0000,
    {
        U256 { limbs: [u64::MAX, u64::MAX, u64::MAX, u64::MAX] }
    }
}

} // verus!
