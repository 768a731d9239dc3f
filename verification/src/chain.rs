//! Plain-value models of the chain identifiers the marketplace handles.

use vstd::prelude::*;

verus! {

/// Identifier of a token within its issuing contract.
pub type ContractTokenId = u32;

/// Quantity of a token, as reported by or sent to a token contract.
pub type ContractTokenAmount = u8;

/// Address of an account: 32 raw bytes.
#[derive(Clone, Copy, Debug, PartialEq, Eq)]
pub struct AccountAddress(pub [u8; 32]);

impl AccountAddress {
    /// The all-zero address, used where no account has been recorded yet.
    pub open spec fn spec_zero() -> AccountAddress {
        AccountAddress(vstd::array::spec_array_fill_for_copy_type::<u8, 32>(0u8))
    }

    /// The all-zero address, used where no account has been recorded yet.
    #[verifier::when_used_as_spec(spec_zero)]
    pub fn zero() -> (a: AccountAddress)
        ensures
            a == Self::spec_zero(),
    {
        AccountAddress([0u8; 32])
    }
}

/// Every byte of the all-zero address is zero.
pub proof fn lemma_zero_account_bytes()
    ensures
        forall|i: int| 0 <= i < 32 ==> #[trigger] AccountAddress::zero().0[i] == 0u8,
{
    broadcast use vstd::array::axiom_spec_array_fill_for_copy_type;

    assert(AccountAddress::zero().0 == vstd::array::spec_array_fill_for_copy_type::<u8, 32>(0u8));
}

/// Address of a contract instance.
#[derive(Clone, Copy, Debug, PartialEq, Eq, Structural)]
pub struct ContractAddress {
    pub index: u64,
    pub subindex: u64,
}

/// Either kind of address.
#[derive(Clone, Copy, Debug, PartialEq, Eq)]
pub enum Address {
    Account(AccountAddress),
    Contract(ContractAddress),
}

/// An amount of CCD, counted in micro CCD.
#[derive(Clone, Copy, Debug, PartialEq, Eq, Structural)]
pub struct Amount {
    pub micro_ccd: u64,
}

impl Amount {
    /// No CCD at all.
    pub open spec fn spec_zero() -> Amount {
        Amount { micro_ccd: 0 }
    }

    /// No CCD at all.
    #[verifier::when_used_as_spec(spec_zero)]
    pub fn zero() -> (a: Amount)
        ensures
            a == Self::spec_zero(),
    {
        Amount { micro_ccd: 0 }
    }
}

} // verus!
