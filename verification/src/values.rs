//! The plain values the host hands to a campaign: points in time, amounts of
//! native currency, and the addresses of accounts and contract instances.

use vstd::prelude::*;

verus! {

/// A point in time, in milliseconds since the epoch.
#[derive(Clone, Copy, PartialEq, Eq, Structural, Debug)]
pub struct Timestamp {
    pub millis: u64,
}

impl Timestamp {
    /// The point in time `millis` milliseconds after the epoch.
    pub fn from_timestamp_millis(millis: u64) -> (t: Timestamp)
        ensures
            t.millis == millis,
    {
        Timestamp { millis }
    }
}

/// An amount of native currency, counted in micro units.
#[derive(Clone, Copy, PartialEq, Eq, Structural, Debug)]
pub struct Amount {
    pub micro_ccd: u64,
}

impl Amount {
    /// The amount of `micro_ccd` micro units.
    pub fn from_micro_ccd(micro_ccd: u64) -> (a: Amount)
        ensures
            a.micro_ccd == micro_ccd,
    {
        Amount { micro_ccd }
    }

    /// The zero amount.
    pub fn zero() -> (a: Amount)
        ensures
            a.micro_ccd == 0,
    {
        Amount { micro_ccd: 0 }
    }
}

/// A 32-byte account identifier.
#[derive(Clone, Copy, PartialEq, Eq, Debug)]
pub struct AccountAddress(pub [u8; 32]);

impl AccountAddress {
    /// The bytes of the address; two addresses denote the same account
    /// exactly when their bytes agree.
    pub open spec fn bytes(self) -> Seq<u8> {
        self.0@
    }
}

/// The address of a deployed contract instance.
#[derive(Clone, Copy, PartialEq, Eq, Debug)]
pub struct ContractAddress {
    pub index: u64,
    pub subindex: u64,
}

/// The sender of a call: either an account or a contract instance.
#[derive(Clone, Copy, PartialEq, Eq, Debug)]
pub enum Address {
    Account(AccountAddress),
    Contract(ContractAddress),
}

/// Byte-for-byte equality of two account addresses.
pub fn account_eq(a: &AccountAddress, b: &AccountAddress) -> (r: bool)
    ensures
        r == (a.bytes() == b.bytes()),
{
    let mut i: usize = 0;
    while i < 32
        invariant
            i <= 32,
            forall|j: int| 0 <= j < i ==> a.0@[j] == b.0@[j],
        decreases 32 - i,
    {
        if a.0[i] != b.0[i] {
            return false;
        }
        i = i + 1;
    }
    proof {
        assert(a.0@ =~= b.0@);
    }
    true
}

impl Address {
    /// Does this sender denote exactly the account `owner`?
    pub open spec fn spec_matches_account(self, owner: AccountAddress) -> bool {
        match self {
            Address::Account(a) => a.bytes() == owner.bytes(),
            Address::Contract(_) => false,
        }
    }

    /// A sender matches an account exactly when it is that account;
    /// a contract sender never does.
    pub fn matches_account(&self, owner: &AccountAddress) -> (r: bool)
        ensures
            r == self.spec_matches_account(*owner),
    {
        match self {
            Address::Account(a) => account_eq(a, owner),
            Address::Contract(_) => false,
        }
    }
}

} // verus!
