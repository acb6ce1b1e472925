//! An explicit model of the host-side footing of one contract instance: the
//! campaign state it stores, the balance it holds in custody, the transfers
//! it has sent, and the accounts it cannot transfer to.  The host commits an
//! invocation all or nothing; the operations in [`crate::transitions`] are
//! specified and proved against this record.

use vstd::prelude::*;
use crate::values::{AccountAddress, Address, Amount, Timestamp, account_eq};
use crate::campaign::{State, StateOfDonation};

verus! {

/// What the host supplies with one call: the instance owner, the
/// transaction sender, the current block time, and the call parameter as
/// the host deserialized it (`None` when deserialization failed).
pub struct ReceiveContext {
    pub owner: AccountAddress,
    pub sender: Address,
    pub slot_time: Timestamp,
    pub parameter: Option<String>,
}

/// Why the host rejected a transfer.
#[derive(Clone, Copy, PartialEq, Eq, Structural, Debug)]
pub enum TransferError {
    /// The amount exceeds the balance the instance holds.
    AmountTooLarge,
    /// The receiving account does not exist.
    MissingAccount,
}

/// The host-side footing of one contract instance.
pub struct Host {
    pub state: State,
    pub self_balance: Amount,
    pub transfers: Vec<(AccountAddress, Amount)>,
    pub missing_accounts: Vec<AccountAddress>,
}

/// The mathematical model of a [`Host`]: the campaign fields as plain
/// values, the held balance, the transfers sent so far (receiver bytes and
/// micro units, in order), and the accounts that cannot receive.
#[verifier::ext_equal]
pub struct HostView {
    pub donors: u32,
    pub phase: StateOfDonation,
    pub locations: Seq<Seq<char>>,
    pub deadline: u64,
    pub balance: u64,
    pub transfers: Seq<(Seq<u8>, u64)>,
    pub missing: Seq<Seq<u8>>,
}

impl View for Host {
    type V = HostView;

    open spec fn view(&self) -> HostView {
        HostView {
            donors: self.state.number_of_donors,
            phase: self.state.state_of_donation,
            locations: self.state.locations_view(),
            deadline: self.state.end_time.millis,
            balance: self.self_balance.micro_ccd,
            transfers: self.transfers@.map_values(
                |t: (AccountAddress, Amount)| (t.0.bytes(), t.1.micro_ccd),
            ),
            missing: self.missing_accounts@.map_values(|a: AccountAddress| a.bytes()),
        }
    }
}

impl Host {
    /// Can the host not deliver a transfer to `a`?
    pub open spec fn spec_account_missing(self, a: AccountAddress) -> bool {
        self@.missing.contains(a.bytes())
    }

    /// A fresh instance holding `state`: no balance, no transfers sent,
    /// every account able to receive.
    pub fn new(state: State) -> (h: Host)
        ensures
            h.state == state,
            h.self_balance.micro_ccd == 0,
            h.transfers@ =~= Seq::<(AccountAddress, Amount)>::empty(),
            h.missing_accounts@ =~= Seq::<AccountAddress>::empty(),
    {
        Host {
            state,
            self_balance: Amount { micro_ccd: 0 },
            transfers: Vec::new(),
            missing_accounts: Vec::new(),
        }
    }

    /// Set the balance the instance holds in custody.
    pub fn set_self_balance(&mut self, balance: Amount)
        ensures
            final(self).state == old(self).state,
            final(self).self_balance == balance,
            final(self).transfers == old(self).transfers,
            final(self).missing_accounts == old(self).missing_accounts,
    {
        self.self_balance = balance;
    }

    /// The stored campaign state.
    pub fn state(&self) -> (s: &State)
        ensures
            *s == self.state,
    {
        &self.state
    }

    /// The balance the instance holds.
    pub fn self_balance(&self) -> (b: Amount)
        ensures
            b == self.self_balance,
    {
        self.self_balance
    }

    /// The transfers sent so far, oldest first.
    pub fn get_transfers(&self) -> (t: Vec<(AccountAddress, Amount)>)
        ensures
            t@ == self.transfers@,
    {
        let mut t: Vec<(AccountAddress, Amount)> = Vec::new();
        let mut i: usize = 0;
        while i < self.transfers.len()
            invariant
                i <= self.transfers@.len(),
                t@ == self.transfers@.subrange(0, i as int),
            decreases self.transfers@.len() - i,
        {
            t.push(self.transfers[i]);
            proof {
                assert(t@ =~= self.transfers@.subrange(0, i + 1 as int));
            }
            i = i + 1;
        }
        proof {
            assert(t@ =~= self.transfers@);
        }
        t
    }

    /// Mark `addr` as unable to receive transfers.
    pub fn make_account_missing(&mut self, addr: AccountAddress)
        ensures
            final(self).state == old(self).state,
            final(self).self_balance == old(self).self_balance,
            final(self).transfers == old(self).transfers,
            final(self).missing_accounts@ == old(self).missing_accounts@.push(addr),
    {
        self.missing_accounts.push(addr);
    }

    /// Can the host not deliver a transfer to `a`?
    pub fn account_missing(&self, a: &AccountAddress) -> (r: bool)
        ensures
            r == self.spec_account_missing(*a),
    {
        let mut i: usize = 0;
        while i < self.missing_accounts.len()
            invariant
                i <= self.missing_accounts@.len(),
                forall|j: int| 0 <= j < i ==> self.missing_accounts@[j].bytes() != a.bytes(),
            decreases self.missing_accounts@.len() - i,
        {
            if account_eq(&self.missing_accounts[i], a) {
                proof {
                    assert(self@.missing[i as int] == a.bytes());
                }
                return true;
            }
            i = i + 1;
        }
        proof {
            assert forall|k: int| 0 <= k < self@.missing.len() implies self@.missing[k]
                != a.bytes() by {
                assert(self@.missing[k] == self.missing_accounts@[k].bytes());
            }
        }
        false
    }

    /// Send `amount` to the account `to`, if the host can: the receiver
    /// must exist and the amount must not exceed the held balance.  On
    /// success the balance drops by the amount and the transfer is
    /// recorded; on failure nothing changes.
    pub fn invoke_transfer(&mut self, to: &AccountAddress, amount: Amount) -> (r: Result<
        (),
        TransferError,
    >)
        ensures
            r is Ok <==> (!old(self).spec_account_missing(*to)
                && amount.micro_ccd <= old(self).self_balance.micro_ccd),
            match r {
                Ok(()) => {
                    &&& final(self).state == old(self).state
                    &&& final(self).self_balance.micro_ccd
                        == old(self).self_balance.micro_ccd - amount.micro_ccd
                    &&& final(self).transfers@ == old(self).transfers@.push((*to, amount))
                    &&& final(self).missing_accounts == old(self).missing_accounts
                },
                Err(e) => {
                    &&& *final(self) == *old(self)
                    &&& (e == TransferError::MissingAccount
                        <==> old(self).spec_account_missing(*to))
                },
            },
    {
        if self.account_missing(to) {
            return Err(TransferError::MissingAccount);
        }
        if amount.micro_ccd > self.self_balance.micro_ccd {
            return Err(TransferError::AmountTooLarge);
        }
        self.self_balance = Amount { micro_ccd: self.self_balance.micro_ccd - amount.micro_ccd };
        self.transfers.push((*to, amount));
        Ok(())
    }
}

} // verus!
