//! A donation-campaign ledger.
//!
//! A campaign holds a fixed allow-list of donation locations and a deadline,
//! accepts donations while it is open, and lets its owner close it (sweeping
//! the collected balance to the owner) or reopen it.  The host environment
//! that carries the calls is modelled by explicit data: a [`host::Host`]
//! record for the instance's state, balance and outgoing transfers, and a
//! [`host::ReceiveContext`] for what arrives with each call.

pub mod values;
pub mod campaign;
pub mod host;
pub mod transitions;
pub mod laws;
