//! The durable record of a donation campaign, its creation, and the typed
//! errors its operations report.

use vstd::prelude::*;
use crate::values::{Amount, Timestamp};

verus! {

/// The lifecycle phase of a campaign: accepting donations, or closed.
#[derive(Clone, Copy, PartialEq, Eq, Structural, Debug)]
pub enum StateOfDonation {
    Open,
    Closed,
}

/// The allow-list as a sequence of character sequences.
pub open spec fn strings_view(locations: Seq<String>) -> Seq<Seq<char>> {
    locations.map_values(|s: String| s@)
}

/// The durable record of one donation campaign.
///
/// `number_of_donors` is carried and reported but deliberately never
/// incremented: a donation is recorded implicitly, by the value the host
/// credits to the instance on a successful `donate` call.
#[derive(Clone, Debug)]
pub struct State {
    pub number_of_donors: u32,
    pub state_of_donation: StateOfDonation,
    pub donation_locations: Vec<String>,
    pub end_time: Timestamp,
}

impl State {
    /// The allow-list of this campaign, as character sequences.
    pub open spec fn locations_view(self) -> Seq<Seq<char>> {
        strings_view(self.donation_locations@)
    }
}

/// What instantiation receives: the allow-list and the deadline.
pub struct InitParameter {
    pub donation_locations: Vec<String>,
    pub end_time: Timestamp,
}

/// Every way a call to the campaign can fail.
#[derive(Clone, Copy, PartialEq, Eq, Structural, Debug)]
pub enum Error {
    /// The call parameter could not be deserialized.
    ParseParamsError,
    /// The donation arrived strictly after the deadline.
    DonationHasEnded,
    /// The campaign is closed to donations.
    DonationClosed,
    /// The donation names a location outside the allow-list.
    InvalidDonationLocation,
    /// The caller of `close` or `open` is not the owner.
    NotOwner,
    /// `close` was called on a closed campaign, or `open` on an open one.
    WrongPhase,
    /// The sweep transfer to the owner was rejected by the host.
    TransferFailed,
}

/// A read-only projection of a campaign and the balance it holds.
#[derive(Clone, Copy, PartialEq, Eq, Structural, Debug)]
pub struct DonationView {
    pub number_donors: u32,
    pub state_donation: StateOfDonation,
    pub time: Timestamp,
    pub balance: Amount,
}

/// Create the initial campaign state: no donors yet, open, with the
/// allow-list and deadline fixed once and for all.
pub fn init(param: InitParameter) -> (s: State)
    ensures
        s.number_of_donors == 0,
        s.state_of_donation == StateOfDonation::Open,
        s.donation_locations == param.donation_locations,
        s.end_time == param.end_time,
{
    State {
        number_of_donors: 0,
        state_of_donation: StateOfDonation::Open,
        donation_locations: param.donation_locations,
        end_time: param.end_time,
    }
}

} // verus!
