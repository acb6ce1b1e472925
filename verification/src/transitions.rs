//! The four guarded transitions of a campaign — `donate`, `close`, `open`
//! and `view` — each proved equal to a spec-level transition over the
//! mathematical model of the host record.

use vstd::prelude::*;
use crate::values::{AccountAddress, Address, Amount};
use crate::campaign::{DonationView, Error, StateOfDonation, strings_view};
use crate::host::{Host, HostView, ReceiveContext};

verus! {

/// The call parameter as the model sees it: the location's characters, or
/// nothing when deserialization failed.
pub open spec fn spec_param(p: Option<String>) -> Option<Seq<char>> {
    match p {
        Option::Some(s) => Option::Some(s@),
        Option::None => Option::None,
    }
}

/// What `donate` decides, in validation order: a donation strictly after
/// the deadline has ended; one into a closed campaign is refused; an
/// unreadable parameter is a parse failure; a location outside the
/// allow-list is invalid; anything else succeeds and changes nothing.
pub open spec fn spec_donate(h: HostView, now: u64, param: Option<Seq<char>>) -> Result<
    (),
    Error,
> {
    if h.deadline < now {
        Result::Err(Error::DonationHasEnded)
    } else if h.phase == StateOfDonation::Closed {
        Result::Err(Error::DonationClosed)
    } else {
        match param {
            Option::None => Result::Err(Error::ParseParamsError),
            Option::Some(loc) => if !h.locations.contains(loc) {
                Result::Err(Error::InvalidDonationLocation)
            } else {
                Result::Ok(())
            },
        }
    }
}

/// What `close` does to the model: a caller other than the owner is turned
/// away; so is a campaign that is not open; a sweep the host cannot deliver
/// fails the whole call and changes nothing; otherwise the phase becomes
/// closed and the entire balance goes to the owner in one transfer.
pub open spec fn spec_close(h: HostView, sender: Address, owner: AccountAddress) -> (
    HostView,
    Result<(), Error>,
) {
    if !sender.spec_matches_account(owner) {
        (h, Result::Err(Error::NotOwner))
    } else if h.phase != StateOfDonation::Open {
        (h, Result::Err(Error::WrongPhase))
    } else if h.missing.contains(owner.bytes()) {
        (h, Result::Err(Error::TransferFailed))
    } else {
        (
            HostView {
                phase: StateOfDonation::Closed,
                balance: 0,
                transfers: h.transfers.push((owner.bytes(), h.balance)),
                ..h
            },
            Result::Ok(()),
        )
    }
}

/// What `open` does to the model: a caller other than the owner is turned
/// away; so is a campaign that is not closed; otherwise the phase becomes
/// open again and nothing else moves.
pub open spec fn spec_open(h: HostView, sender: Address, owner: AccountAddress) -> (
    HostView,
    Result<(), Error>,
) {
    if !sender.spec_matches_account(owner) {
        (h, Result::Err(Error::NotOwner))
    } else if h.phase != StateOfDonation::Closed {
        (h, Result::Err(Error::WrongPhase))
    } else {
        (HostView { phase: StateOfDonation::Open, ..h }, Result::Ok(()))
    }
}

/// Is `loc` one of the allow-listed locations?
pub fn contains_location(locations: &Vec<String>, loc: &String) -> (r: bool)
    ensures
        r == strings_view(locations@).contains(loc@),
{
    let mut i: usize = 0;
    while i < locations.len()
        invariant
            i <= locations@.len(),
            forall|j: int| 0 <= j < i ==> locations@[j]@ != loc@,
        decreases locations@.len() - i,
    {
        if locations[i] == *loc {
            proof {
                assert(strings_view(locations@)[i as int] == loc@);
            }
            return true;
        }
        i = i + 1;
    }
    proof {
        assert forall|k: int| 0 <= k < strings_view(locations@).len() implies strings_view(
            locations@,
        )[k] != loc@ by {
            assert(strings_view(locations@)[k] == locations@[k]@);
        }
    }
    false
}

/// Accept a donation: validate the time, the phase, the parameter and the
/// location, in that order, and change nothing either way — the attached
/// value is already in the host's custody, and the attached amount plays
/// no part in the decision.
pub fn donate(ctx: &ReceiveContext, host: &mut Host, _amount: Amount) -> (r: Result<(), Error>)
    ensures
        *final(host) == *old(host),
        r == spec_donate(old(host)@, ctx.slot_time.millis, spec_param(ctx.parameter)),
{
    if host.state.end_time.millis < ctx.slot_time.millis {
        return Err(Error::DonationHasEnded);
    }
    if host.state.state_of_donation == StateOfDonation::Closed {
        return Err(Error::DonationClosed);
    }
    let donation_location: &String = match &ctx.parameter {
        Some(loc) => loc,
        None => {
            return Err(Error::ParseParamsError);
        },
    };
    if contains_location(&host.state.donation_locations, donation_location) {
        Ok(())
    } else {
        Err(Error::InvalidDonationLocation)
    }
}

/// Close the campaign and sweep its balance: only the owner may close,
/// only an open campaign closes, and the full held balance leaves for the
/// owner in one transfer.  If the host cannot deliver the sweep, the whole
/// call fails and the campaign is exactly as it was.
pub fn close(ctx: &ReceiveContext, host: &mut Host) -> (r: Result<(), Error>)
    ensures
        final(host)@ == spec_close(old(host)@, ctx.sender, ctx.owner).0,
        r == spec_close(old(host)@, ctx.sender, ctx.owner).1,
        r is Err ==> *final(host) == *old(host),
{
    let owner = ctx.owner;
    let sender = ctx.sender;
    if !sender.matches_account(&owner) {
        return Err(Error::NotOwner);
    }
    if host.state.state_of_donation != StateOfDonation::Open {
        return Err(Error::WrongPhase);
    }
    host.state.state_of_donation = StateOfDonation::Closed;
    let balance = host.self_balance();
    match host.invoke_transfer(&owner, balance) {
        Ok(()) => {
            proof {
                assert(host@ =~= spec_close(old(host)@, ctx.sender, ctx.owner).0);
            }
            Ok(())
        },
        Err(_) => {
            host.state.state_of_donation = StateOfDonation::Open;
            Err(Error::TransferFailed)
        },
    }
}

/// Reopen a closed campaign: only the owner may, and only when it is
/// closed.  Nothing but the phase moves; in particular the swept balance
/// is not restored.
pub fn open(ctx: &ReceiveContext, host: &mut Host) -> (r: Result<(), Error>)
    ensures
        final(host)@ == spec_open(old(host)@, ctx.sender, ctx.owner).0,
        r == spec_open(old(host)@, ctx.sender, ctx.owner).1,
        r is Err ==> *final(host) == *old(host),
{
    let owner = ctx.owner;
    let sender = ctx.sender;
    if !sender.matches_account(&owner) {
        return Err(Error::NotOwner);
    }
    if host.state.state_of_donation != StateOfDonation::Closed {
        return Err(Error::WrongPhase);
    }
    host.state.state_of_donation = StateOfDonation::Open;
    proof {
        assert(host@ =~= spec_open(old(host)@, ctx.sender, ctx.owner).0);
    }
    Ok(())
}

/// Report the campaign as anyone may see it: the donor counter, the phase,
/// the deadline, and the balance the instance holds right now.
pub fn view(_ctx: &ReceiveContext, host: &Host) -> (v: DonationView)
    ensures
        v.number_donors == host.state.number_of_donors,
        v.state_donation == host.state.state_of_donation,
        v.time == host.state.end_time,
        v.balance == host.self_balance,
{
    let state = host.state();
    let number_donors: u32 = state.number_of_donors;
    let state_donation: StateOfDonation = state.state_of_donation;
    let time = state.end_time;
    let balance = host.self_balance();
    DonationView { number_donors, state_donation, time, balance }
}

} // verus!
