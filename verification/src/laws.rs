//! The laws of the campaign, proved once and for all over the spec-level
//! transitions that the operations in [`crate::transitions`] are pinned to.

use vstd::prelude::*;
use crate::values::{AccountAddress, Address};
use crate::campaign::{Error, StateOfDonation};
use crate::host::HostView;
use crate::transitions::{spec_close, spec_donate, spec_open};

verus! {

/// Donating from an allow-listed location, at or before the deadline,
/// while the campaign is open, succeeds — whatever value is attached.
/// (`donate`'s own contract adds that the host record never changes.)
pub proof fn law_donate_succeeds(h: HostView, now: u64, loc: Seq<char>)
    requires
        now <= h.deadline,
        h.phase == StateOfDonation::Open,
        h.locations.contains(loc),
    ensures
        spec_donate(h, now, Some(loc)) == Result::<(), Error>::Ok(()),
{
}

/// Donating from a location outside the allow-list fails as an invalid
/// location, whatever value is attached — provided the donation is in
/// time and the campaign is open, since those two checks come first.
pub proof fn law_donate_rejects_unknown_location(h: HostView, now: u64, loc: Seq<char>)
    requires
        now <= h.deadline,
        h.phase == StateOfDonation::Open,
        !h.locations.contains(loc),
    ensures
        spec_donate(h, now, Some(loc)) == Result::<(), Error>::Err(
            Error::InvalidDonationLocation,
        ),
{
}

/// Donating strictly after the deadline has ended, whatever the phase,
/// the parameter and the location — the deadline is checked first.
pub proof fn law_donate_rejects_after_deadline(h: HostView, now: u64, param: Option<Seq<char>>)
    requires
        now > h.deadline,
    ensures
        spec_donate(h, now, param) == Result::<(), Error>::Err(Error::DonationHasEnded),
{
}

/// A caller other than the owner can neither close nor open the campaign:
/// both calls fail as not-owner and the host record is exactly as it was.
pub proof fn law_only_owner_closes_and_opens(h: HostView, sender: Address, owner: AccountAddress)
    requires
        !sender.spec_matches_account(owner),
    ensures
        spec_close(h, sender, owner) == (h, Result::<(), Error>::Err(Error::NotOwner)),
        spec_open(h, sender, owner) == (h, Result::<(), Error>::Err(Error::NotOwner)),
{
}

/// Closing an open campaign as the owner, when the host can deliver the
/// sweep, closes the phase, empties the held balance, and sends exactly
/// one new transfer: the full pre-call balance, to the owner.
pub proof fn law_close_sweeps_balance(h: HostView, sender: Address, owner: AccountAddress)
    requires
        sender.spec_matches_account(owner),
        h.phase == StateOfDonation::Open,
        !h.missing.contains(owner.bytes()),
    ensures
        spec_close(h, sender, owner).1 == Result::<(), Error>::Ok(()),
        spec_close(h, sender, owner).0.phase == StateOfDonation::Closed,
        spec_close(h, sender, owner).0.balance == 0,
        spec_close(h, sender, owner).0.transfers == h.transfers.push((owner.bytes(), h.balance)),
        spec_close(h, sender, owner).0.donors == h.donors,
        spec_close(h, sender, owner).0.locations == h.locations,
        spec_close(h, sender, owner).0.deadline == h.deadline,
{
}

/// When the host cannot deliver the sweep, closing fails as a whole: the
/// phase stays open, the balance stays put, and no transfer is recorded.
pub proof fn law_close_is_atomic(h: HostView, sender: Address, owner: AccountAddress)
    requires
        sender.spec_matches_account(owner),
        h.phase == StateOfDonation::Open,
        h.missing.contains(owner.bytes()),
    ensures
        spec_close(h, sender, owner) == (h, Result::<(), Error>::Err(Error::TransferFailed)),
{
}

/// Closing an already-closed campaign fails as a phase mismatch, and the
/// host record — balance and phase included — is exactly as it was.
pub proof fn law_close_rejects_closed(h: HostView, sender: Address, owner: AccountAddress)
    requires
        sender.spec_matches_account(owner),
        h.phase == StateOfDonation::Closed,
    ensures
        spec_close(h, sender, owner) == (h, Result::<(), Error>::Err(Error::WrongPhase)),
{
}

/// Opening a closed campaign as the owner opens the phase and moves
/// nothing else; opening an already-open campaign fails as a phase
/// mismatch and changes nothing.
pub proof fn law_open_toggles_phase(h: HostView, sender: Address, owner: AccountAddress)
    requires
        sender.spec_matches_account(owner),
    ensures
        h.phase == StateOfDonation::Closed ==> spec_open(h, sender, owner) == (
            HostView { phase: StateOfDonation::Open, ..h },
            Result::<(), Error>::Ok(()),
        ),
        h.phase == StateOfDonation::Open ==> spec_open(h, sender, owner) == (
            h,
            Result::<(), Error>::Err(Error::WrongPhase),
        ),
{
}

/// Round trip: closing and then reopening as the owner succeeds twice and
/// leaves the campaign open again — but the balance stays swept: it is
/// zero, and the sweep transfer remains on the record.
pub proof fn law_close_then_open_round_trip(h: HostView, sender: Address, owner: AccountAddress)
    requires
        sender.spec_matches_account(owner),
        h.phase == StateOfDonation::Open,
        !h.missing.contains(owner.bytes()),
    ensures
        spec_close(h, sender, owner).1 == Result::<(), Error>::Ok(()),
        spec_open(spec_close(h, sender, owner).0, sender, owner).1 == Result::<(), Error>::Ok(()),
        spec_open(spec_close(h, sender, owner).0, sender, owner).0.phase == StateOfDonation::Open,
        spec_open(spec_close(h, sender, owner).0, sender, owner).0.balance == 0,
        spec_open(spec_close(h, sender, owner).0, sender, owner).0.transfers == h.transfers.push(
            (owner.bytes(), h.balance),
        ),
        spec_open(spec_close(h, sender, owner).0, sender, owner).0.donors == h.donors,
        spec_open(spec_close(h, sender, owner).0, sender, owner).0.locations == h.locations,
        spec_open(spec_close(h, sender, owner).0, sender, owner).0.deadline == h.deadline,
{
}

} // verus!
