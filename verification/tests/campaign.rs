use donation::campaign::{init, Error, InitParameter, State, StateOfDonation};
use donation::host::{Host, ReceiveContext};
use donation::transitions::{close, donate, open, view};
use donation::values::{AccountAddress, Address, Amount, ContractAddress, Timestamp};

const ACC: AccountAddress = AccountAddress([0u8; 32]);

fn locations() -> Vec<String> {
    vec![
        "GE".to_string(),
        "CM".to_string(),
        "IT".to_string(),
        "FR".to_string(),
    ]
}

fn open_state() -> State {
    State {
        number_of_donors: 0,
        state_of_donation: StateOfDonation::Open,
        donation_locations: locations(),
        end_time: Timestamp::from_timestamp_millis(10000),
    }
}

fn donate_ctx(location: Option<&str>, millis: u64) -> ReceiveContext {
    ReceiveContext {
        owner: ACC,
        sender: Address::Account(ACC),
        slot_time: Timestamp::from_timestamp_millis(millis),
        parameter: location.map(|l| l.to_string()),
    }
}

fn owner_ctx(owner: AccountAddress) -> ReceiveContext {
    ReceiveContext {
        owner,
        sender: Address::Account(owner),
        slot_time: Timestamp::from_timestamp_millis(0),
        parameter: None,
    }
}

#[test]
fn test_donate() {
    let ctx = donate_ctx(Some("CM"), 0);
    let amount = Amount::from_micro_ccd(100);
    let mut host = Host::new(open_state());

    let result = donate(&ctx, &mut host, amount);

    assert!(result.is_ok(), "Inserting CCD results in error");
    assert_eq!(
        host.state().state_of_donation,
        StateOfDonation::Open,
        "State of donation should still be open"
    );
}

#[test]
fn test_donate_wrong_location() {
    let ctx = donate_ctx(Some("USA"), 0);
    let amount = Amount::from_micro_ccd(100);
    let mut host = Host::new(open_state());

    let result = donate(&ctx, &mut host, amount);

    assert!(result.is_err(), "Failed due to wrong location");
}

#[test]
fn test_close() {
    let owner = AccountAddress([0u8; 32]);
    let ctx = owner_ctx(owner);
    let balance = Amount::from_micro_ccd(100);
    let mut host = Host::new(open_state());
    host.set_self_balance(balance);

    let result = close(&ctx, &mut host);

    assert!(result.is_ok(), "Failed to close donation.");
    assert_eq!(
        host.state().state_of_donation,
        StateOfDonation::Closed,
        "State of donation should be closed."
    );
    assert_eq!(host.get_transfers(), [(owner, balance)], "wrong transfers.");
}

#[test]
fn test_open() {
    let owner = AccountAddress([0u8; 32]);
    let ctx = owner_ctx(owner);
    let balance = Amount::from_micro_ccd(100);
    let mut host = Host::new(open_state());
    host.set_self_balance(balance);

    let result = close(&ctx, &mut host);

    assert!(result.is_ok(), "Failed to close donation.");
    assert_eq!(
        host.state().state_of_donation,
        StateOfDonation::Closed,
        "State of donation should be closed."
    );
    assert_eq!(host.get_transfers(), [(owner, balance)], "wrong transfers.");

    let open_result = open(&ctx, &mut host);
    assert!(open_result.is_ok(), "Failed to open donation.");
    assert_eq!(
        host.state().state_of_donation,
        StateOfDonation::Open,
        "State of donation should be open."
    );
}

#[test]
fn test_init_builds_open_state() {
    let state = init(InitParameter {
        donation_locations: locations(),
        end_time: Timestamp::from_timestamp_millis(10000),
    });
    assert_eq!(state.number_of_donors, 0);
    assert_eq!(state.state_of_donation, StateOfDonation::Open);
    assert_eq!(state.donation_locations, locations());
    assert_eq!(state.end_time, Timestamp::from_timestamp_millis(10000));
}

#[test]
fn test_donate_at_deadline_succeeds() {
    let ctx = donate_ctx(Some("FR"), 10000);
    let mut host = Host::new(open_state());
    assert_eq!(donate(&ctx, &mut host, Amount::from_micro_ccd(1)), Ok(()));
}

#[test]
fn test_donate_after_deadline_fails() {
    let ctx = donate_ctx(Some("CM"), 10001);
    let mut host = Host::new(open_state());
    assert_eq!(
        donate(&ctx, &mut host, Amount::from_micro_ccd(100)),
        Err(Error::DonationHasEnded)
    );
}

#[test]
fn test_donate_closed_fails() {
    let ctx = donate_ctx(Some("CM"), 0);
    let mut state = open_state();
    state.state_of_donation = StateOfDonation::Closed;
    let mut host = Host::new(state);
    assert_eq!(
        donate(&ctx, &mut host, Amount::from_micro_ccd(100)),
        Err(Error::DonationClosed)
    );
}

#[test]
fn test_donate_unreadable_parameter_fails() {
    let ctx = donate_ctx(None, 0);
    let mut host = Host::new(open_state());
    assert_eq!(
        donate(&ctx, &mut host, Amount::from_micro_ccd(100)),
        Err(Error::ParseParamsError)
    );
}

#[test]
fn test_donate_wrong_location_error_kind() {
    let ctx = donate_ctx(Some("USA"), 0);
    let mut host = Host::new(open_state());
    assert_eq!(
        donate(&ctx, &mut host, Amount::from_micro_ccd(100)),
        Err(Error::InvalidDonationLocation)
    );
}

#[test]
fn test_donate_zero_value_is_accepted() {
    let ctx = donate_ctx(Some("IT"), 0);
    let mut host = Host::new(open_state());
    assert_eq!(donate(&ctx, &mut host, Amount::zero()), Ok(()));
}

#[test]
fn test_donate_empty_allowlist_rejects_all() {
    let ctx = donate_ctx(Some("CM"), 0);
    let mut host = Host::new(State {
        number_of_donors: 0,
        state_of_donation: StateOfDonation::Open,
        donation_locations: Vec::new(),
        end_time: Timestamp::from_timestamp_millis(10000),
    });
    assert_eq!(
        donate(&ctx, &mut host, Amount::from_micro_ccd(100)),
        Err(Error::InvalidDonationLocation)
    );
}

#[test]
fn test_close_not_owner_fails() {
    let owner = AccountAddress([0u8; 32]);
    let stranger = AccountAddress([1u8; 32]);
    let ctx = ReceiveContext {
        owner,
        sender: Address::Account(stranger),
        slot_time: Timestamp::from_timestamp_millis(0),
        parameter: None,
    };
    let mut host = Host::new(open_state());
    host.set_self_balance(Amount::from_micro_ccd(100));
    assert_eq!(close(&ctx, &mut host), Err(Error::NotOwner));
    assert_eq!(host.state().state_of_donation, StateOfDonation::Open);
    assert!(host.get_transfers().is_empty());
    assert_eq!(host.self_balance(), Amount::from_micro_ccd(100));
}

#[test]
fn test_close_by_contract_sender_fails() {
    let owner = AccountAddress([0u8; 32]);
    let ctx = ReceiveContext {
        owner,
        sender: Address::Contract(ContractAddress {
            index: 7,
            subindex: 0,
        }),
        slot_time: Timestamp::from_timestamp_millis(0),
        parameter: None,
    };
    let mut host = Host::new(open_state());
    assert_eq!(close(&ctx, &mut host), Err(Error::NotOwner));
    assert_eq!(host.state().state_of_donation, StateOfDonation::Open);
}

#[test]
fn test_open_not_owner_fails() {
    let owner = AccountAddress([0u8; 32]);
    let stranger = AccountAddress([2u8; 32]);
    let mut state = open_state();
    state.state_of_donation = StateOfDonation::Closed;
    let ctx = ReceiveContext {
        owner,
        sender: Address::Account(stranger),
        slot_time: Timestamp::from_timestamp_millis(0),
        parameter: None,
    };
    let mut host = Host::new(state);
    assert_eq!(open(&ctx, &mut host), Err(Error::NotOwner));
    assert_eq!(host.state().state_of_donation, StateOfDonation::Closed);
}

#[test]
fn test_close_already_closed_fails() {
    let owner = AccountAddress([0u8; 32]);
    let ctx = owner_ctx(owner);
    let mut state = open_state();
    state.state_of_donation = StateOfDonation::Closed;
    let mut host = Host::new(state);
    host.set_self_balance(Amount::from_micro_ccd(55));
    assert_eq!(close(&ctx, &mut host), Err(Error::WrongPhase));
    assert_eq!(host.state().state_of_donation, StateOfDonation::Closed);
    assert_eq!(host.self_balance(), Amount::from_micro_ccd(55));
    assert!(host.get_transfers().is_empty());
}

#[test]
fn test_open_already_open_fails() {
    let owner = AccountAddress([0u8; 32]);
    let ctx = owner_ctx(owner);
    let mut host = Host::new(open_state());
    assert_eq!(open(&ctx, &mut host), Err(Error::WrongPhase));
    assert_eq!(host.state().state_of_donation, StateOfDonation::Open);
}

#[test]
fn test_close_failed_transfer_changes_nothing() {
    let owner = AccountAddress([0u8; 32]);
    let ctx = owner_ctx(owner);
    let mut host = Host::new(open_state());
    host.set_self_balance(Amount::from_micro_ccd(100));
    host.make_account_missing(owner);
    assert_eq!(close(&ctx, &mut host), Err(Error::TransferFailed));
    assert_eq!(host.state().state_of_donation, StateOfDonation::Open);
    assert_eq!(host.self_balance(), Amount::from_micro_ccd(100));
    assert!(host.get_transfers().is_empty());
}

#[test]
fn test_view_reports_state_and_balance() {
    let owner = AccountAddress([0u8; 32]);
    let ctx = owner_ctx(owner);
    let mut host = Host::new(open_state());
    host.set_self_balance(Amount::from_micro_ccd(42));
    let v = view(&ctx, &host);
    assert_eq!(v.number_donors, 0);
    assert_eq!(v.state_donation, StateOfDonation::Open);
    assert_eq!(v.time, Timestamp::from_timestamp_millis(10000));
    assert_eq!(v.balance, Amount::from_micro_ccd(42));
}

#[test]
fn test_full_scenario() {
    let owner = AccountAddress([0u8; 32]);
    let mut host = Host::new(open_state());
    host.set_self_balance(Amount::from_micro_ccd(100));

    let r = donate(
        &donate_ctx(Some("CM"), 0),
        &mut host,
        Amount::from_micro_ccd(100),
    );
    assert_eq!(r, Ok(()));

    let r = donate(
        &donate_ctx(Some("USA"), 0),
        &mut host,
        Amount::from_micro_ccd(100),
    );
    assert_eq!(r, Err(Error::InvalidDonationLocation));

    let ctx = owner_ctx(owner);
    assert_eq!(close(&ctx, &mut host), Ok(()));
    assert_eq!(host.state().state_of_donation, StateOfDonation::Closed);
    assert_eq!(
        host.get_transfers(),
        [(owner, Amount::from_micro_ccd(100))]
    );
    assert_eq!(host.self_balance(), Amount::zero());

    assert_eq!(open(&ctx, &mut host), Ok(()));
    assert_eq!(host.state().state_of_donation, StateOfDonation::Open);
    assert_eq!(host.self_balance(), Amount::zero());
    assert_eq!(
        host.get_transfers(),
        [(owner, Amount::from_micro_ccd(100))]
    );
}
