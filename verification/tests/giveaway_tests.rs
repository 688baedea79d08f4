use giveaway::contract::giveaway_abort;
use giveaway::contract::giveaway_abort_strict;
use giveaway::contract::giveaway_init;
use giveaway::contract::giveaway_send;
use giveaway::contract::giveaway_send_strict;
use giveaway::contract::giveaway_topup;
use giveaway::params::parse_config;
use giveaway::types::AccountAddress;
use giveaway::types::Action;
use giveaway::types::Address;
use giveaway::types::Config;
use giveaway::types::InitError;
use giveaway::types::ReceiveError;
use giveaway::types::State;

/// One GTU in the smallest currency unit.
fn gtu(n: u64) -> u64 {
    n * 1_000_000
}

fn account(n: u64) -> AccountAddress {
    AccountAddress { w0: n, w1: n, w2: n, w3: n }
}

/// The nine-byte parameter layout: `factor`, then `max_giveaway` little-endian.
fn config_bytes(factor: u8, max_giveaway: u64) -> Vec<u8> {
    let mut bytes = vec![factor];
    let mut v = max_giveaway;
    for _ in 0..8 {
        bytes.push((v & 0xff) as u8);
        v >>= 8;
    }
    bytes
}

fn fresh_state(factor: u8, max_giveaway: u64) -> State {
    State {
        config: Config { factor, max_giveaway },
        senders: Vec::new(),
    }
}

#[test]
fn test_init() {
    let bytes = config_bytes(2, gtu(10));
    let state = giveaway_init(gtu(100), &bytes).expect("Contract initialization failed");
    assert_eq!(state.config.factor, 2, "Should set factor");
    assert_eq!(state.config.max_giveaway, gtu(10), "Should set max giveaway");
    assert_eq!(state.senders.len(), 0, "Should not contain senders");
}

#[test]
fn test_send() {
    let account = account(1);
    let mut state = fresh_state(2, gtu(10));
    let action = giveaway_send(&mut state, account, gtu(100), gtu(5)).expect("Send failed");
    assert_eq!(
        action,
        Action::SimpleTransfer { to: account, amount: gtu(10) },
        "Send produced incorrect result"
    );
    assert_eq!(state.senders.len(), 1, "Send did not add sender");
}

#[test]
fn test_double_send() {
    let account = account(1);
    let mut state = fresh_state(2, gtu(10));
    state.senders.push(account);
    let result = giveaway_send(&mut state, account, gtu(100), gtu(5));
    assert_eq!(
        result.err().unwrap(),
        ReceiveError::DoubleSend,
        "Expected DoubleSend error"
    );
}

#[test]
fn test_send_low_balance() {
    let account = account(1);
    let mut state = fresh_state(2, gtu(10));
    let action = giveaway_send(&mut state, account, gtu(2), gtu(5)).expect("Send failed");
    assert_eq!(
        action,
        Action::SimpleTransfer { to: account, amount: gtu(7) },
        "Send produced incorrect result"
    );
    assert_eq!(state.senders.len(), 1, "Send did not add sender");
}

#[test]
fn test_send_big_amount() {
    let account = account(1);
    let mut state = fresh_state(3, gtu(10));
    let action = giveaway_send(&mut state, account, gtu(100), gtu(17)).expect("Send failed");
    assert_eq!(
        action,
        Action::SimpleTransfer { to: account, amount: gtu(37) },
        "Send produced incorrect result"
    );
    assert_eq!(state.senders.len(), 1, "Send did not add sender");
}

#[test]
fn init_rejects_zero_amount() {
    let bytes = config_bytes(2, 10);
    assert_eq!(giveaway_init(0, &bytes).unwrap_err(), InitError::ZeroAmount);
}

#[test]
fn init_rejects_short_parameter() {
    let mut bytes = config_bytes(2, 10);
    bytes.pop();
    assert_eq!(giveaway_init(100, &bytes).unwrap_err(), InitError::ParseParams);
    assert_eq!(giveaway_init(100, &[]).unwrap_err(), InitError::ParseParams);
}

#[test]
fn init_rejects_low_factor() {
    let bytes = config_bytes(1, 10);
    assert_eq!(giveaway_init(100, &bytes).unwrap_err(), InitError::FactorBelowTwo);
    let bytes = config_bytes(0, 10);
    assert_eq!(giveaway_init(100, &bytes).unwrap_err(), InitError::FactorBelowTwo);
}

#[test]
fn init_rejects_zero_max_giveaway() {
    let bytes = config_bytes(2, 0);
    assert_eq!(giveaway_init(100, &bytes).unwrap_err(), InitError::ZeroMaxGiveaway);
}

#[test]
fn init_zero_amount_wins_over_bad_parameter() {
    assert_eq!(giveaway_init(0, &[]).unwrap_err(), InitError::ZeroAmount);
}

#[test]
fn parse_reads_little_endian() {
    let parsed = parse_config(&[3, 0x01, 0x02, 0, 0, 0, 0, 0, 0]).unwrap();
    assert_eq!(parsed.factor, 3);
    assert_eq!(parsed.max_giveaway, 0x0201);
    let max = parse_config(&[2, 0xff, 0xff, 0xff, 0xff, 0xff, 0xff, 0xff, 0xff]).unwrap();
    assert_eq!(max.max_giveaway, u64::MAX);
}

#[test]
fn parse_ignores_trailing_bytes() {
    let parsed = parse_config(&[4, 7, 0, 0, 0, 0, 0, 0, 0, 0xaa, 0xbb]).unwrap();
    assert_eq!(parsed.factor, 4);
    assert_eq!(parsed.max_giveaway, 7);
    assert!(parse_config(&[4, 7, 0, 0, 0, 0, 0, 0]).is_none());
}

#[test]
fn send_rejects_zero_amount() {
    let mut state = fresh_state(2, 10);
    assert_eq!(
        giveaway_send(&mut state, account(1), 100, 0),
        Err(ReceiveError::ZeroAmount)
    );
    assert_eq!(state.senders.len(), 0);
}

#[test]
fn send_rejects_unfundable_bonus() {
    // No balance at all: the payout would be exactly the principal back.
    let mut state = fresh_state(2, 10);
    assert_eq!(
        giveaway_send(&mut state, account(1), 0, 5),
        Err(ReceiveError::ZeroBalance)
    );
    assert_eq!(state.senders.len(), 0);
}

#[test]
fn send_records_each_claimant_once() {
    let mut state = fresh_state(2, gtu(10));
    let first = account(1);
    let second = account(2);
    giveaway_send(&mut state, first, gtu(100), gtu(5)).expect("first claim failed");
    giveaway_send(&mut state, second, gtu(100), gtu(5)).expect("second claim failed");
    assert_eq!(state.senders.len(), 2);
    let repeat = giveaway_send(&mut state, first, gtu(100), gtu(5));
    assert_eq!(repeat, Err(ReceiveError::DoubleSend));
    assert_eq!(state.senders.len(), 2);
    assert_eq!(state.senders[0], first);
    assert_eq!(state.senders[1], second);
}

#[test]
fn send_strict_pays_exact_multiple() {
    let account = account(9);
    let mut state = fresh_state(3, gtu(10));
    let action =
        giveaway_send_strict(&mut state, account, gtu(100), gtu(5)).expect("Send failed");
    assert_eq!(action, Action::SimpleTransfer { to: account, amount: gtu(15) });
    assert_eq!(state.senders.len(), 1);
}

#[test]
fn send_strict_rejects_amount_over_cap() {
    let mut state = fresh_state(3, gtu(10));
    assert_eq!(
        giveaway_send_strict(&mut state, account(1), gtu(100), gtu(17)),
        Err(ReceiveError::HighAmount)
    );
    assert_eq!(state.senders.len(), 0);
}

#[test]
fn send_strict_rejects_low_balance() {
    let mut state = fresh_state(2, gtu(10));
    assert_eq!(
        giveaway_send_strict(&mut state, account(1), gtu(2), gtu(5)),
        Err(ReceiveError::LowBalance)
    );
    assert_eq!(state.senders.len(), 0);
}

#[test]
fn send_strict_rejects_double_send() {
    let account = account(1);
    let mut state = fresh_state(2, gtu(10));
    state.senders.push(account);
    assert_eq!(
        giveaway_send_strict(&mut state, account, gtu(100), gtu(5)),
        Err(ReceiveError::DoubleSend)
    );
    assert_eq!(state.senders.len(), 1);
}

#[test]
fn topup_accepts_owner() {
    let owner = account(3);
    assert_eq!(
        giveaway_topup(&Address::Account(owner), &owner),
        Ok(Action::Accept)
    );
}

#[test]
fn topup_rejects_non_owner() {
    let owner = account(3);
    assert_eq!(
        giveaway_topup(&Address::Account(account(4)), &owner),
        Err(ReceiveError::NotOwner)
    );
    assert_eq!(
        giveaway_topup(&Address::Contract(1, 0), &owner),
        Err(ReceiveError::NotOwner)
    );
}

#[test]
fn abort_drains_balance_to_owner() {
    let owner = account(5);
    assert_eq!(
        giveaway_abort(&owner, &owner, gtu(42)),
        Ok(Action::SimpleTransfer { to: owner, amount: gtu(42) })
    );
    assert_eq!(
        giveaway_abort_strict(&owner, &owner, gtu(42)),
        Ok(Action::SimpleTransfer { to: owner, amount: gtu(42) })
    );
}

#[test]
fn abort_rejects_non_owner() {
    let owner = account(5);
    let intruder = account(6);
    assert_eq!(
        giveaway_abort(&intruder, &owner, gtu(42)),
        Err(ReceiveError::NotOwner)
    );
    assert_eq!(
        giveaway_abort_strict(&intruder, &owner, gtu(42)),
        Err(ReceiveError::NotOwner)
    );
}

#[test]
fn abort_strict_rejects_empty_contract() {
    let owner = account(5);
    assert_eq!(
        giveaway_abort_strict(&owner, &owner, 0),
        Err(ReceiveError::ZeroAmount)
    );
    // The graceful policy drains even a zero balance.
    assert_eq!(
        giveaway_abort(&owner, &owner, 0),
        Ok(Action::SimpleTransfer { to: owner, amount: 0 })
    );
}

#[test]
fn has_claimed_reports_membership() {
    let mut state = fresh_state(2, gtu(10));
    let claimant = account(7);
    assert!(!state.has_claimed(&claimant));
    giveaway_send(&mut state, claimant, gtu(100), gtu(5)).expect("claim failed");
    assert!(state.has_claimed(&claimant));
    assert!(!state.has_claimed(&account(8)));
}
