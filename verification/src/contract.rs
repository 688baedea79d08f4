//! The four entry operations: `init`, `send`, `topup`, `abort`.
//!
//! Each is a pure function of (current state, invocation context values,
//! invocation amount) to (new state, requested action) or an error, with
//! no partial effect: on any error the state handed in is left unchanged.
//!
//! `send` and `abort` exist under two mutually exclusive payout policies
//! over the same state shape: the graceful-degradation policy (`giveaway_send`,
//! `giveaway_abort`), which scales the bonus down to what the balance can
//! fund, and the strict-cap policy (`giveaway_send_strict`,
//! `giveaway_abort_strict`), which fails closed instead.  A deployment picks
//! one pair and uses it consistently.

use vstd::prelude::*;

use crate::params::parse_config;
use crate::params::spec_parse_config;
use crate::types::AccountAddress;
use crate::types::Action;
use crate::types::Address;
use crate::types::Config;
use crate::types::InitError;
use crate::types::ReceiveError;
use crate::types::State;

verus! {

/// Outcome of initialization on the given deposit and parameter bytes:
/// the validated configuration, or the first failing check's error.
pub open spec fn spec_init(amount: u64, param: Seq<u8>) -> Result<Config, InitError> {
    if amount == 0 {
        Err(InitError::ZeroAmount)
    } else {
        match spec_parse_config(param) {
            None => Err(InitError::ParseParams),
            Some(c) => if c.factor < 2 {
                Err(InitError::FactorBelowTwo)
            } else if c.max_giveaway == 0 {
                Err(InitError::ZeroMaxGiveaway)
            } else {
                Ok(c)
            },
        }
    }
}

/// Creates the contract state from a creation deposit and the serialized
/// configuration.  Validation order, first failure winning: non-zero
/// deposit, parameters decode, `factor >= 2`, `max_giveaway != 0`.
pub fn giveaway_init(amount: u64, param: &[u8]) -> (r: Result<State, InitError>)
    ensures
        match spec_init(amount, param@) {
            Ok(c) => r matches Ok(s) && s.config == c && s.senders@ == Seq::<
                AccountAddress,
            >::empty() && s.wf(),
            Err(e) => r matches Err(e2) && e2 == e,
        },
{
    if amount == 0 {
        return Err(InitError::ZeroAmount);
    }
    let config = match parse_config(param) {
        Some(c) => c,
        None => { return Err(InitError::ParseParams) },
    };
    if config.factor < 2 {
        return Err(InitError::FactorBelowTwo);
    }
    if config.max_giveaway == 0 {
        return Err(InitError::ZeroMaxGiveaway);
    }
    Ok(State { config, senders: Vec::new() })
}

/// Payout the graceful policy aims for: the full multiple of the principal,
/// or, above the cap, the principal back plus the capped bonus
/// `max_giveaway * (factor - 1)`.
pub open spec fn graceful_expected_return(cfg: Config, amount: u64) -> int {
    if amount > cfg.max_giveaway {
        amount + cfg.max_giveaway * (cfg.factor - 1)
    } else {
        amount * cfg.factor
    }
}

/// Payout the graceful policy actually requests: the expected return,
/// bounded by everything the contract could hand out (`balance` already
/// includes the just-received `amount`, which is counted once more on top,
/// as the policy defines it).
pub open spec fn graceful_actual_return(cfg: Config, balance: u64, amount: u64) -> int {
    let expected = graceful_expected_return(cfg, amount);
    if balance + amount < expected {
        balance + amount
    } else {
        expected
    }
}

/// Outcome of a `send` under the graceful policy: the requested payout, or
/// the first failing check's error.  A claim whose bonus cannot be funded
/// at all (`actual == amount`) is rejected before the double-claim check.
pub open spec fn spec_send(s: State, invoker: AccountAddress, balance: u64, amount: u64) -> Result<
    int,
    ReceiveError,
> {
    if amount == 0 {
        Err(ReceiveError::ZeroAmount)
    } else if graceful_actual_return(s.config, balance, amount) == amount {
        Err(ReceiveError::ZeroBalance)
    } else if s.claimed().contains(invoker) {
        Err(ReceiveError::DoubleSend)
    } else {
        Ok(graceful_actual_return(s.config, balance, amount))
    }
}

/// Claim under the graceful-degradation policy.
///
/// On success the invoker is recorded in `senders` and a transfer of
/// `graceful_actual_return` is requested, both as one atomic outcome; on
/// any error the state is unchanged.  `balance` is the contract balance as
/// the runtime reports it, already including `amount`; their sum must be a
/// representable amount, since the requested transfer is bounded by it.
pub fn giveaway_send(
    state: &mut State,
    invoker: AccountAddress,
    balance: u64,
    amount: u64,
) -> (r: Result<Action, ReceiveError>)
    requires
        old(state).wf(),
        balance + amount <= u64::MAX,
    ensures
        final(state).wf(),
        final(state).config == old(state).config,
        match spec_send(*old(state), invoker, balance, amount) {
            Ok(pay) => r matches Ok(a) && a == (Action::SimpleTransfer {
                to: invoker,
                amount: pay as u64,
            }) && final(state).senders@ == old(state).senders@.push(invoker),
            Err(e) => r matches Err(e2) && e2 == e && *final(state) == *old(state),
        },
{
    if amount == 0 {
        return Err(ReceiveError::ZeroAmount);
    }
    let factor: u128 = state.config.factor as u128;
    let amt: u128 = amount as u128;
    let maxg: u128 = state.config.max_giveaway as u128;
    proof {
        assert(maxg * (factor - 1) <= 0xffff_ffff_ffff_ffff * 0xff) by (nonlinear_arith)
            requires
                maxg <= 0xffff_ffff_ffff_ffff,
                1 <= factor - 1 <= 0xff,
        ;
        assert(amt * factor <= 0xffff_ffff_ffff_ffff * 0xff) by (nonlinear_arith)
            requires
                amt <= 0xffff_ffff_ffff_ffff,
                factor <= 0xff,
        ;
    }
    let expected: u128 = if amount > state.config.max_giveaway {
        amt + maxg * (factor - 1)
    } else {
        amt * factor
    };
    let funded: u128 = balance as u128 + amt;
    let actual128: u128 = if funded < expected {
        funded
    } else {
        expected
    };
    assert(actual128 == graceful_actual_return(state.config, balance, amount));
    let actual: u64 = actual128 as u64;
    if actual == amount {
        return Err(ReceiveError::ZeroBalance);
    }
    if state.has_claimed(&invoker) {
        return Err(ReceiveError::DoubleSend);
    }
    proof {
        lemma_push_fresh_keeps_no_duplicates(state.senders@, invoker);
    }
    state.senders.push(invoker);
    Ok(Action::SimpleTransfer { to: invoker, amount: actual })
}

/// Payout the strict policy requests: always the full multiple of the
/// principal.
pub open spec fn strict_giveaway(cfg: Config, amount: u64) -> int {
    amount * cfg.factor
}

/// Outcome of a `send` under the strict policy: the requested payout, or
/// the first failing check's error.  Principals above the cap and balances
/// below the full multiple are rejected outright.
pub open spec fn spec_send_strict(
    s: State,
    invoker: AccountAddress,
    balance: u64,
    amount: u64,
) -> Result<int, ReceiveError> {
    if amount == 0 {
        Err(ReceiveError::ZeroAmount)
    } else if s.claimed().contains(invoker) {
        Err(ReceiveError::DoubleSend)
    } else if amount > s.config.max_giveaway {
        Err(ReceiveError::HighAmount)
    } else if balance < strict_giveaway(s.config, amount) {
        Err(ReceiveError::LowBalance)
    } else {
        Ok(strict_giveaway(s.config, amount))
    }
}

/// Claim under the strict-cap policy.
///
/// Never pays out less than the full multiple `amount * factor`; it fails
/// closed (`HighAmount`, `LowBalance`) when the cap or the balance cannot
/// honor that.  On success the invoker is recorded and the transfer of the
/// full multiple is requested; on any error the state is unchanged.
pub fn giveaway_send_strict(
    state: &mut State,
    invoker: AccountAddress,
    balance: u64,
    amount: u64,
) -> (r: Result<Action, ReceiveError>)
    requires
        old(state).wf(),
    ensures
        final(state).wf(),
        final(state).config == old(state).config,
        match spec_send_strict(*old(state), invoker, balance, amount) {
            Ok(pay) => r matches Ok(a) && a == (Action::SimpleTransfer {
                to: invoker,
                amount: pay as u64,
            }) && final(state).senders@ == old(state).senders@.push(invoker),
            Err(e) => r matches Err(e2) && e2 == e && *final(state) == *old(state),
        },
{
    if amount == 0 {
        return Err(ReceiveError::ZeroAmount);
    }
    if state.has_claimed(&invoker) {
        return Err(ReceiveError::DoubleSend);
    }
    if amount > state.config.max_giveaway {
        return Err(ReceiveError::HighAmount);
    }
    proof {
        assert((amount as u128) * (state.config.factor as u128) <= 0xffff_ffff_ffff_ffff * 0xff)
            by (nonlinear_arith)
            requires
                amount as u128 <= 0xffff_ffff_ffff_ffff,
                state.config.factor as u128 <= 0xff,
        ;
    }
    let giveaway128: u128 = (amount as u128) * (state.config.factor as u128);
    if (balance as u128) < giveaway128 {
        return Err(ReceiveError::LowBalance);
    }
    let giveaway: u64 = giveaway128 as u64;
    proof {
        lemma_push_fresh_keeps_no_duplicates(state.senders@, invoker);
    }
    state.senders.push(invoker);
    Ok(Action::SimpleTransfer { to: invoker, amount: giveaway })
}

/// Outcome of a `topup`: the incoming funds are accepted with no state
/// change when the transaction sender is the owner's account, and any other
/// sender is rejected.
pub open spec fn spec_topup(sender: Address, owner: AccountAddress) -> Result<
    Action,
    ReceiveError,
> {
    if sender.spec_matches_account(owner) {
        Ok(Action::Accept)
    } else {
        Err(ReceiveError::NotOwner)
    }
}

/// Owner-gated top-up: accepts the attached payment (the runtime credits
/// it) and requests nothing else; the claim history and configuration are
/// not touched, as this function takes no state at all.
pub fn giveaway_topup(sender: &Address, owner: &AccountAddress) -> (r: Result<
    Action,
    ReceiveError,
>)
    ensures
        r == spec_topup(*sender, *owner),
{
    if sender.matches_account(owner) {
        Ok(Action::Accept)
    } else {
        Err(ReceiveError::NotOwner)
    }
}

/// Outcome of an `abort` under the graceful policy: the whole current
/// balance is paid to the invoker when the invoker is the owner, and any
/// other invoker is rejected.
pub open spec fn spec_abort(
    invoker: AccountAddress,
    owner: AccountAddress,
    balance: u64,
) -> Result<Action, ReceiveError> {
    if invoker == owner {
        Ok(Action::SimpleTransfer { to: invoker, amount: balance })
    } else {
        Err(ReceiveError::NotOwner)
    }
}

/// Owner-gated drain: requests a transfer of the entire current balance to
/// the owner.  The claim history and configuration are not touched, as
/// this function takes no state at all.
pub fn giveaway_abort(invoker: &AccountAddress, owner: &AccountAddress, balance: u64) -> (r: Result<
    Action,
    ReceiveError,
>)
    ensures
        r == spec_abort(*invoker, *owner, balance),
{
    if *invoker == *owner {
        Ok(Action::SimpleTransfer { to: *invoker, amount: balance })
    } else {
        Err(ReceiveError::NotOwner)
    }
}

/// Outcome of an `abort` under the strict policy: as the graceful one, but
/// a drained contract (balance zero) is additionally rejected, after the
/// owner check.
pub open spec fn spec_abort_strict(
    invoker: AccountAddress,
    owner: AccountAddress,
    balance: u64,
) -> Result<Action, ReceiveError> {
    if invoker != owner {
        Err(ReceiveError::NotOwner)
    } else if balance == 0 {
        Err(ReceiveError::ZeroAmount)
    } else {
        Ok(Action::SimpleTransfer { to: invoker, amount: balance })
    }
}

/// Owner-gated drain under the strict policy: rejects when there is
/// nothing to withdraw.
pub fn giveaway_abort_strict(
    invoker: &AccountAddress,
    owner: &AccountAddress,
    balance: u64,
) -> (r: Result<Action, ReceiveError>)
    ensures
        r == spec_abort_strict(*invoker, *owner, balance),
{
    if !(*invoker == *owner) {
        return Err(ReceiveError::NotOwner);
    }
    if balance == 0 {
        return Err(ReceiveError::ZeroAmount);
    }
    Ok(Action::SimpleTransfer { to: *invoker, amount: balance })
}

/// Pushing an element a sequence does not contain keeps the sequence free
/// of duplicates.
proof fn lemma_push_fresh_keeps_no_duplicates(s: Seq<AccountAddress>, a: AccountAddress)
    requires
        s.no_duplicates(),
        !s.contains(a),
    ensures
        s.push(a).no_duplicates(),
{
    let t = s.push(a);
    assert forall|i: int, j: int| 0 <= i < t.len() && 0 <= j < t.len() && i != j implies t[i]
        != t[j] by {
        if i < s.len() && j < s.len() {
            assert(s[i] == t[i] && s[j] == t[j]);
        } else if i < s.len() {
            assert(s.contains(s[i]));
        } else {
            assert(s.contains(s[j]));
        }
    }
}

} // verus!
