//! The library's laws: properties of the entry operations that hold for
//! all inputs, stated over the spec-level outcomes in `contract` and the
//! state model in `types`, and proved here.

use vstd::prelude::*;
use vstd::seq_lib::group_to_multiset_ensures;

use crate::contract::graceful_actual_return;
use crate::contract::spec_abort;
use crate::contract::spec_abort_strict;
use crate::contract::spec_init;
use crate::contract::spec_send;
use crate::contract::spec_send_strict;
use crate::contract::spec_topup;
use crate::contract::strict_giveaway;
use crate::params::spec_parse_config;
use crate::types::AccountAddress;
use crate::types::Config;
use crate::types::Action;
use crate::types::Address;
use crate::types::InitError;
use crate::types::ReceiveError;
use crate::types::State;

verus! {

/// No double payout, recorded: in any well-formed state — and every state
/// an entry operation hands back is well-formed — an address stands in the
/// claim history at most once.
pub proof fn lemma_claim_recorded_at_most_once(s: State, a: AccountAddress)
    requires
        s.wf(),
    ensures
        s.senders@.to_multiset().count(a) <= 1,
{
    broadcast use group_to_multiset_ensures;

    s.senders@.lemma_multiset_has_no_duplicates();
}

/// No double payout, enforced: a `send` under the graceful policy from an
/// already-recorded address fails with `DoubleSend` — and, by the entry
/// operation's own contract, leaves the state unchanged — whenever the
/// checks ahead of it (a non-zero principal, a fundable bonus) pass.
pub proof fn lemma_second_send_rejected(
    s: State,
    invoker: AccountAddress,
    balance: u64,
    amount: u64,
)
    requires
        s.claimed().contains(invoker),
        amount != 0,
        graceful_actual_return(s.config, balance, amount) != amount,
    ensures
        spec_send(s, invoker, balance, amount) == Err::<int, ReceiveError>(
            ReceiveError::DoubleSend,
        ),
{
}

/// No double payout, enforced, strict policy: here only a zero principal
/// is checked first, so any non-zero repeat claim fails with `DoubleSend`.
pub proof fn lemma_second_send_strict_rejected(
    s: State,
    invoker: AccountAddress,
    balance: u64,
    amount: u64,
)
    requires
        s.claimed().contains(invoker),
        amount != 0,
    ensures
        spec_send_strict(s, invoker, balance, amount) == Err::<int, ReceiveError>(
            ReceiveError::DoubleSend,
        ),
{
}

/// Initialization validation: `init` succeeds exactly when the deposit is
/// non-zero, the parameters decode, `factor >= 2` and `max_giveaway != 0`;
/// each single violated condition yields its own error, in that order of
/// precedence.
pub proof fn lemma_init_validation(amount: u64, param: Seq<u8>)
    ensures
        spec_init(amount, param) is Ok <==> amount != 0 && spec_parse_config(param) is Some
            && spec_parse_config(param).unwrap().factor >= 2 && spec_parse_config(
            param,
        ).unwrap().max_giveaway != 0,
        spec_init(amount, param) == Err::<Config, InitError>(InitError::ZeroAmount) <==> amount == 0,
        spec_init(amount, param) == Err::<Config, InitError>(InitError::ParseParams) <==> amount != 0
            && spec_parse_config(param) is None,
        spec_init(amount, param) == Err::<Config, InitError>(InitError::FactorBelowTwo) <==> amount != 0
            && spec_parse_config(param) is Some && spec_parse_config(param).unwrap().factor < 2,
        spec_init(amount, param) == Err::<Config, InitError>(InitError::ZeroMaxGiveaway) <==> amount
            != 0 && spec_parse_config(param) is Some && spec_parse_config(param).unwrap().factor
            >= 2 && spec_parse_config(param).unwrap().max_giveaway == 0,
        spec_init(amount, param) is Ok ==> spec_init(amount, param).unwrap()
            == spec_parse_config(param).unwrap() && spec_init(amount, param).unwrap().wf(),
{
}

/// Strict-policy payout exactness: a fresh claim with a non-zero principal
/// within the cap, against a balance that covers the full multiple, is
/// paid exactly `amount * factor` — and the entry operation's own contract
/// adds the invoker to the claim history in the same outcome.
pub proof fn lemma_strict_payout_exactness(
    s: State,
    invoker: AccountAddress,
    balance: u64,
    amount: u64,
)
    requires
        amount != 0,
        !s.claimed().contains(invoker),
        amount <= s.config.max_giveaway,
        balance >= amount * s.config.factor,
    ensures
        spec_send_strict(s, invoker, balance, amount) == Ok::<int, ReceiveError>(
            amount * s.config.factor,
        ),
{
    assert(strict_giveaway(s.config, amount) == amount * s.config.factor);
}

/// Graceful-policy monotonic cap: the requested payout never exceeds
/// `balance + amount`, and whenever any balance exists the principal is
/// covered: the payout is at least `amount`.
pub proof fn lemma_graceful_return_bounds(cfg: Config, balance: u64, amount: u64)
    requires
        cfg.wf(),
    ensures
        graceful_actual_return(cfg, balance, amount) <= balance + amount,
        balance > 0 ==> graceful_actual_return(cfg, balance, amount) >= amount,
{
    if amount > cfg.max_giveaway {
        assert(cfg.max_giveaway * (cfg.factor - 1) >= 1) by (nonlinear_arith)
            requires
                cfg.max_giveaway >= 1,
                cfg.factor - 1 >= 1,
        ;
    } else {
        assert(amount * cfg.factor >= amount) by (nonlinear_arith)
            requires
                cfg.factor >= 1,
                amount >= 0,
        ;
    }
}

/// Owner gating: `topup` and both `abort` policies fail with `NotOwner`
/// for any sender or invoker other than the owner, regardless of the
/// attached amount or the balance.
pub proof fn lemma_owner_gating(
    sender: Address,
    invoker: AccountAddress,
    owner: AccountAddress,
    balance: u64,
)
    ensures
        !sender.spec_matches_account(owner) ==> spec_topup(sender, owner) == Err::<
            Action,
            ReceiveError,
        >(ReceiveError::NotOwner),
        invoker != owner ==> spec_abort(invoker, owner, balance) == Err::<Action, ReceiveError>(
            ReceiveError::NotOwner,
        ),
        invoker != owner ==> spec_abort_strict(invoker, owner, balance) == Err::<
            Action,
            ReceiveError,
        >(ReceiveError::NotOwner),
{
}

/// Abort drains: a successful `abort`, under either policy, requests a
/// transfer of exactly the balance the call observed, to the owner.  The
/// claim history and configuration are untouched by construction: the
/// abort operations take no state.
pub proof fn lemma_abort_drains(invoker: AccountAddress, owner: AccountAddress, balance: u64)
    requires
        invoker == owner,
    ensures
        spec_abort(invoker, owner, balance) == Ok::<Action, ReceiveError>(
            Action::SimpleTransfer { to: owner, amount: balance },
        ),
        balance != 0 ==> spec_abort_strict(invoker, owner, balance) == Ok::<Action, ReceiveError>(
            Action::SimpleTransfer { to: owner, amount: balance },
        ),
{
}

} // verus!
