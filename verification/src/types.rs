//! Data model: addresses, configuration, persistent state, requested
//! actions, and the two error taxonomies.

use vstd::prelude::*;

verus! {

/// Identity of an account, 32 bytes held as four 64-bit words.
///
/// The host runtime's account representation is opaque to the contract
/// logic: only identity (equality) is ever read from it.
#[derive(Clone, Copy, PartialEq, Eq, Structural, Debug)]
pub struct AccountAddress {
    pub w0: u64,
    pub w1: u64,
    pub w2: u64,
    pub w3: u64,
}

/// The sender of an invocation: either an account or another contract
/// (identified by index and subindex).
#[derive(Clone, Copy, PartialEq, Eq, Structural, Debug)]
pub enum Address {
    Account(AccountAddress),
    Contract(u64, u64),
}

impl Address {
    /// Whether this sender is exactly the given account.
    pub open spec fn spec_matches_account(self, account: AccountAddress) -> bool {
        match self {
            Address::Account(a) => a == account,
            Address::Contract(_, _) => false,
        }
    }

    /// Executable form of `spec_matches_account`.
    pub fn matches_account(&self, account: &AccountAddress) -> (r: bool)
        ensures
            r == self.spec_matches_account(*account),
    {
        match self {
            Address::Account(a) => *a == *account,
            Address::Contract(_, _) => false,
        }
    }
}

/// Immutable configuration, fixed at initialization.
#[derive(Clone, Copy, PartialEq, Eq, Structural, Debug)]
pub struct Config {
    /// Multiplier applied to a claim; valid configurations have `factor >= 2`.
    pub factor: u8,
    /// Cap on the payout basis, in the smallest currency unit; valid
    /// configurations have `max_giveaway > 0`.
    pub max_giveaway: u64,
}

impl Config {
    /// The creation-time invariant: both bounds enforced by `giveaway_init`.
    pub open spec fn wf(self) -> bool {
        &&& self.factor >= 2
        &&& self.max_giveaway > 0
    }
}

/// Persistent contract state: the configuration and the addresses that
/// have already received a payout.
#[derive(Debug)]
pub struct State {
    pub config: Config,
    /// Addresses that already got a giveaway; insertion-only, no duplicates.
    pub senders: Vec<AccountAddress>,
}

impl State {
    /// The set of addresses that have already claimed.
    pub open spec fn claimed(self) -> Set<AccountAddress> {
        self.senders@.to_set()
    }

    /// Well-formedness: set semantics for `senders` and a valid config.
    pub open spec fn wf(self) -> bool {
        &&& self.senders@.no_duplicates()
        &&& self.config.wf()
    }

    /// Whether `account` has already received a payout.
    pub fn has_claimed(&self, account: &AccountAddress) -> (r: bool)
        ensures
            r == self.claimed().contains(*account),
    {
        let mut i: usize = 0;
        while i < self.senders.len()
            invariant
                i <= self.senders@.len(),
                forall|j: int| 0 <= j < i ==> self.senders@[j] != *account,
            decreases self.senders@.len() - i,
        {
            if self.senders[i] == *account {
                assert(self.senders@.contains(*account));
                return true;
            }
            i += 1;
        }
        assert(!self.senders@.contains(*account));
        false
    }
}

/// The single action a successful entry point may request from the runtime.
#[derive(Clone, Copy, PartialEq, Eq, Structural, Debug)]
pub enum Action {
    /// Accept the incoming payment; nothing else.
    Accept,
    /// Request a transfer of `amount` to the account `to`.
    SimpleTransfer { to: AccountAddress, amount: u64 },
}

/// Errors of `giveaway_init`.
#[derive(Clone, Copy, PartialEq, Eq, Structural, Debug)]
pub enum InitError {
    ParseParams,
    ZeroAmount,
    FactorBelowTwo,
    ZeroMaxGiveaway,
}

/// Errors of the receive entry points (`send`, `topup`, `abort`).
///
/// `HighAmount` and `LowBalance` arise only under the strict payout policy,
/// `ZeroBalance` only under the graceful one.
#[derive(Clone, Copy, PartialEq, Eq, Structural, Debug)]
pub enum ReceiveError {
    ParseParams,
    ZeroAmount,
    HighAmount,
    LowBalance,
    ZeroBalance,
    DoubleSend,
    NotOwner,
}

} // verus!
