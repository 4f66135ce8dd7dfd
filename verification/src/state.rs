//! The persistent records of the vault core: the per-vault ledger, the
//! per-depositor ledger, and the balance-holding token account.
//!
//! The ledgers hold cumulative counters only; an available balance is always
//! derived as the difference of the two counters, never stored.
use vstd::prelude::*;

use crate::address::Address;

verus! {

/// Upper bound on a vault name, in bytes.  A name is one seed of the vault's
/// address derivation, and a single seed may hold at most 32 bytes.
pub const MAX_VAULT_NAME_LEN: usize = 32;

/// The aggregate record of one named vault: who created it, when, and the
/// cumulative totals deposited into and withdrawn from it.
///
/// The counters are twice as wide as a single operation's 64-bit amount, so
/// that many maximal deposits accumulate without reaching the width.
#[derive(Clone, Debug, PartialEq, Eq)]
pub struct Vault {
    /// Disambiguation byte produced when the vault's address was derived.
    pub bump: u8,
    /// Identity that created the vault; the only identity allowed to close it.
    pub authority: Address,
    /// Label naming the vault; part of its address derivation input.
    pub name: Vec<u8>,
    /// Creation timestamp.
    pub ts: i64,
    /// Cumulative total ever deposited.
    pub net_deposits: u128,
    /// Cumulative total ever withdrawn.
    pub net_withdraws: u128,
}

impl Vault {
    /// Invariant of every reachable vault record: nothing has ever been
    /// withdrawn that was not first deposited, and the name is acceptable.
    pub open spec fn wf(self) -> bool {
        &&& self.net_withdraws <= self.net_deposits
        &&& 0 < self.name@.len() <= MAX_VAULT_NAME_LEN
    }
}

/// The record of one (vault, depositor) pair: that depositor's cumulative
/// totals against the vault.  Created lazily on the first deposit.
#[derive(Clone, Copy, Debug, PartialEq, Eq)]
pub struct User {
    /// Disambiguation byte produced when the record's address was derived.
    pub bump: u8,
    /// The depositor this record belongs to.
    pub authority: Address,
    /// Timestamp of the last deposit or withdrawal.
    pub ts: i64,
    /// Address of the vault this record is scoped to.
    pub vault: Address,
    /// Cumulative total this depositor ever deposited.
    pub net_deposit: u64,
    /// Cumulative total this depositor ever withdrew.
    pub net_withdraw: u64,
}

impl User {
    /// Invariant of every reachable depositor record.
    pub open spec fn wf(self) -> bool {
        self.net_withdraw <= self.net_deposit
    }

    /// The balance this depositor may still withdraw.
    pub open spec fn available(self) -> int {
        self.net_deposit - self.net_withdraw
    }
}

/// A balance-holding account: the value custodied for its recorded owner.
#[derive(Clone, Copy, Debug, PartialEq, Eq)]
pub struct TokenAccount {
    /// The party the balance belongs to.
    pub owner: Address,
    /// The balance itself.
    pub amount: u64,
}

} // verus!
