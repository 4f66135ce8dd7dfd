//! The vault operation set: create, deposit, withdraw and close, as atomic
//! state transitions over the records of `state` and the balances they
//! custody.
//!
//! Each operation re-derives the expected address of every record it
//! touches from stated inputs and rejects a mismatch, stages its checks
//! before any mutation, and commits either every effect or none: on any
//! error the records and balances behind the `&mut` parameters are exactly
//! what they were.
//!
//! The value transfer itself belongs to the host platform; here it appears
//! as the paired balance updates of the two token accounts, admissible only
//! when the paying balance covers the amount.  A host transfer that would
//! fail is exactly an inadmissible pair, and aborts the operation.
use vstd::prelude::*;

use crate::address::Address;
use crate::address::address_eq;
use crate::address::derive_user_address;
use crate::address::derive_vault_address;
use crate::address::pda_of;
use crate::address::user_seeds;
use crate::address::vault_seeds;
use crate::errors::VaultError;
use crate::state::MAX_VAULT_NAME_LEN;
use crate::state::TokenAccount;
use crate::state::User;
use crate::state::Vault;

verus! {

/// The supplied address and stored bump are exactly what the canonical
/// derivation yields for this vault's name.
pub open spec fn vault_address_ok(vault: Vault, addr: Seq<u8>, program_id: Seq<u8>) -> bool {
    pda_of(vault_seeds(vault.name@), program_id) == Some((addr, vault.bump))
}

/// Check a supplied vault address against the canonical derivation.
fn check_vault_address(vault: &Vault, addr: &Address, program_id: &Address) -> (r: bool)
    ensures
        r <==> vault_address_ok(*vault, addr@, program_id@),
{
    match derive_vault_address(&vault.name, program_id) {
        Some(p) => {
            let (derived, bump) = p;
            address_eq(&derived, addr) && bump == vault.bump
        },
        None => false,
    }
}

/// The supplied depositor-record address and bump are exactly what the
/// canonical derivation yields for this vault and depositor.
pub open spec fn user_address_ok(
    vault_address: Address,
    depositor: Address,
    addr: Seq<u8>,
    bump: u8,
    program_id: Seq<u8>,
) -> bool {
    pda_of(user_seeds(vault_address@, depositor@), program_id) == Some((addr, bump))
}

/// Check a supplied depositor-record address against the canonical
/// derivation.
fn check_user_address(
    vault_address: &Address,
    depositor: &Address,
    addr: &Address,
    bump: u8,
    program_id: &Address,
) -> (r: bool)
    ensures
        r <==> user_address_ok(*vault_address, *depositor, addr@, bump, program_id@),
{
    match derive_user_address(vault_address, depositor, program_id) {
        Some(p) => {
            let (derived, derived_bump) = p;
            address_eq(&derived, addr) && derived_bump == bump
        },
        None => false,
    }
}

/// The outcome of a vault creation: the fresh record and its address, or
/// the exact reason none was allocated.
pub open spec fn spec_create_vault(
    name: Seq<u8>,
    authority: Address,
    occupied: bool,
    now: i64,
    program_id: Address,
) -> Result<(Seq<u8>, u8), VaultError> {
    if name.len() == 0 || name.len() > MAX_VAULT_NAME_LEN {
        Err(VaultError::InvalidVaultName)
    } else {
        match pda_of(vault_seeds(name), program_id@) {
            Option::None => Err(VaultError::OperationNotAllowed),
            Option::Some(p) => if occupied {
                Err(VaultError::VaultAlreadyExists)
            } else {
                Ok(p)
            },
        }
    }
}

/// Create the vault named `name` for `authority`.
///
/// The name must be nonempty and at most `MAX_VAULT_NAME_LEN` bytes, else
/// `InvalidVaultName`.  `occupied` is the host's answer to whether the
/// derived address already holds a record; if so, `VaultAlreadyExists`.  In
/// the statistically improbable case that the address search finds no
/// viable bump, `OperationNotAllowed`.  Otherwise the fresh record carries
/// the caller as authority, the creation time, and zeroed counters, and is
/// returned together with its derived address.  No transfer occurs.
pub fn create_vault(
    name: Vec<u8>,
    authority: Address,
    occupied: bool,
    now: i64,
    program_id: &Address,
) -> (r: Result<(Vault, Address), VaultError>)
    ensures
        (match spec_create_vault(name@, authority, occupied, now, *program_id) {
            Ok(p) => r matches Ok(v) && v.0 == (Vault {
                bump: p.1,
                authority,
                name,
                ts: now,
                net_deposits: 0,
                net_withdraws: 0,
            }) && v.1@ == p.0,
            Err(e) => r == Err::<(Vault, Address), VaultError>(e),
        }),
        r matches Ok(v) ==> v.0.wf(),
{
    if name.len() == 0 || name.len() > MAX_VAULT_NAME_LEN {
        return Err(VaultError::InvalidVaultName);
    }
    match derive_vault_address(&name, program_id) {
        None => Err(VaultError::OperationNotAllowed),
        Some(p) => {
            let (addr, bump) = p;
            if occupied {
                Err(VaultError::VaultAlreadyExists)
            } else {
                Ok(
                    (
                        Vault {
                            bump,
                            authority,
                            name,
                            ts: now,
                            net_deposits: 0,
                            net_withdraws: 0,
                        },
                        addr,
                    ),
                )
            }
        },
    }
}

/// The outcome of a deposit: the four records after the transition, or the
/// exact error, decided in this order — vault address mismatch,
/// depositor-record address mismatch, zero amount, token-account
/// ownership, transfer feasibility, counter widths.
pub open spec fn spec_deposit(
    vault_address: Address,
    vault: Vault,
    user: Option<User>,
    user_bump: u8,
    user_address: Address,
    user_token: TokenAccount,
    vault_token: TokenAccount,
    depositor: Address,
    amount: u64,
    now: i64,
    program_id: Address,
) -> Result<(Vault, User, TokenAccount, TokenAccount), VaultError> {
    if !vault_address_ok(vault, vault_address@, program_id@) {
        Err(VaultError::VaultNotFound)
    } else if !user_address_ok(
        vault_address,
        depositor,
        user_address@,
        (match user {
            Option::Some(u) => u.bump,
            Option::None => user_bump,
        }),
        program_id@,
    ) {
        Err(VaultError::UserNotFound)
    } else if amount == 0 {
        Err(VaultError::InvalidAmount)
    } else if user_token.owner@ != depositor@ {
        Err(VaultError::TokenAccountMismatch)
    } else if vault_token.owner@ != vault_address@ {
        Err(VaultError::TokenAccountMismatch)
    } else if user_token.amount < amount {
        Err(VaultError::InsufficientFunds)
    } else if vault_token.amount + amount > u64::MAX {
        Err(VaultError::Overflow)
    } else if vault.net_deposits + amount > u128::MAX {
        Err(VaultError::Overflow)
    } else if (user matches Some(u) && u.net_deposit + amount > u64::MAX) {
        Err(VaultError::Overflow)
    } else {
        let new_user = match user {
            Option::Some(u) => User {
                bump: u.bump,
                authority: u.authority,
                ts: now,
                vault: u.vault,
                net_deposit: (u.net_deposit + amount) as u64,
                net_withdraw: u.net_withdraw,
            },
            Option::None => User {
                bump: user_bump,
                authority: depositor,
                ts: now,
                vault: vault_address,
                net_deposit: amount,
                net_withdraw: 0,
            },
        };
        Ok(
            (
                Vault {
                    bump: vault.bump,
                    authority: vault.authority,
                    name: vault.name,
                    ts: vault.ts,
                    net_deposits: (vault.net_deposits + amount) as u128,
                    net_withdraws: vault.net_withdraws,
                },
                new_user,
                TokenAccount { owner: user_token.owner, amount: (user_token.amount - amount) as u64 },
                TokenAccount {
                    owner: vault_token.owner,
                    amount: (vault_token.amount + amount) as u64,
                },
            ),
        )
    }
}

/// Deposit `amount` from `depositor` into the vault.
///
/// The supplied vault address is re-derived from the vault's name and a
/// mismatch is `VaultNotFound`; the supplied depositor-record address is
/// re-derived from the vault address and the depositor, and a mismatch is
/// `UserNotFound`; a zero amount is `InvalidAmount`; each
/// token account must be owned by the party it pays or receives for, else
/// `TokenAccountMismatch`; the depositor's balance must cover the amount or
/// the transfer fails with `InsufficientFunds`; any counter or balance that
/// would exceed its width is `Overflow`.  On success the amount moves from
/// the depositor's token account to the vault's, both cumulative deposit
/// counters grow by it, and the depositor's record — created now if this is
/// its first deposit, with `user_bump` as its address nonce — is stamped
/// with `now`.  On any error every record and balance is unchanged.
pub fn deposit(
    vault_address: &Address,
    vault: &mut Vault,
    user: &mut Option<User>,
    user_bump: u8,
    user_address: &Address,
    user_token: &mut TokenAccount,
    vault_token: &mut TokenAccount,
    depositor: &Address,
    amount: u64,
    now: i64,
    program_id: &Address,
) -> (r: Result<(), VaultError>)
    requires
        old(vault).wf(),
        *old(user) matches Some(u) ==> u.wf() && u.authority@ == depositor@ && u.vault@
            == vault_address@,
    ensures
        (match spec_deposit(
            *vault_address,
            *old(vault),
            *old(user),
            user_bump,
            *user_address,
            *old(user_token),
            *old(vault_token),
            *depositor,
            amount,
            now,
            *program_id,
        ) {
            Ok(t) => r is Ok && *final(vault) == t.0 && *final(user) == Some(t.1)
                && *final(user_token) == t.2 && *final(vault_token) == t.3,
            Err(e) => r == Err::<(), VaultError>(e),
        }),
        r is Err ==> *final(vault) == *old(vault) && *final(user) == *old(user)
            && *final(user_token) == *old(user_token) && *final(vault_token) == *old(vault_token),
        r is Ok ==> final(vault).wf() && (*final(user) matches Some(u) && u.wf()),
{
    if !check_vault_address(vault, vault_address, program_id) {
        return Err(VaultError::VaultNotFound);
    }
    let expected_bump = match user {
        Some(u) => u.bump,
        None => user_bump,
    };
    if !check_user_address(vault_address, depositor, user_address, expected_bump, program_id) {
        return Err(VaultError::UserNotFound);
    }
    if amount == 0 {
        return Err(VaultError::InvalidAmount);
    }
    if !address_eq(&user_token.owner, depositor) {
        return Err(VaultError::TokenAccountMismatch);
    }
    if !address_eq(&vault_token.owner, vault_address) {
        return Err(VaultError::TokenAccountMismatch);
    }
    if user_token.amount < amount {
        return Err(VaultError::InsufficientFunds);
    }
    if amount > u64::MAX - vault_token.amount {
        return Err(VaultError::Overflow);
    }
    if amount as u128 > u128::MAX - vault.net_deposits {
        return Err(VaultError::Overflow);
    }
    match user {
        Some(u) => {
            if amount > u64::MAX - u.net_deposit {
                return Err(VaultError::Overflow);
            }
        },
        None => {},
    }
    user_token.amount = user_token.amount - amount;
    vault_token.amount = vault_token.amount + amount;
    vault.net_deposits = vault.net_deposits + amount as u128;
    match user {
        Some(u) => {
            u.net_deposit = u.net_deposit + amount;
            u.ts = now;
        },
        None => {
            *user = Some(
                User {
                    bump: user_bump,
                    authority: *depositor,
                    ts: now,
                    vault: *vault_address,
                    net_deposit: amount,
                    net_withdraw: 0,
                },
            );
        },
    }
    Ok(())
}

/// The outcome of a withdrawal: the four records after the transition, or
/// the exact error, decided in this order — vault address mismatch,
/// missing or mismatched depositor record, zero amount, token-account
/// ownership, the depositor's available balance, transfer feasibility,
/// counter widths.
///
/// Beyond the depositor-level check, the withdrawal must also be covered by
/// the vault-level counters, so that `net_withdraws <= net_deposits` holds
/// of every reachable vault record; a shortfall there is likewise
/// `InsufficientFunds`.
pub open spec fn spec_withdraw(
    vault_address: Address,
    vault: Vault,
    user: Option<User>,
    user_address: Address,
    user_token: TokenAccount,
    vault_token: TokenAccount,
    depositor: Address,
    amount: u64,
    now: i64,
    program_id: Address,
) -> Result<(Vault, User, TokenAccount, TokenAccount), VaultError> {
    if !vault_address_ok(vault, vault_address@, program_id@) {
        Err(VaultError::VaultNotFound)
    } else if user is None {
        Err(VaultError::UserNotFound)
    } else if !user_address_ok(
        vault_address,
        depositor,
        user_address@,
        user.unwrap().bump,
        program_id@,
    ) {
        Err(VaultError::UserNotFound)
    } else if amount == 0 {
        Err(VaultError::InvalidAmount)
    } else if user_token.owner@ != depositor@ {
        Err(VaultError::TokenAccountMismatch)
    } else if vault_token.owner@ != vault_address@ {
        Err(VaultError::TokenAccountMismatch)
    } else if user.unwrap().available() < amount {
        Err(VaultError::InsufficientFunds)
    } else if vault.net_deposits < vault.net_withdraws + amount {
        Err(VaultError::InsufficientFunds)
    } else if vault_token.amount < amount {
        Err(VaultError::InsufficientFunds)
    } else if user_token.amount + amount > u64::MAX {
        Err(VaultError::Overflow)
    } else {
        Ok(
            (
                Vault {
                    bump: vault.bump,
                    authority: vault.authority,
                    name: vault.name,
                    ts: vault.ts,
                    net_deposits: vault.net_deposits,
                    net_withdraws: (vault.net_withdraws + amount) as u128,
                },
                User {
                    bump: user.unwrap().bump,
                    authority: user.unwrap().authority,
                    ts: now,
                    vault: user.unwrap().vault,
                    net_deposit: user.unwrap().net_deposit,
                    net_withdraw: (user.unwrap().net_withdraw + amount) as u64,
                },
                TokenAccount { owner: user_token.owner, amount: (user_token.amount + amount) as u64 },
                TokenAccount {
                    owner: vault_token.owner,
                    amount: (vault_token.amount - amount) as u64,
                },
            ),
        )
    }
}

/// Withdraw `amount` from the vault back to `depositor`.
///
/// The supplied vault address is re-derived and a mismatch is
/// `VaultNotFound`; a missing depositor record, or a supplied record
/// address that does not re-derive from the vault address and the
/// depositor, is `UserNotFound`.  The depositor may withdraw only what their own record
/// still covers: `net_deposit >= net_withdraw + amount`, else
/// `InsufficientFunds`; the vault's counters and its custodied token
/// balance must likewise cover the amount.  The outgoing transfer is
/// authorized by the vault's own derived address, which is exactly why the
/// address re-derivation must succeed first.  On success the amount moves
/// from the vault's token account to the depositor's, both cumulative
/// withdrawal counters grow by it, and the depositor's record is stamped
/// with `now`.  On any error every record and balance is unchanged.
pub fn withdraw(
    vault_address: &Address,
    vault: &mut Vault,
    user: &mut Option<User>,
    user_address: &Address,
    user_token: &mut TokenAccount,
    vault_token: &mut TokenAccount,
    depositor: &Address,
    amount: u64,
    now: i64,
    program_id: &Address,
) -> (r: Result<(), VaultError>)
    requires
        old(vault).wf(),
        *old(user) matches Some(u) ==> u.wf() && u.authority@ == depositor@ && u.vault@
            == vault_address@,
    ensures
        (match spec_withdraw(
            *vault_address,
            *old(vault),
            *old(user),
            *user_address,
            *old(user_token),
            *old(vault_token),
            *depositor,
            amount,
            now,
            *program_id,
        ) {
            Ok(t) => r is Ok && *final(vault) == t.0 && *final(user) == Some(t.1)
                && *final(user_token) == t.2 && *final(vault_token) == t.3,
            Err(e) => r == Err::<(), VaultError>(e),
        }),
        r is Err ==> *final(vault) == *old(vault) && *final(user) == *old(user)
            && *final(user_token) == *old(user_token) && *final(vault_token) == *old(vault_token),
        r is Ok ==> final(vault).wf() && (*final(user) matches Some(u) && u.wf()),
{
    if !check_vault_address(vault, vault_address, program_id) {
        return Err(VaultError::VaultNotFound);
    }
    let u = match user {
        Some(u) => u,
        None => {
            return Err(VaultError::UserNotFound);
        },
    };
    if !check_user_address(vault_address, depositor, user_address, u.bump, program_id) {
        return Err(VaultError::UserNotFound);
    }
    if amount == 0 {
        return Err(VaultError::InvalidAmount);
    }
    if !address_eq(&user_token.owner, depositor) {
        return Err(VaultError::TokenAccountMismatch);
    }
    if !address_eq(&vault_token.owner, vault_address) {
        return Err(VaultError::TokenAccountMismatch);
    }
    if amount > u.net_deposit - u.net_withdraw {
        return Err(VaultError::InsufficientFunds);
    }
    if amount as u128 > vault.net_deposits - vault.net_withdraws {
        return Err(VaultError::InsufficientFunds);
    }
    if vault_token.amount < amount {
        return Err(VaultError::InsufficientFunds);
    }
    if amount > u64::MAX - user_token.amount {
        return Err(VaultError::Overflow);
    }
    vault_token.amount = vault_token.amount - amount;
    user_token.amount = user_token.amount + amount;
    vault.net_withdraws = vault.net_withdraws + amount as u128;
    u.net_withdraw = u.net_withdraw + amount;
    u.ts = now;
    Ok(())
}

/// The outcome of a closure request: permission to release the record, or
/// the exact refusal, decided in this order — address mismatch, caller
/// authority, custodial ownership, counters balanced, custodied balance
/// zero.
pub open spec fn spec_close_vault(
    vault_address: Address,
    vault: Vault,
    caller: Address,
    vault_token: TokenAccount,
    program_id: Address,
) -> Result<(), VaultError> {
    if !vault_address_ok(vault, vault_address@, program_id@) {
        Err(VaultError::VaultNotFound)
    } else if caller@ != vault.authority@ {
        Err(VaultError::Unauthorized)
    } else if vault_token.owner@ != vault_address@ {
        Err(VaultError::TokenAccountMismatch)
    } else if vault.net_deposits != vault.net_withdraws {
        Err(VaultError::VaultNotEmpty)
    } else if vault_token.amount != 0 {
        Err(VaultError::VaultNotEmpty)
    } else {
        Ok(())
    }
}

/// Law: the ledger invariants are preserved by deposits.  From well-formed
/// records, any deposit that succeeds yields a vault whose cumulative
/// withdrawals still do not exceed its cumulative deposits, and a depositor
/// record likewise; any deposit that fails leaves the records untouched, so
/// every reachable record stays well-formed.
pub proof fn lemma_deposit_preserves_invariants(
    vault_address: Address,
    vault: Vault,
    user: Option<User>,
    user_bump: u8,
    user_address: Address,
    user_token: TokenAccount,
    vault_token: TokenAccount,
    depositor: Address,
    amount: u64,
    now: i64,
    program_id: Address,
)
    requires
        vault.wf(),
        user matches Some(u) ==> u.wf(),
    ensures
        spec_deposit(
            vault_address,
            vault,
            user,
            user_bump,
            user_address,
            user_token,
            vault_token,
            depositor,
            amount,
            now,
            program_id,
        ) matches Ok(t) ==> t.0.wf() && t.1.wf(),
{
}

/// Law: the ledger invariants are preserved by withdrawals.  From
/// well-formed records, any withdrawal that succeeds still yields
/// `net_withdraws <= net_deposits` on the vault and
/// `net_withdraw <= net_deposit` on the depositor record; any withdrawal
/// that fails leaves the records untouched.
pub proof fn lemma_withdraw_preserves_invariants(
    vault_address: Address,
    vault: Vault,
    user: Option<User>,
    user_address: Address,
    user_token: TokenAccount,
    vault_token: TokenAccount,
    depositor: Address,
    amount: u64,
    now: i64,
    program_id: Address,
)
    requires
        vault.wf(),
        user matches Some(u) ==> u.wf(),
    ensures
        spec_withdraw(
            vault_address,
            vault,
            user,
            user_address,
            user_token,
            vault_token,
            depositor,
            amount,
            now,
            program_id,
        ) matches Ok(t) ==> t.0.wf() && t.1.wf(),
{
}

/// Decide whether the vault may be closed by `caller`.
///
/// Only the recorded authority may close, else `Unauthorized`; the two
/// cumulative counters must be equal and the custodied token balance
/// exactly zero, else `VaultNotEmpty`.  `Ok` licenses the host to release
/// the record and return its storage reservation to the authority; the
/// decision itself mutates nothing.  Depositor records are not cleaned up
/// by closure: a balanced vault implies every depositor record is itself
/// balanced, and the records are retained.
pub fn close_vault(
    vault_address: &Address,
    vault: &Vault,
    caller: &Address,
    vault_token: &TokenAccount,
    program_id: &Address,
) -> (r: Result<(), VaultError>)
    ensures
        r == spec_close_vault(*vault_address, *vault, *caller, *vault_token, *program_id),
{
    if !check_vault_address(vault, vault_address, program_id) {
        return Err(VaultError::VaultNotFound);
    }
    if !address_eq(caller, &vault.authority) {
        return Err(VaultError::Unauthorized);
    }
    if !address_eq(&vault_token.owner, vault_address) {
        return Err(VaultError::TokenAccountMismatch);
    }
    if vault.net_deposits != vault.net_withdraws {
        return Err(VaultError::VaultNotEmpty);
    }
    if vault_token.amount != 0 {
        return Err(VaultError::VaultNotEmpty);
    }
    Ok(())
}

} // verus!
