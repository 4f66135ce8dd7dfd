use vault_core::address::Address;
use vault_core::address::derive_user_address;
use vault_core::errors::VaultError;
use vault_core::operations::close_vault;
use vault_core::operations::create_vault;
use vault_core::operations::deposit;
use vault_core::operations::withdraw;
use vault_core::state::TokenAccount;
use vault_core::state::User;
use vault_core::state::Vault;

fn program_id() -> Address {
    Address { bytes: [7u8; 32] }
}

fn authority() -> Address {
    Address { bytes: [2u8; 32] }
}

fn depositor() -> Address {
    Address { bytes: [3u8; 32] }
}

fn fresh_vault(name: &[u8]) -> (Vault, Address) {
    create_vault(name.to_vec(), authority(), false, 1_700_000_000, &program_id()).expect("create")
}

fn user_pda_for(vault_address: &Address) -> (Address, u8) {
    derive_user_address(vault_address, &depositor(), &program_id()).expect("derivation")
}

#[test]
fn create_vault_zeroes_counters() {
    let (vault, _address) = fresh_vault(b"treasury");
    assert_eq!(vault.net_deposits, 0);
    assert_eq!(vault.net_withdraws, 0);
    assert_eq!(vault.authority, authority());
    assert_eq!(vault.name, b"treasury".to_vec());
    assert_eq!(vault.ts, 1_700_000_000);
}

#[test]
fn create_vault_rejects_empty_name() {
    let r = create_vault(Vec::new(), authority(), false, 0, &program_id());
    assert_eq!(r, Err(VaultError::InvalidVaultName));
}

#[test]
fn create_vault_rejects_oversized_name() {
    let r = create_vault(vec![b'x'; 33], authority(), false, 0, &program_id());
    assert_eq!(r, Err(VaultError::InvalidVaultName));
}

#[test]
fn create_vault_rejects_occupied_address() {
    let r = create_vault(b"treasury".to_vec(), authority(), true, 0, &program_id());
    assert_eq!(r, Err(VaultError::VaultAlreadyExists));
}

#[test]
fn deposit_records_amount() {
    // create vault "treasury", deposit 1_000_000 from the depositor
    let (mut vault, vault_address) = fresh_vault(b"treasury");
    let mut user: Option<User> = None;
    let mut user_token = TokenAccount { owner: depositor(), amount: 5_000_000 };
    let mut vault_token = TokenAccount { owner: vault_address, amount: 0 };
    let (user_address, user_bump) = user_pda_for(&vault_address);
    let r = deposit(
        &vault_address,
        &mut vault,
        &mut user,
        user_bump,
        &user_address,
        &mut user_token,
        &mut vault_token,
        &depositor(),
        1_000_000,
        1_700_000_100,
        &program_id(),
    );
    assert_eq!(r, Ok(()));
    assert_eq!(vault.net_deposits, 1_000_000);
    assert_eq!(vault.net_withdraws, 0);
    let user = user.expect("record created on first deposit");
    assert_eq!(user.net_deposit, 1_000_000);
    assert_eq!(user.net_withdraw, 0);
    assert_eq!(user.authority, depositor());
    assert_eq!(user.vault, vault_address);
    assert_eq!(user.ts, 1_700_000_100);
    assert_eq!(user_token.amount, 4_000_000);
    assert_eq!(vault_token.amount, 1_000_000);
}

#[test]
fn deposit_zero_amount_changes_nothing() {
    let (mut vault, vault_address) = fresh_vault(b"treasury");
    let vault_before = vault.clone();
    let mut user: Option<User> = None;
    let mut user_token = TokenAccount { owner: depositor(), amount: 500 };
    let mut vault_token = TokenAccount { owner: vault_address, amount: 0 };
    let (user_address, user_bump) = user_pda_for(&vault_address);
    let r = deposit(
        &vault_address,
        &mut vault,
        &mut user,
        user_bump,
        &user_address,
        &mut user_token,
        &mut vault_token,
        &depositor(),
        0,
        1,
        &program_id(),
    );
    assert_eq!(r, Err(VaultError::InvalidAmount));
    assert_eq!(vault, vault_before);
    assert_eq!(user, None);
    assert_eq!(user_token, TokenAccount { owner: depositor(), amount: 500 });
    assert_eq!(vault_token, TokenAccount { owner: vault_address, amount: 0 });
}

#[test]
fn deposit_overflow_is_atomic() {
    // a deposit whose ledger update would overflow leaves every record and
    // balance exactly as it was
    let (mut vault, vault_address) = fresh_vault(b"treasury");
    vault.net_deposits = 600;
    vault.net_withdraws = 100;
    let vault_before = vault.clone();
    let (user_address, bump) = user_pda_for(&vault_address);
    let mut user = Some(User {
        bump,
        authority: depositor(),
        ts: 5,
        vault: vault_address,
        net_deposit: u64::MAX,
        net_withdraw: 0,
    });
    let user_before = user;
    let mut user_token = TokenAccount { owner: depositor(), amount: 1_000 };
    let mut vault_token = TokenAccount { owner: vault_address, amount: 77 };
    let r = deposit(
        &vault_address,
        &mut vault,
        &mut user,
        bump,
        &user_address,
        &mut user_token,
        &mut vault_token,
        &depositor(),
        1,
        6,
        &program_id(),
    );
    assert_eq!(r, Err(VaultError::Overflow));
    assert_eq!(vault, vault_before);
    assert_eq!(user, user_before);
    assert_eq!(user_token, TokenAccount { owner: depositor(), amount: 1_000 });
    assert_eq!(vault_token, TokenAccount { owner: vault_address, amount: 77 });
}

#[test]
fn deposit_rejects_foreign_token_account() {
    let (mut vault, vault_address) = fresh_vault(b"treasury");
    let mut user: Option<User> = None;
    let stranger = Address { bytes: [9u8; 32] };
    let mut user_token = TokenAccount { owner: stranger, amount: 500 };
    let mut vault_token = TokenAccount { owner: vault_address, amount: 0 };
    let (user_address, user_bump) = user_pda_for(&vault_address);
    let r = deposit(
        &vault_address,
        &mut vault,
        &mut user,
        user_bump,
        &user_address,
        &mut user_token,
        &mut vault_token,
        &depositor(),
        5,
        1,
        &program_id(),
    );
    assert_eq!(r, Err(VaultError::TokenAccountMismatch));
}

#[test]
fn deposit_rejects_mismatched_vault_address() {
    let (mut vault, _vault_address) = fresh_vault(b"treasury");
    let wrong = Address { bytes: [8u8; 32] };
    let mut user: Option<User> = None;
    let mut user_token = TokenAccount { owner: depositor(), amount: 500 };
    let mut vault_token = TokenAccount { owner: wrong, amount: 0 };
    let r = deposit(
        &wrong,
        &mut vault,
        &mut user,
        0,
        &wrong,
        &mut user_token,
        &mut vault_token,
        &depositor(),
        5,
        1,
        &program_id(),
    );
    assert_eq!(r, Err(VaultError::VaultNotFound));
}

#[test]
fn deposit_covered_by_depositor_balance_only() {
    let (mut vault, vault_address) = fresh_vault(b"treasury");
    let mut user: Option<User> = None;
    let mut user_token = TokenAccount { owner: depositor(), amount: 4 };
    let mut vault_token = TokenAccount { owner: vault_address, amount: 0 };
    let (user_address, user_bump) = user_pda_for(&vault_address);
    let r = deposit(
        &vault_address,
        &mut vault,
        &mut user,
        user_bump,
        &user_address,
        &mut user_token,
        &mut vault_token,
        &depositor(),
        5,
        1,
        &program_id(),
    );
    assert_eq!(r, Err(VaultError::InsufficientFunds));
    assert_eq!(user, None);
    assert_eq!(user_token.amount, 4);
}

#[test]
fn withdraw_rejects_exhausted_balance() {
    // net_deposit == net_withdraw == 100: one more unit is not covered
    let (mut vault, vault_address) = fresh_vault(b"treasury");
    vault.net_deposits = 100;
    vault.net_withdraws = 0;
    let (user_address, bump) = user_pda_for(&vault_address);
    let mut user = Some(User {
        bump,
        authority: depositor(),
        ts: 5,
        vault: vault_address,
        net_deposit: 100,
        net_withdraw: 100,
    });
    let user_before = user;
    let mut user_token = TokenAccount { owner: depositor(), amount: 0 };
    let mut vault_token = TokenAccount { owner: vault_address, amount: 100 };
    let r = withdraw(
        &vault_address,
        &mut vault,
        &mut user,
        &user_address,
        &mut user_token,
        &mut vault_token,
        &depositor(),
        1,
        6,
        &program_id(),
    );
    assert_eq!(r, Err(VaultError::InsufficientFunds));
    assert_eq!(user, user_before);
    assert_eq!(vault_token.amount, 100);
    assert_eq!(user_token.amount, 0);
}

#[test]
fn withdraw_moves_amount_back() {
    let (mut vault, vault_address) = fresh_vault(b"treasury");
    vault.net_deposits = 1_000;
    let (user_address, bump) = user_pda_for(&vault_address);
    let mut user = Some(User {
        bump,
        authority: depositor(),
        ts: 5,
        vault: vault_address,
        net_deposit: 1_000,
        net_withdraw: 0,
    });
    let mut user_token = TokenAccount { owner: depositor(), amount: 0 };
    let mut vault_token = TokenAccount { owner: vault_address, amount: 1_000 };
    let r = withdraw(
        &vault_address,
        &mut vault,
        &mut user,
        &user_address,
        &mut user_token,
        &mut vault_token,
        &depositor(),
        400,
        9,
        &program_id(),
    );
    assert_eq!(r, Ok(()));
    assert_eq!(vault.net_withdraws, 400);
    let user = user.expect("record");
    assert_eq!(user.net_withdraw, 400);
    assert_eq!(user.ts, 9);
    assert_eq!(user_token.amount, 400);
    assert_eq!(vault_token.amount, 600);
}

#[test]
fn withdraw_without_record_is_user_not_found() {
    let (mut vault, vault_address) = fresh_vault(b"treasury");
    let mut user: Option<User> = None;
    let mut user_token = TokenAccount { owner: depositor(), amount: 0 };
    let mut vault_token = TokenAccount { owner: vault_address, amount: 100 };
    let (user_address, _) = user_pda_for(&vault_address);
    let r = withdraw(
        &vault_address,
        &mut vault,
        &mut user,
        &user_address,
        &mut user_token,
        &mut vault_token,
        &depositor(),
        1,
        6,
        &program_id(),
    );
    assert_eq!(r, Err(VaultError::UserNotFound));
}

#[test]
fn close_balanced_vault_by_authority() {
    let (mut vault, vault_address) = fresh_vault(b"treasury");
    vault.net_deposits = 500;
    vault.net_withdraws = 500;
    let vault_token = TokenAccount { owner: vault_address, amount: 0 };
    let r = close_vault(&vault_address, &vault, &authority(), &vault_token, &program_id());
    assert_eq!(r, Ok(()));
}

#[test]
fn close_by_stranger_is_unauthorized() {
    let (mut vault, vault_address) = fresh_vault(b"treasury");
    vault.net_deposits = 500;
    vault.net_withdraws = 500;
    let vault_token = TokenAccount { owner: vault_address, amount: 0 };
    let stranger = Address { bytes: [11u8; 32] };
    let r = close_vault(&vault_address, &vault, &stranger, &vault_token, &program_id());
    assert_eq!(r, Err(VaultError::Unauthorized));
}

#[test]
fn close_with_unequal_counters_is_not_empty() {
    let (mut vault, vault_address) = fresh_vault(b"treasury");
    vault.net_deposits = 500;
    vault.net_withdraws = 400;
    let vault_token = TokenAccount { owner: vault_address, amount: 0 };
    let r = close_vault(&vault_address, &vault, &authority(), &vault_token, &program_id());
    assert_eq!(r, Err(VaultError::VaultNotEmpty));
}

#[test]
fn close_with_custodied_balance_is_not_empty() {
    let (vault, vault_address) = fresh_vault(b"treasury");
    let vault_token = TokenAccount { owner: vault_address, amount: 1 };
    let r = close_vault(&vault_address, &vault, &authority(), &vault_token, &program_id());
    assert_eq!(r, Err(VaultError::VaultNotEmpty));
}

#[test]
fn deposit_rejects_mismatched_user_address() {
    let (mut vault, vault_address) = fresh_vault(b"treasury");
    let mut user: Option<User> = None;
    let mut user_token = TokenAccount { owner: depositor(), amount: 500 };
    let mut vault_token = TokenAccount { owner: vault_address, amount: 0 };
    let (_, user_bump) = user_pda_for(&vault_address);
    let wrong = Address { bytes: [13u8; 32] };
    let r = deposit(
        &vault_address,
        &mut vault,
        &mut user,
        user_bump,
        &wrong,
        &mut user_token,
        &mut vault_token,
        &depositor(),
        5,
        1,
        &program_id(),
    );
    assert_eq!(r, Err(VaultError::UserNotFound));
    assert_eq!(user, None);
}

#[test]
fn deposit_accumulates_on_existing_record() {
    let (mut vault, vault_address) = fresh_vault(b"treasury");
    let mut user: Option<User> = None;
    let mut user_token = TokenAccount { owner: depositor(), amount: 1_000 };
    let mut vault_token = TokenAccount { owner: vault_address, amount: 0 };
    let (user_address, user_bump) = user_pda_for(&vault_address);
    for _ in 0..2 {
        let r = deposit(
            &vault_address,
            &mut vault,
            &mut user,
            user_bump,
            &user_address,
            &mut user_token,
            &mut vault_token,
            &depositor(),
            300,
            10,
            &program_id(),
        );
        assert_eq!(r, Ok(()));
    }
    assert_eq!(vault.net_deposits, 600);
    assert_eq!(user.expect("record").net_deposit, 600);
    assert_eq!(user_token.amount, 400);
    assert_eq!(vault_token.amount, 600);
}

#[test]
fn deposit_rejects_wrong_stored_bump() {
    // a vault record whose stored nonce does not re-derive the supplied
    // address is treated as not found
    let (mut vault, vault_address) = fresh_vault(b"treasury");
    vault.bump = vault.bump.wrapping_add(1);
    let mut user: Option<User> = None;
    let mut user_token = TokenAccount { owner: depositor(), amount: 500 };
    let mut vault_token = TokenAccount { owner: vault_address, amount: 0 };
    let (user_address, user_bump) = user_pda_for(&vault_address);
    let r = deposit(
        &vault_address,
        &mut vault,
        &mut user,
        user_bump,
        &user_address,
        &mut user_token,
        &mut vault_token,
        &depositor(),
        5,
        1,
        &program_id(),
    );
    assert_eq!(r, Err(VaultError::VaultNotFound));
}
