//! The aggregate ledger variant: a single cumulative counter held directly
//! in a raw account buffer, with native balances moved in place.
//!
//! The buffer's first eight bytes hold the little-endian total ever
//! deposited; the rest of the buffer is never touched.  A typed accessor
//! pair reads and rewrites that region in explicit read/modify/write steps.
//! The withdraw path pays out a fixed fraction — one tenth, rounded down —
//! of the recorded total, and deliberately checks no caller identity: any
//! caller able to name the deposit account and a recipient may trigger it,
//! exactly as the permissive design has it.
use vstd::prelude::*;

use crate::codec::VaultInstruction;
use crate::codec::decode;
use crate::codec::spec_decode;
use crate::errors::ProcessError;
use crate::errors::VaultError;
use vstd::bytes::lemma_auto_spec_u64_to_from_le_bytes;
use vstd::bytes::spec_u64_from_le_bytes;
use vstd::bytes::spec_u64_to_le_bytes;
use vstd::bytes::u64_from_le_bytes;
use vstd::bytes::u64_to_le_bytes;

verus! {

/// The account holding the aggregate ledger: its raw data buffer and its
/// native balance.
#[derive(Clone, Debug, PartialEq, Eq)]
pub struct LedgerAccount {
    /// Raw buffer; the first eight bytes record the total deposited.
    pub data: Vec<u8>,
    /// Native balance custodied by the account.
    pub lamports: u64,
}

impl LedgerAccount {
    /// The buffer is large enough to hold the counter.
    pub open spec fn wf(self) -> bool {
        self.data@.len() >= 8
    }

    /// The total ever deposited, as recorded in the buffer.
    pub open spec fn total(self) -> u64 {
        spec_ledger_total(self.data@)
    }
}

/// The counter a raw buffer records: its first eight bytes, little-endian.
pub open spec fn spec_ledger_total(data: Seq<u8>) -> u64 {
    spec_u64_from_le_bytes(data.subrange(0, 8))
}

/// The same buffer with its counter region rewritten to `v`.
pub open spec fn spec_store_total(data: Seq<u8>, v: u64) -> Seq<u8> {
    spec_u64_to_le_bytes(v) + data.skip(8)
}

fn read_total(data: &Vec<u8>) -> (r: u64)
    requires
        data@.len() >= 8,
    ensures
        r == spec_ledger_total(data@),
{
    let mut head: Vec<u8> = Vec::new();
    let mut i: usize = 0;
    while i < 8
        invariant
            i <= 8,
            data@.len() >= 8,
            head@ == data@.subrange(0, i as int),
        decreases 8 - i,
    {
        head.push(data[i]);
        proof {
            assert(head@ =~= data@.subrange(0, i + 1));
        }
        i += 1;
    }
    u64_from_le_bytes(head.as_slice())
}

fn write_total(data: &mut Vec<u8>, v: u64)
    requires
        old(data)@.len() >= 8,
    ensures
        final(data)@ == spec_store_total(old(data)@, v),
        final(data)@.len() == old(data)@.len(),
{
    let bytes = u64_to_le_bytes(v);
    let mut i: usize = 0;
    while i < 8
        invariant
            i <= 8,
            bytes@ == spec_u64_to_le_bytes(v),
            bytes@.len() == 8,
            data@.len() == old(data)@.len() >= 8,
            forall|j: int| 0 <= j < i ==> data@[j] == bytes@[j],
            forall|j: int| i <= j < data@.len() ==> data@[j] == old(data)@[j],
        decreases 8 - i,
    {
        data[i] = bytes[i];
        i += 1;
    }
    proof {
        assert(data@ =~= spec_store_total(old(data)@, v));
    }
}

/// Zero the ledger: the counter region is rewritten to zero and nothing
/// else — neither the rest of the buffer nor the account's balance — moves.
/// The host allocates the account itself; this is the initialization of its
/// contents.
pub fn initialize(account: &mut LedgerAccount)
    requires
        old(account).wf(),
    ensures
        final(account).wf(),
        final(account).data@ == spec_store_total(old(account).data@, 0),
        final(account).total() == 0,
        final(account).lamports == old(account).lamports,
{
    write_total(&mut account.data, 0);
    proof {
        lemma_auto_spec_u64_to_from_le_bytes();
        assert(final(account).data@.subrange(0, 8) =~= spec_u64_to_le_bytes(0u64));
    }
}

/// The outcome of an aggregate deposit over plain values: the payer's
/// balance, the buffer and the account balance after, or the exact error.
pub open spec fn spec_ledger_deposit(payer: u64, data: Seq<u8>, lamports: u64, amount: u64) -> Result<
    (u64, Seq<u8>, u64),
    VaultError,
> {
    if amount == 0 {
        Err(VaultError::InvalidAmount)
    } else if payer < amount {
        Err(VaultError::InsufficientFunds)
    } else if lamports + amount > u64::MAX {
        Err(VaultError::Overflow)
    } else if spec_ledger_total(data) + amount > u64::MAX {
        Err(VaultError::Overflow)
    } else {
        Ok(
            (
                (payer - amount) as u64,
                spec_store_total(data, (spec_ledger_total(data) + amount) as u64),
                (lamports + amount) as u64,
            ),
        )
    }
}

/// Deposit `amount` of native balance into the ledger account.
///
/// The amount must be positive, the payer's balance must cover it — a
/// transfer it cannot cover aborts with `InsufficientFunds` — and neither
/// the account's balance nor the recorded total may exceed its width.  On
/// success the amount moves from the payer to the account and the recorded
/// total grows by it; on any error both balances and the buffer are
/// unchanged.
pub fn deposit(payer_lamports: &mut u64, account: &mut LedgerAccount, amount: u64) -> (r: Result<
    (),
    VaultError,
>)
    requires
        old(account).wf(),
    ensures
        (match spec_ledger_deposit(
            *old(payer_lamports),
            old(account).data@,
            old(account).lamports,
            amount,
        ) {
            Ok(t) => r is Ok && *final(payer_lamports) == t.0 && final(account).data@ == t.1
                && final(account).lamports == t.2,
            Err(e) => r == Err::<(), VaultError>(e),
        }),
        r is Err ==> *final(payer_lamports) == *old(payer_lamports) && *final(account) == *old(account),
        final(account).wf(),
{
    if amount == 0 {
        return Err(VaultError::InvalidAmount);
    }
    if *payer_lamports < amount {
        return Err(VaultError::InsufficientFunds);
    }
    if amount > u64::MAX - account.lamports {
        return Err(VaultError::Overflow);
    }
    let total = read_total(&account.data);
    if amount > u64::MAX - total {
        return Err(VaultError::Overflow);
    }
    *payer_lamports = *payer_lamports - amount;
    account.lamports = account.lamports + amount;
    write_total(&mut account.data, total + amount);
    Ok(())
}

/// The outcome of an aggregate withdrawal over plain values: the buffer,
/// the account balance and the recipient's balance after, or the exact
/// error.  The amount paid out is one tenth of the recorded total, rounded
/// down.
pub open spec fn spec_ledger_withdraw(data: Seq<u8>, lamports: u64, recipient: u64) -> Result<
    (Seq<u8>, u64, u64),
    VaultError,
> {
    let w = spec_ledger_total(data) / 10;
    if w == 0 {
        Err(VaultError::InsufficientFunds)
    } else if lamports < w {
        Err(VaultError::InsufficientFunds)
    } else if recipient + w > u64::MAX {
        Err(VaultError::Overflow)
    } else {
        Ok(
            (
                spec_store_total(data, (spec_ledger_total(data) - w) as u64),
                (lamports - w) as u64,
                (recipient + w) as u64,
            ),
        )
    }
}

/// Withdraw one tenth of the recorded total to `recipient_lamports`.
///
/// No caller-supplied amount and no caller-identity check: the computed
/// fraction decides everything.  A zero fraction is `InsufficientFunds`; so
/// is an account balance that cannot cover the fraction.  On success the
/// fraction moves from the account to the recipient and the recorded total
/// shrinks by it; on any error both balances and the buffer are unchanged.
pub fn withdraw(account: &mut LedgerAccount, recipient_lamports: &mut u64) -> (r: Result<
    (),
    VaultError,
>)
    requires
        old(account).wf(),
    ensures
        (match spec_ledger_withdraw(
            old(account).data@,
            old(account).lamports,
            *old(recipient_lamports),
        ) {
            Ok(t) => r is Ok && final(account).data@ == t.0 && final(account).lamports == t.1
                && *final(recipient_lamports) == t.2,
            Err(e) => r == Err::<(), VaultError>(e),
        }),
        r is Err ==> *final(recipient_lamports) == *old(recipient_lamports) && *final(account)
            == *old(account),
        final(account).wf(),
{
    let total = read_total(&account.data);
    let withdrawal_amount = total / 10;
    if withdrawal_amount == 0 {
        return Err(VaultError::InsufficientFunds);
    }
    if account.lamports < withdrawal_amount {
        return Err(VaultError::InsufficientFunds);
    }
    if withdrawal_amount > u64::MAX - *recipient_lamports {
        return Err(VaultError::Overflow);
    }
    account.lamports = account.lamports - withdrawal_amount;
    *recipient_lamports = *recipient_lamports + withdrawal_amount;
    write_total(&mut account.data, total - withdrawal_amount);
    Ok(())
}

/// Decode a raw instruction buffer and run the operation it names against
/// the ledger account.
///
/// A buffer that does not decode changes nothing and reports the decode
/// error; a decoded operation behaves exactly as `initialize`, `deposit`
/// or `withdraw` does, with its error carried through.  One terminal error
/// kind per failed submission, and no partial mutation ever.
pub fn process_instruction(
    payer_lamports: &mut u64,
    account: &mut LedgerAccount,
    recipient_lamports: &mut u64,
    instruction_data: &[u8],
) -> (r: Result<(), ProcessError>)
    requires
        old(account).wf(),
    ensures
        final(account).wf(),
        (match spec_decode(instruction_data@) {
            Err(e) => r == Err::<(), ProcessError>(ProcessError::Decode(e)) && *final(account)
                == *old(account) && *final(payer_lamports) == *old(payer_lamports) && *final(recipient_lamports) == *old(recipient_lamports),
            Ok(op) => match op {
                VaultInstruction::Initialize => r is Ok && final(account).data@ == spec_store_total(
                    old(account).data@,
                    0,
                ) && final(account).lamports == old(account).lamports && *final(payer_lamports)
                    == *old(payer_lamports) && *final(recipient_lamports) == *old(recipient_lamports),
                VaultInstruction::DepositInstruction(amount) => (match spec_ledger_deposit(
                    *old(payer_lamports),
                    old(account).data@,
                    old(account).lamports,
                    amount,
                ) {
                    Ok(t) => r is Ok && *final(payer_lamports) == t.0 && final(account).data@
                        == t.1 && final(account).lamports == t.2,
                    Err(e) => r == Err::<(), ProcessError>(ProcessError::Vault(e)) && *final(account) == *old(account) && *final(payer_lamports) == *old(payer_lamports),
                }) && *final(recipient_lamports) == *old(recipient_lamports),
                VaultInstruction::WithdrawalInstruction => (match spec_ledger_withdraw(
                    old(account).data@,
                    old(account).lamports,
                    *old(recipient_lamports),
                ) {
                    Ok(t) => r is Ok && final(account).data@ == t.0 && final(account).lamports
                        == t.1 && *final(recipient_lamports) == t.2,
                    Err(e) => r == Err::<(), ProcessError>(ProcessError::Vault(e)) && *final(account) == *old(account) && *final(recipient_lamports) == *old(recipient_lamports),
                }) && *final(payer_lamports) == *old(payer_lamports),
            },
        }),
{
    let op = match decode(instruction_data) {
        Err(e) => {
            return Err(ProcessError::Decode(e));
        },
        Ok(op) => op,
    };
    match op {
        VaultInstruction::Initialize => {
            initialize(account);
            Ok(())
        },
        VaultInstruction::DepositInstruction(amount) => {
            match deposit(payer_lamports, account, amount) {
                Ok(u) => Ok(u),
                Err(e) => Err(ProcessError::Vault(e)),
            }
        },
        VaultInstruction::WithdrawalInstruction => {
            match withdraw(account, recipient_lamports) {
                Ok(u) => Ok(u),
                Err(e) => Err(ProcessError::Vault(e)),
            }
        },
    }
}

} // verus!
