//! Error taxonomy of the vault core.
//!
//! Every failed operation reports exactly one of these kinds and leaves all
//! records and balances untouched.
use vstd::prelude::*;

verus! {

/// The terminal error kinds of the vault operation set.
#[derive(Clone, Copy, Debug, PartialEq, Eq, Structural)]
pub enum VaultError {
    /// Closing a vault whose counters differ or whose custodied balance is nonzero.
    VaultNotEmpty,
    /// A withdrawal exceeds the available net deposit, or a transfer could not
    /// be covered by the paying balance, or a computed withdrawal fraction is zero.
    InsufficientFunds,
    /// A zero amount was supplied where a positive one is required.
    InvalidAmount,
    /// A ledger counter or a balance would exceed its width.
    Overflow,
    /// The caller of a privileged operation is not the recorded authority.
    Unauthorized,
    /// An empty or oversized vault name.
    InvalidVaultName,
    /// The derived vault address is already occupied at creation.
    VaultAlreadyExists,
    /// A depositor record referenced by an operation does not exist.
    UserNotFound,
    /// A vault record referenced by an operation does not exist, or the
    /// supplied address does not match the canonical derivation.
    VaultNotFound,
    /// A supplied balance-holding account's recorded owner is not the expected party.
    TokenAccountMismatch,
    /// Reserved for a configurable per-vault deposit ceiling.
    DepositLimitExceeded,
    /// Reserved for a configurable per-period withdrawal ceiling.
    WithdrawalLimitExceeded,
    /// Catch-all policy denial.
    OperationNotAllowed,
}

/// The ways a raw instruction buffer can fail to decode.
#[derive(Clone, Copy, Debug, PartialEq, Eq, Structural)]
pub enum DecodeError {
    /// The buffer ends before the operation's fixed-width payload does.
    Truncated,
    /// The leading tag byte names no operation.
    UnknownTag,
    /// Well-formed operation followed by extra bytes.
    TrailingBytes,
}

/// Failure of a full instruction-processing step: either the buffer did not
/// decode, or the decoded operation itself was refused.
#[derive(Clone, Copy, Debug, PartialEq, Eq, Structural)]
pub enum ProcessError {
    Decode(DecodeError),
    Vault(VaultError),
}

} // verus!
