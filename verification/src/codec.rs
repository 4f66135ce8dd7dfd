//! The instruction codec: a raw byte buffer in, a typed operation out.
//!
//! The wire format is fixed-width and little-endian.  One leading tag byte
//! selects the operation: `0` initializes the ledger, `1` deposits and is
//! followed by exactly eight bytes holding the unsigned amount, `2`
//! withdraws.  Anything else — an empty buffer, a payload cut short, an
//! unknown tag, or trailing bytes after a complete operation — is rejected,
//! never silently defaulted.
use vstd::prelude::*;

use crate::errors::DecodeError;
use vstd::bytes::lemma_auto_spec_u64_to_from_le_bytes;
use vstd::bytes::spec_u64_from_le_bytes;
use vstd::bytes::spec_u64_to_le_bytes;
use vstd::bytes::u64_from_le_bytes;
use vstd::bytes::u64_to_le_bytes;

verus! {

/// The closed set of operations a buffer can decode to.
#[derive(Clone, Copy, Debug, PartialEq, Eq, Structural)]
pub enum VaultInstruction {
    /// Deposit the carried amount.
    DepositInstruction(u64),
    /// Withdraw the system-computed fraction of the ledger total.
    WithdrawalInstruction,
    /// Create and zero the ledger.
    Initialize,
}

/// The byte sequence that encodes one operation.
pub open spec fn spec_encode(op: VaultInstruction) -> Seq<u8> {
    match op {
        VaultInstruction::Initialize => seq![0u8],
        VaultInstruction::DepositInstruction(amount) => seq![1u8] + spec_u64_to_le_bytes(amount),
        VaultInstruction::WithdrawalInstruction => seq![2u8],
    }
}

/// The operation a byte sequence decodes to, or the exact reason it is
/// rejected.  Total: every buffer is either one well-formed operation or
/// exactly one kind of malformed.
pub open spec fn spec_decode(s: Seq<u8>) -> Result<VaultInstruction, DecodeError> {
    if s.len() == 0 {
        Err(DecodeError::Truncated)
    } else if s[0] == 0 {
        if s.len() == 1 {
            Ok(VaultInstruction::Initialize)
        } else {
            Err(DecodeError::TrailingBytes)
        }
    } else if s[0] == 1 {
        if s.len() < 9 {
            Err(DecodeError::Truncated)
        } else if s.len() == 9 {
            Ok(VaultInstruction::DepositInstruction(spec_u64_from_le_bytes(s.subrange(1, 9))))
        } else {
            Err(DecodeError::TrailingBytes)
        }
    } else if s[0] == 2 {
        if s.len() == 1 {
            Ok(VaultInstruction::WithdrawalInstruction)
        } else {
            Err(DecodeError::TrailingBytes)
        }
    } else {
        Err(DecodeError::UnknownTag)
    }
}

/// Decode a raw instruction buffer into its operation, rejecting truncated
/// buffers, unknown tags and trailing bytes.
pub fn decode(data: &[u8]) -> (r: Result<VaultInstruction, DecodeError>)
    ensures
        r == spec_decode(data@),
{
    if data.len() == 0 {
        return Err(DecodeError::Truncated);
    }
    let tag = data[0];
    if tag == 0 {
        if data.len() == 1 {
            Ok(VaultInstruction::Initialize)
        } else {
            Err(DecodeError::TrailingBytes)
        }
    } else if tag == 1 {
        if data.len() < 9 {
            Err(DecodeError::Truncated)
        } else if data.len() > 9 {
            Err(DecodeError::TrailingBytes)
        } else {
            let mut payload: Vec<u8> = Vec::new();
            let mut i: usize = 1;
            while i < 9
                invariant
                    1 <= i <= 9,
                    data@.len() == 9,
                    payload@ == data@.subrange(1, i as int),
                decreases 9 - i,
            {
                payload.push(data[i]);
                proof {
                    assert(payload@ =~= data@.subrange(1, i + 1));
                }
                i += 1;
            }
            let amount = u64_from_le_bytes(payload.as_slice());
            Ok(VaultInstruction::DepositInstruction(amount))
        }
    } else if tag == 2 {
        if data.len() == 1 {
            Ok(VaultInstruction::WithdrawalInstruction)
        } else {
            Err(DecodeError::TrailingBytes)
        }
    } else {
        Err(DecodeError::UnknownTag)
    }
}

/// Encode an operation into the byte sequence that decodes back to it.
pub fn encode(op: &VaultInstruction) -> (r: Vec<u8>)
    ensures
        r@ == spec_encode(*op),
{
    match op {
        VaultInstruction::Initialize => {
            let mut v: Vec<u8> = Vec::new();
            v.push(0u8);
            proof {
                assert(v@ =~= spec_encode(*op));
            }
            v
        },
        VaultInstruction::WithdrawalInstruction => {
            let mut v: Vec<u8> = Vec::new();
            v.push(2u8);
            proof {
                assert(v@ =~= spec_encode(*op));
            }
            v
        },
        VaultInstruction::DepositInstruction(amount) => {
            let mut v: Vec<u8> = Vec::new();
            v.push(1u8);
            let payload = u64_to_le_bytes(*amount);
            let mut i: usize = 0;
            while i < payload.len()
                invariant
                    i <= payload.len(),
                    payload@.len() == 8,
                    v@ == seq![1u8] + payload@.subrange(0, i as int),
                decreases payload@.len() - i,
            {
                v.push(payload[i]);
                proof {
                    assert(v@ =~= seq![1u8] + payload@.subrange(0, i + 1));
                }
                i += 1;
            }
            proof {
                assert(payload@.subrange(0, 8) =~= payload@);
                assert(v@ =~= spec_encode(*op));
            }
            v
        },
    }
}

/// Law: the codec round-trips.  Decoding the encoding of any operation
/// yields that operation back, for every variant and every amount.
pub proof fn lemma_encode_decode_round_trip(op: VaultInstruction)
    ensures
        spec_decode(spec_encode(op)) == Ok::<VaultInstruction, DecodeError>(op),
{
    lemma_auto_spec_u64_to_from_le_bytes();
    match op {
        VaultInstruction::DepositInstruction(amount) => {
            assert(spec_encode(op).len() == 9);
            assert(spec_encode(op)[0] == 1);
            assert(spec_encode(op).subrange(1, 9) =~= spec_u64_to_le_bytes(amount));
        },
        VaultInstruction::Initialize => {
        },
        VaultInstruction::WithdrawalInstruction => {
        },
    }
}

} // verus!
