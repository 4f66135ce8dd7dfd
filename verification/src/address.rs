//! Deterministic address derivation.
//!
//! Every persistent record of the vault core lives at an address computed
//! from a namespace tag and the record's key parts, so that any party can
//! re-derive the address from stated inputs and verify that a referenced
//! record is the one it claims to be.  Two namespaces exist: `"vault"`,
//! keyed by the vault's name, and `"user"`, keyed by the vault's address and
//! the depositor's identity.  The derivation itself is performed by the host
//! platform's program-derived-address search; this module names its result
//! and exposes it over plain byte values.
use vstd::prelude::*;

verus! {

/// A storage address: 32 bytes identifying one account of the host platform.
#[derive(Clone, Copy, Debug, PartialEq, Eq)]
pub struct Address {
    pub bytes: [u8; 32],
}

impl View for Address {
    type V = Seq<u8>;

    open spec fn view(&self) -> Seq<u8> {
        self.bytes@
    }
}

/// Equality of two addresses, byte for byte.
pub fn address_eq(a: &Address, b: &Address) -> (r: bool)
    ensures
        r <==> a@ == b@,
{
    let mut i: usize = 0;
    while i < 32
        invariant
            i <= 32,
            forall|j: int| 0 <= j < i ==> a.bytes@[j] == b.bytes@[j],
        decreases 32 - i,
    {
        if a.bytes[i] != b.bytes[i] {
            assert(a@ != b@);
            return false;
        }
        i += 1;
    }
    proof {
        assert(a@ =~= b@);
    }
    true
}

/// What the host's program-derived-address search returns for a seed list
/// and a program identity: either the derived address with its bump seed, or
/// nothing when no viable bump exists.  The result is a function of the two
/// arguments alone.
pub uninterp spec fn pda_of(seeds: Seq<Seq<u8>>, program_id: Seq<u8>) -> Option<(Seq<u8>, u8)>;

/// Relies on solana_program's Pubkey::try_find_program_address: a
/// deterministic search over the seed list and program identity alone,
/// returning the derived address and bump seed, or None when no viable bump
/// exists.  The search starts at the highest bump value and accepts the
/// first viable candidate, so one fixed canonical result exists for every
/// input.  Unlike find_program_address it never panics.
#[verifier::external_body]
fn find_pda(seeds: &Vec<Vec<u8>>, program_id: &Address) -> (r: Option<(Address, u8)>)
    ensures
        (match r {
            Some(p) => pda_of(seeds@.map_values(|s: Vec<u8>| s@), program_id@) == Some((p.0@, p.1)),
            None => pda_of(seeds@.map_values(|s: Vec<u8>| s@), program_id@) is None,
        }),
{
    let refs: Vec<&[u8]> = seeds.iter().map(|s| s.as_slice()).collect();
    let pk = solana_program::pubkey::Pubkey::new_from_array(program_id.bytes);
    solana_program::pubkey::Pubkey::try_find_program_address(&refs, &pk)
        .map(|(a, b)| (Address { bytes: a.to_bytes() }, b))
}

/// The namespace tag of the vault namespace: the bytes of `"vault"`.
pub open spec fn spec_vault_tag() -> Seq<u8> {
    seq![118u8, 97u8, 117u8, 108u8, 116u8]
}

/// The namespace tag of the depositor namespace: the bytes of `"user"`.
pub open spec fn spec_user_tag() -> Seq<u8> {
    seq![117u8, 115u8, 101u8, 114u8]
}

/// The canonical seed list of a vault's address: the namespace tag and the
/// vault's name.  This is the one derivation scheme used by every operation.
pub open spec fn vault_seeds(name: Seq<u8>) -> Seq<Seq<u8>> {
    seq![spec_vault_tag(), name]
}

/// The canonical seed list of a depositor record's address: the namespace
/// tag, the owning vault's address, and the depositor's identity.
pub open spec fn user_seeds(vault: Seq<u8>, depositor: Seq<u8>) -> Seq<Seq<u8>> {
    seq![spec_user_tag(), vault, depositor]
}

fn vault_tag() -> (r: Vec<u8>)
    ensures
        r@ == spec_vault_tag(),
{
    let mut v: Vec<u8> = Vec::new();
    v.push(118u8);
    v.push(97u8);
    v.push(117u8);
    v.push(108u8);
    v.push(116u8);
    proof {
        assert(v@ =~= spec_vault_tag());
    }
    v
}

fn user_tag() -> (r: Vec<u8>)
    ensures
        r@ == spec_user_tag(),
{
    let mut v: Vec<u8> = Vec::new();
    v.push(117u8);
    v.push(115u8);
    v.push(101u8);
    v.push(114u8);
    proof {
        assert(v@ =~= spec_user_tag());
    }
    v
}

fn copy_bytes(src: &Vec<u8>) -> (r: Vec<u8>)
    ensures
        r@ == src@,
{
    let mut r: Vec<u8> = Vec::new();
    let mut i: usize = 0;
    while i < src.len()
        invariant
            i <= src.len(),
            r@ == src@.subrange(0, i as int),
        decreases src.len() - i,
    {
        r.push(src[i]);
        proof {
            assert(r@ =~= src@.subrange(0, i + 1));
        }
        i += 1;
    }
    proof {
        assert(r@ =~= src@);
    }
    r
}

fn address_bytes(a: &Address) -> (r: Vec<u8>)
    ensures
        r@ == a@,
{
    let mut r: Vec<u8> = Vec::new();
    let mut i: usize = 0;
    while i < 32
        invariant
            i <= 32,
            r@ == a.bytes@.subrange(0, i as int),
        decreases 32 - i,
    {
        r.push(a.bytes[i]);
        proof {
            assert(r@ =~= a.bytes@.subrange(0, i + 1));
        }
        i += 1;
    }
    proof {
        assert(r@ =~= a.bytes@);
    }
    r
}

/// Derive the address of the vault named `name`: the result is exactly what
/// the host's search yields for the canonical vault seed list.
pub fn derive_vault_address(name: &Vec<u8>, program_id: &Address) -> (r: Option<(Address, u8)>)
    ensures
        (match r {
            Some(p) => pda_of(vault_seeds(name@), program_id@) == Some((p.0@, p.1)),
            None => pda_of(vault_seeds(name@), program_id@) is None,
        }),
{
    let mut seeds: Vec<Vec<u8>> = Vec::new();
    seeds.push(vault_tag());
    seeds.push(copy_bytes(name));
    proof {
        assert(seeds@.map_values(|s: Vec<u8>| s@) =~~= vault_seeds(name@));
    }
    find_pda(&seeds, program_id)
}

/// Derive the address of the record of depositor `depositor` against the
/// vault at `vault`.
pub fn derive_user_address(vault: &Address, depositor: &Address, program_id: &Address) -> (r:
    Option<(Address, u8)>)
    ensures
        (match r {
            Some(p) => pda_of(user_seeds(vault@, depositor@), program_id@) == Some((p.0@, p.1)),
            None => pda_of(user_seeds(vault@, depositor@), program_id@) is None,
        }),
{
    let mut seeds: Vec<Vec<u8>> = Vec::new();
    seeds.push(user_tag());
    seeds.push(address_bytes(vault));
    seeds.push(address_bytes(depositor));
    proof {
        assert(seeds@.map_values(|s: Vec<u8>| s@) =~~= user_seeds(vault@, depositor@));
    }
    find_pda(&seeds, program_id)
}

/// Law: address derivation is idempotent.  Deriving the vault namespace
/// twice from the same name and program identity yields the same address
/// and bump.
pub proof fn lemma_vault_derivation_idempotent(
    name1: Seq<u8>,
    name2: Seq<u8>,
    program_id: Seq<u8>,
)
    requires
        name1 == name2,
    ensures
        pda_of(vault_seeds(name1), program_id) == pda_of(vault_seeds(name2), program_id),
{
}

/// Law: address derivation is idempotent in the depositor namespace too.
pub proof fn lemma_user_derivation_idempotent(
    vault1: Seq<u8>,
    vault2: Seq<u8>,
    depositor1: Seq<u8>,
    depositor2: Seq<u8>,
    program_id: Seq<u8>,
)
    requires
        vault1 == vault2,
        depositor1 == depositor2,
    ensures
        pda_of(user_seeds(vault1, depositor1), program_id) == pda_of(
            user_seeds(vault2, depositor2),
            program_id,
        ),
{
}

} // verus!
