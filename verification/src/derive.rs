use vstd::prelude::*;

use crate::address::Address;
use crate::error::EchoError;

verus! {

/// The derived slot address and disambiguation byte ("bump") for a given
/// program identity, authority identity and seed, or `None` when no
/// disambiguation byte in range yields a usable program-owned address.
///
/// The derivation is a pure function of its three inputs: the program identity
/// acts as a fixed namespace, and the seed slices are the literal tag
/// `"authority"`, the 32 identity bytes, and the 8 little-endian seed bytes.
pub uninterp spec fn derivation_of(program: Seq<u8>, identity: Seq<u8>, seed: u64) -> Option<
    (Seq<u8>, u8),
>;

/// Relies on `solana_program::pubkey::Pubkey::try_find_program_address`: the
/// result is a pure function of the seed slices and the program id alone
/// (a hash-based search over disambiguation bytes, largest first), a returned
/// address is 32 bytes, and `None` comes back only when no disambiguation
/// byte in range yields a usable address.
#[verifier::external_body]
fn find_slot_address(program: &Address, identity: &Address, seed: u64) -> (r: Option<(Address, u8)>)
    requires
        program.wf(),
        identity.wf(),
    ensures
        match r {
            Some(p) => derivation_of(program@, identity@, seed) == Some((p.0@, p.1)) && p.0.wf(),
            None => derivation_of(program@, identity@, seed) is None,
        },
{
    let program_id = solana_program::pubkey::Pubkey::try_from(program.bytes.as_slice()).unwrap();
    let authority = solana_program::pubkey::Pubkey::try_from(identity.bytes.as_slice()).unwrap();
    let seed_bytes = seed.to_le_bytes();
    let found = solana_program::pubkey::Pubkey::try_find_program_address(
        &[b"authority", authority.as_ref(), &seed_bytes],
        &program_id,
    );
    found.map(|(key, bump)| (Address { bytes: key.to_bytes().to_vec() }, bump))
}

/// Address Deriver: maps (authority identity, seed) to the deterministic slot
/// address and its disambiguation byte, under the program identity as a fixed
/// namespace.
pub fn derive(program_id: &Address, identity: &Address, seed: u64) -> (r: Result<
    (Address, u8),
    EchoError,
>)
    requires
        program_id.wf(),
        identity.wf(),
    ensures
        match r {
            Ok(p) => derivation_of(program_id@, identity@, seed) == Some((p.0@, p.1)) && p.0.wf(),
            Err(e) => e == EchoError::DerivationExhausted && derivation_of(
                program_id@,
                identity@,
                seed,
            ) is None,
        },
{
    match find_slot_address(program_id, identity, seed) {
        Some(p) => Ok(p),
        None => Err(EchoError::DerivationExhausted),
    }
}

/// Derivation determinism: two successful calls of `derive` on the same
/// program identity, authority identity and seed return the same address and
/// the same disambiguation byte.
pub proof fn lemma_derivation_deterministic(
    program: Seq<u8>,
    identity: Seq<u8>,
    seed: u64,
    first: (Seq<u8>, u8),
    second: (Seq<u8>, u8),
)
    requires
        derivation_of(program, identity, seed) == Some(first),
        derivation_of(program, identity, seed) == Some(second),
    ensures
        first == second,
{
}

} // verus!
