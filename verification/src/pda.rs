use vstd::prelude::*;

use crate::state::Address;

verus! {

/// The canonical program-derived-address derivation for a vault, applied to
/// the seeds `[b"vault", mint]` under `program_id`: the address and bump
/// seed that the host ledger accepts as the vault's keyless authority, or
/// `None` in the statistically improbable event that no bump seed yields an
/// off-curve address. The result is a function of the program id and the
/// mint alone, identical on every call and on every machine.
pub uninterp spec fn vault_derivation(program_id: Seq<u8>, mint: Seq<u8>) -> Option<(Seq<u8>, u8)>;

/// The derived vault address under `program_id` for `mint`, where one exists.
pub open spec fn vault_address_of(program_id: Seq<u8>, mint: Seq<u8>) -> Seq<u8> {
    vault_derivation(program_id, mint)->Some_0.0
}

/// The bump seed that proves the vault's authority, where one exists.
pub open spec fn vault_bump_of(program_id: Seq<u8>, mint: Seq<u8>) -> u8 {
    vault_derivation(program_id, mint)->Some_0.1
}

/// Relies on `solana_program::pubkey::Pubkey::try_find_program_address`,
/// called with the seeds `[b"vault", mint]`: it deterministically searches
/// bump seeds from 255 downward for the first off-curve hash-derived
/// address, returning that address and the bump, or `None` when no bump
/// yields one. Its result depends on the seeds and the program id alone.
#[verifier::external_body]
pub(crate) fn find_vault_address(program_id: &Address, mint: &Address) -> (r: Option<(Address, u8)>)
    ensures
        r is Some <==> vault_derivation(program_id@, mint@) is Some,
        r matches Some(p) ==> p.0@ == vault_address_of(program_id@, mint@) && p.1
            == vault_bump_of(program_id@, mint@),
{
    let pid = solana_program::pubkey::Pubkey::new_from_array(program_id.bytes);
    let mint_key = solana_program::pubkey::Pubkey::new_from_array(mint.bytes);
    let found = solana_program::pubkey::Pubkey::try_find_program_address(
        &[b"vault", mint_key.as_ref()],
        &pid,
    );
    match found {
        Some((address, bump)) => Some((Address { bytes: address.to_bytes() }, bump)),
        None => None,
    }
}

} // verus!
