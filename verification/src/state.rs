use vstd::prelude::*;

use crate::pda::find_vault_address;
use crate::pda::vault_address_of;
use crate::pda::vault_derivation;

verus! {

/// A 32-byte ledger address, the identity of every account, program and mint.
#[derive(Clone, Copy, Debug)]
pub struct Address {
    pub bytes: [u8; 32],
}

impl View for Address {
    type V = Seq<u8>;

    open spec fn view(&self) -> Seq<u8> {
        self.bytes@
    }
}

/// Compares two addresses byte for byte.
pub fn address_eq(a: &Address, b: &Address) -> (r: bool)
    ensures
        r == (a@ == b@),
{
    let mut i: usize = 0;
    while i < 32
        invariant
            i <= 32,
            forall|j: int| 0 <= j < i ==> a.bytes[j] == b.bytes[j],
        decreases 32 - i,
    {
        if a.bytes[i] != b.bytes[i] {
            assert(a@ != b@);
            return false;
        }
        i += 1;
    }
    assert(a@ =~= b@);
    true
}

/// A ledger account as a handler sees it: its identity, the program that
/// owns its data, its native-currency balance, the token balance recorded in
/// its data, the authority over that token balance, and whether the account
/// signed the current call.
///
/// Accounts that carry no token balance (a plain wallet, a mint, a program)
/// leave the token fields at their zero values.
#[derive(Clone, Copy, Debug)]
pub struct Account {
    /// The account's own address.
    pub address: Address,
    /// The program that owns the account's data; only the owner may debit
    /// the native balance directly.
    pub owner: Address,
    /// Native-currency balance.
    pub lamports: u64,
    /// Token balance recorded in the account's data.
    pub token_amount: u64,
    /// The authority that may transfer the token balance away.
    pub token_authority: Address,
    /// Whether this account signed the current call.
    pub is_signer: bool,
}

/// The persisted vault record, written once at initialization and read by
/// the handlers: the administrator, the vault's derived address, and the
/// mint the vault trades.
#[derive(Clone, Copy, Debug)]
pub struct Vault {
    pub admin: Address,
    pub vault: Address,
    pub mint: Address,
}

impl Vault {
    /// The record's invariant: its vault address is the canonical
    /// derivation from the program id and its mint.
    pub open spec fn spec_wf(self, program_id: Address) -> bool {
        &&& vault_derivation(program_id@, self.mint@) is Some
        &&& vault_address_of(program_id@, self.mint@) == self.vault@
    }

    /// Re-derives the vault address from the program id and the recorded
    /// mint and checks the record against it; the invariant is re-verified
    /// this way on every handler invocation, never trusted.
    pub fn check(&self, program_id: &Address) -> (r: bool)
        ensures
            r == self.spec_wf(*program_id),
    {
        match find_vault_address(program_id, &self.mint) {
            Some((derived, _bump)) => address_eq(&derived, &self.vault),
            None => false,
        }
    }
}

} // verus!
