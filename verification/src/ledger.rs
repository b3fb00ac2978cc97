use vstd::prelude::*;

use crate::errors::TokenTradeError;
use crate::pda::vault_address_of;
use crate::pda::vault_bump_of;
use crate::pda::vault_derivation;
use crate::pda::find_vault_address;
use crate::state::Account;
use crate::state::Address;
use crate::state::address_eq;

verus! {

/// The proof of authority a caller presents to the token ledger: either an
/// account that signed the call, or the keyless vault authority, proven by
/// re-deriving the vault address from the program id and the mint together
/// with the bump seed found at derivation time.
#[derive(Clone, Copy, Debug)]
pub enum AuthorityProof {
    /// An ordinary account: `address` authorizes iff it signed the call.
    Holder { address: Address, signed: bool },
    /// The program-derived vault authority for `mint` under `program_id`.
    Derived { program_id: Address, mint: Address, bump: u8 },
}

/// Whether a presented proof actually proves its authority: a holder must
/// have signed; a derived proof must name a program and mint whose
/// derivation exists and whose bump seed matches the one presented.
pub open spec fn spec_proof_valid(auth: AuthorityProof) -> bool {
    match auth {
        AuthorityProof::Holder { address, signed } => { signed },
        AuthorityProof::Derived { program_id, mint, bump } => {
            &&& vault_derivation(program_id@, mint@) is Some
            &&& vault_bump_of(program_id@, mint@) == bump
        },
    }
}

/// The address a valid proof speaks for.
pub open spec fn spec_proof_address(auth: AuthorityProof) -> Seq<u8> {
    match auth {
        AuthorityProof::Holder { address, .. } => { address@ },
        AuthorityProof::Derived { program_id, mint, .. } => {
            vault_address_of(program_id@, mint@)
        },
    }
}

/// What the native ledger's `transfer` does: move `amount` lamports from
/// `from` to `to`, provided `from` signed the call, holds the amount, and
/// the credit does not wrap.
pub open spec fn spec_native_transfer(from: Account, to: Account, amount: u64) -> Result<
    (Account, Account),
    TokenTradeError,
> {
    if !from.is_signer {
        Err(TokenTradeError::AuthorityMismatch)
    } else if from.lamports < amount {
        Err(TokenTradeError::InsufficientFunds)
    } else if to.lamports + amount > u64::MAX {
        Err(TokenTradeError::ArithmeticOverflow)
    } else {
        Ok(
            (
                Account { lamports: (from.lamports - amount) as u64, ..from },
                Account { lamports: (to.lamports + amount) as u64, ..to },
            ),
        )
    }
}

/// Moves `amount` lamports from `from` to `to` on the caller's signature;
/// the native ledger's signed transfer.
pub fn native_transfer(from: &mut Account, to: &mut Account, amount: u64) -> (r: Result<
    (),
    TokenTradeError,
>)
    ensures
        match spec_native_transfer(*old(from), *old(to), amount) {
            Ok(pair) => r is Ok && *final(from) == pair.0 && *final(to) == pair.1,
            Err(e) => r == Err::<(), TokenTradeError>(e) && *final(from) == *old(from)
                && *final(to) == *old(to),
        },
{
    if !from.is_signer {
        return Err(TokenTradeError::AuthorityMismatch);
    }
    if from.lamports < amount {
        return Err(TokenTradeError::InsufficientFunds);
    }
    let credited = match to.lamports.checked_add(amount) {
        Some(v) => v,
        None => {
            return Err(TokenTradeError::ArithmeticOverflow);
        },
    };
    from.lamports = from.lamports - amount;
    to.lamports = credited;
    Ok(())
}

/// What the native ledger permits an owning program to do directly: debit
/// `amount` lamports from `account`, provided the caller program owns the
/// account's data and the balance covers the amount.
pub open spec fn spec_native_debit(account: Account, amount: u64, caller: Address) -> Result<
    Account,
    TokenTradeError,
> {
    if account.owner@ != caller@ {
        Err(TokenTradeError::AuthorityMismatch)
    } else if account.lamports < amount {
        Err(TokenTradeError::InsufficientFunds)
    } else {
        Ok(Account { lamports: (account.lamports - amount) as u64, ..account })
    }
}

/// Debits `amount` lamports from a program-owned account without a
/// signature: permitted to the owning program alone.
pub fn native_debit(account: &mut Account, amount: u64, caller: &Address) -> (r: Result<
    (),
    TokenTradeError,
>)
    ensures
        match spec_native_debit(*old(account), amount, *caller) {
            Ok(a) => r is Ok && *final(account) == a,
            Err(e) => r == Err::<(), TokenTradeError>(e) && *final(account) == *old(account),
        },
{
    if !address_eq(&account.owner, caller) {
        return Err(TokenTradeError::AuthorityMismatch);
    }
    if account.lamports < amount {
        return Err(TokenTradeError::InsufficientFunds);
    }
    account.lamports = account.lamports - amount;
    Ok(())
}

/// What the native ledger's unconditional credit does: add `amount`
/// lamports to `account` unless the balance would wrap.
pub open spec fn spec_native_credit(account: Account, amount: u64) -> Result<
    Account,
    TokenTradeError,
> {
    if account.lamports + amount > u64::MAX {
        Err(TokenTradeError::ArithmeticOverflow)
    } else {
        Ok(Account { lamports: (account.lamports + amount) as u64, ..account })
    }
}

/// Credits `amount` lamports to any account; crediting is always permitted.
pub fn native_credit(account: &mut Account, amount: u64) -> (r: Result<(), TokenTradeError>)
    ensures
        match spec_native_credit(*old(account), amount) {
            Ok(a) => r is Ok && *final(account) == a,
            Err(e) => r == Err::<(), TokenTradeError>(e) && *final(account) == *old(account),
        },
{
    let credited = match account.lamports.checked_add(amount) {
        Some(v) => v,
        None => {
            return Err(TokenTradeError::ArithmeticOverflow);
        },
    };
    account.lamports = credited;
    Ok(())
}

/// What the token ledger's `transfer` does: move `amount` token units from
/// `source` to `dest`, provided the presented proof is valid, speaks for the
/// source's token authority, the source holds the amount, and the credit
/// does not wrap.
pub open spec fn spec_token_transfer(
    source: Account,
    dest: Account,
    auth: AuthorityProof,
    amount: u64,
) -> Result<(Account, Account), TokenTradeError> {
    if !(spec_proof_valid(auth) && spec_proof_address(auth) == source.token_authority@) {
        Err(TokenTradeError::AuthorityMismatch)
    } else if source.token_amount < amount {
        Err(TokenTradeError::InsufficientFunds)
    } else if dest.token_amount + amount > u64::MAX {
        Err(TokenTradeError::ArithmeticOverflow)
    } else {
        Ok(
            (
                Account { token_amount: (source.token_amount - amount) as u64, ..source },
                Account { token_amount: (dest.token_amount + amount) as u64, ..dest },
            ),
        )
    }
}

/// Checks a presented proof against the source's token authority; for a
/// derived proof the ledger re-derives the vault address itself rather than
/// trusting the caller.
fn check_proof(auth: &AuthorityProof, authority: &Address) -> (r: bool)
    ensures
        r == (spec_proof_valid(*auth) && spec_proof_address(*auth) == authority@),
{
    match auth {
        AuthorityProof::Holder { address, signed } => *signed && address_eq(address, authority),
        AuthorityProof::Derived { program_id, mint, bump } => {
            match find_vault_address(program_id, mint) {
                Some((derived, found_bump)) => found_bump == *bump && address_eq(
                    &derived,
                    authority,
                ),
                None => false,
            }
        },
    }
}

/// Moves `amount` token units from `source` to `dest` under a presented
/// authority proof; the token ledger's transfer.
pub fn token_transfer(
    source: &mut Account,
    dest: &mut Account,
    auth: &AuthorityProof,
    amount: u64,
) -> (r: Result<(), TokenTradeError>)
    ensures
        match spec_token_transfer(*old(source), *old(dest), *auth, amount) {
            Ok(pair) => r is Ok && *final(source) == pair.0 && *final(dest) == pair.1,
            Err(e) => r == Err::<(), TokenTradeError>(e) && *final(source) == *old(source)
                && *final(dest) == *old(dest),
        },
{
    if !check_proof(auth, &source.token_authority) {
        return Err(TokenTradeError::AuthorityMismatch);
    }
    if source.token_amount < amount {
        return Err(TokenTradeError::InsufficientFunds);
    }
    let credited = match dest.token_amount.checked_add(amount) {
        Some(v) => v,
        None => {
            return Err(TokenTradeError::ArithmeticOverflow);
        },
    };
    source.token_amount = source.token_amount - amount;
    dest.token_amount = credited;
    Ok(())
}

} // verus!
