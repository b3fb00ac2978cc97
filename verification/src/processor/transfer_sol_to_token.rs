use vstd::prelude::*;

use crate::constants::LibConstant;
use crate::errors::TokenTradeError;
use crate::ledger::native_transfer;
use crate::ledger::spec_native_transfer;
use crate::ledger::spec_token_transfer;
use crate::ledger::token_transfer;
use crate::ledger::AuthorityProof;
use crate::pda::find_vault_address;
use crate::pda::vault_bump_of;
use crate::pda::vault_derivation;
use crate::state::address_eq;
use crate::state::Account;
use crate::state::Address;

verus! {

/// Whether the vault account supplied at position 4 is the one derived from
/// the program id and the mint supplied at position 3.
pub open spec fn spec_vault_matches(program_id: Address, accounts: Seq<Account>) -> bool {
    &&& vault_derivation(program_id@, accounts[3].address@) is Some
    &&& vault_derivation(program_id@, accounts[3].address@)->Some_0.0 == accounts[4].address@
}

/// The deposit-native transition (native currency in, tokens out) on the
/// ordered account list `[requester, requester token account, program, mint,
/// vault, vault token account, token ledger program, native ledger program]`:
/// after re-deriving and checking the vault address, `lamports` native units
/// move from requester to vault, and `lamports * TRANSFER_RATE` token units
/// move from the vault's token account to the requester's, authorized by the
/// derived vault authority. Any failure leaves every account unchanged.
pub open spec fn spec_deposit(
    program_id: Address,
    accounts: Seq<Account>,
    lamports: u64,
) -> Result<Seq<Account>, TokenTradeError> {
    if accounts.len() < 8 {
        Err(TokenTradeError::NotEnoughAccounts)
    } else if !spec_vault_matches(program_id, accounts) {
        Err(TokenTradeError::InvalidAccountAddress)
    } else {
        match spec_native_transfer(accounts[0], accounts[4], lamports) {
            Err(e) => Err(e),
            Ok(native_pair) => {
                if lamports * LibConstant::TRANSFER_RATE > u64::MAX {
                    Err(TokenTradeError::ArithmeticOverflow)
                } else {
                    let auth = AuthorityProof::Derived {
                        program_id,
                        mint: accounts[3].address,
                        bump: vault_bump_of(program_id@, accounts[3].address@),
                    };
                    match spec_token_transfer(
                        accounts[5],
                        accounts[1],
                        auth,
                        (lamports * LibConstant::TRANSFER_RATE) as u64,
                    ) {
                        Err(e) => Err(e),
                        Ok(token_pair) => Ok(
                            accounts.update(0, native_pair.0).update(4, native_pair.1).update(
                                5,
                                token_pair.0,
                            ).update(1, token_pair.1),
                        ),
                    }
                }
            },
        }
    }
}

/// Deposits `lamports` native units and pays out tokens at the fixed rate.
///
/// The vault address is re-derived here on every call and checked against
/// the supplied vault account; this is the sole authenticity check, and it
/// prevents a caller from substituting an attacker-controlled account for
/// the vault.
pub fn process(program_id: &Address, accounts: &mut Vec<Account>, lamports: u64) -> (r: Result<
    (),
    TokenTradeError,
>)
    ensures
        match spec_deposit(*program_id, old(accounts)@, lamports) {
            Ok(s) => r is Ok && final(accounts)@ == s,
            Err(e) => r == Err::<(), TokenTradeError>(e) && final(accounts)@ == old(accounts)@,
        },
        r is Ok ==> {
            let before = old(accounts)@;
            let after = final(accounts)@;
            &&& after.len() == before.len()
            &&& after[0].lamports == before[0].lamports - lamports
            &&& after[4].lamports == before[4].lamports + lamports
            &&& after[5].token_amount == before[5].token_amount - lamports
                * LibConstant::TRANSFER_RATE
            &&& after[1].token_amount == before[1].token_amount + lamports
                * LibConstant::TRANSFER_RATE
        },
        old(accounts)@.len() >= 8 && !spec_vault_matches(*program_id, old(accounts)@) ==> r
            == Err::<(), TokenTradeError>(TokenTradeError::InvalidAccountAddress)
            && final(accounts)@ == old(accounts)@,
        r is Err ==> final(accounts)@ == old(accounts)@,
{
    if accounts.len() < 8 {
        return Err(TokenTradeError::NotEnoughAccounts);
    }
    let mut requester = accounts[0];
    let mut requester_token = accounts[1];
    let mint = accounts[3];
    let mut vault = accounts[4];
    let mut vault_token = accounts[5];

    let (derived, bump) = match find_vault_address(program_id, &mint.address) {
        Some(p) => p,
        None => {
            return Err(TokenTradeError::InvalidAccountAddress);
        },
    };
    if !address_eq(&derived, &vault.address) {
        return Err(TokenTradeError::InvalidAccountAddress);
    }

    match native_transfer(&mut requester, &mut vault, lamports) {
        Ok(()) => {},
        Err(e) => {
            return Err(e);
        },
    }

    let token_amount = match lamports.checked_mul(LibConstant::TRANSFER_RATE) {
        Some(v) => v,
        None => {
            return Err(TokenTradeError::ArithmeticOverflow);
        },
    };

    let auth = AuthorityProof::Derived { program_id: *program_id, mint: mint.address, bump };
    match token_transfer(&mut vault_token, &mut requester_token, &auth, token_amount) {
        Ok(()) => {},
        Err(e) => {
            return Err(e);
        },
    }

    accounts[0] = requester;
    accounts[4] = vault;
    accounts[5] = vault_token;
    accounts[1] = requester_token;
    assert(accounts@ =~= spec_deposit(*program_id, old(accounts)@, lamports)->Ok_0);
    Ok(())
}

} // verus!
