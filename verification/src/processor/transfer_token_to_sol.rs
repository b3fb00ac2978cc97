use vstd::prelude::*;

use crate::constants::LibConstant;
use crate::errors::TokenTradeError;
use crate::ledger::native_credit;
use crate::ledger::native_debit;
use crate::ledger::spec_native_credit;
use crate::ledger::spec_native_debit;
use crate::ledger::spec_token_transfer;
use crate::ledger::token_transfer;
use crate::ledger::AuthorityProof;
use crate::state::Account;
use crate::state::Address;

verus! {

/// The withdraw-native transition (tokens in, native currency out) on the
/// ordered account list `[vault, vault token account, program, mint,
/// requester, requester token account, token ledger program]`: `lamports`
/// token units move from the requester's token account to the vault's on
/// the requester's own signature, then the vault's native balance is
/// directly debited and the requester's credited by `lamports /
/// TRANSFER_RATE` (floor division; the remainder below the rate stays with
/// the vault). The direct debit is permitted only because the program owns
/// the vault account. Any failure leaves every account unchanged.
///
/// Unlike the deposit path, this path does not re-derive the vault address:
/// the caller-supplied vault is trusted, guarded only by the ownership
/// check on the direct debit.
pub open spec fn spec_withdraw(
    program_id: Address,
    accounts: Seq<Account>,
    lamports: u64,
) -> Result<Seq<Account>, TokenTradeError> {
    if accounts.len() < 7 {
        Err(TokenTradeError::NotEnoughAccounts)
    } else {
        let auth = AuthorityProof::Holder {
            address: accounts[4].address,
            signed: accounts[4].is_signer,
        };
        match spec_token_transfer(accounts[5], accounts[1], auth, lamports) {
            Err(e) => Err(e),
            Ok(token_pair) => {
                let native_amount = lamports / LibConstant::TRANSFER_RATE;
                match spec_native_debit(accounts[0], native_amount, program_id) {
                    Err(e) => Err(e),
                    Ok(vault) => {
                        match spec_native_credit(accounts[4], native_amount) {
                            Err(e) => Err(e),
                            Ok(requester) => Ok(
                                accounts.update(5, token_pair.0).update(1, token_pair.1).update(
                                    0,
                                    vault,
                                ).update(4, requester),
                            ),
                        }
                    },
                }
            },
        }
    }
}

/// Deposits `lamports` token units and pays out native currency at the
/// fixed rate, rounding down; the remainder stays in the vault.
pub fn process(program_id: &Address, accounts: &mut Vec<Account>, lamports: u64) -> (r: Result<
    (),
    TokenTradeError,
>)
    ensures
        match spec_withdraw(*program_id, old(accounts)@, lamports) {
            Ok(s) => r is Ok && final(accounts)@ == s,
            Err(e) => r == Err::<(), TokenTradeError>(e) && final(accounts)@ == old(accounts)@,
        },
        r is Ok ==> {
            let before = old(accounts)@;
            let after = final(accounts)@;
            &&& after.len() == before.len()
            &&& after[5].token_amount == before[5].token_amount - lamports
            &&& after[1].token_amount == before[1].token_amount + lamports
            &&& after[0].lamports == before[0].lamports - lamports / LibConstant::TRANSFER_RATE
            &&& after[4].lamports == before[4].lamports + lamports / LibConstant::TRANSFER_RATE
        },
        r is Err ==> final(accounts)@ == old(accounts)@,
{
    if accounts.len() < 7 {
        return Err(TokenTradeError::NotEnoughAccounts);
    }
    let mut vault = accounts[0];
    let mut vault_token = accounts[1];
    let mut requester = accounts[4];
    let mut requester_token = accounts[5];

    let auth = AuthorityProof::Holder { address: requester.address, signed: requester.is_signer };
    match token_transfer(&mut requester_token, &mut vault_token, &auth, lamports) {
        Ok(()) => {},
        Err(e) => {
            return Err(e);
        },
    }

    let native_amount = lamports / LibConstant::TRANSFER_RATE;
    match native_debit(&mut vault, native_amount, program_id) {
        Ok(()) => {},
        Err(e) => {
            return Err(e);
        },
    }
    match native_credit(&mut requester, native_amount) {
        Ok(()) => {},
        Err(e) => {
            return Err(e);
        },
    }

    accounts[5] = requester_token;
    accounts[1] = vault_token;
    accounts[0] = vault;
    accounts[4] = requester;
    assert(accounts@ =~= spec_withdraw(*program_id, old(accounts)@, lamports)->Ok_0);
    Ok(())
}

} // verus!
