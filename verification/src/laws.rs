use vstd::prelude::*;

use crate::constants::LibConstant;
use crate::errors::TokenTradeError;
use crate::instruction::spec_unpack;
use crate::instruction::TokenTradeInstruction;
use crate::processor::transfer_sol_to_token::spec_deposit;
use crate::processor::transfer_token_to_sol::spec_withdraw;
use crate::state::Account;
use crate::state::Address;

verus! {

/// Decoding any buffer that starts with a transfer tag but carries fewer
/// than 8 payload bytes fails with `InvalidInstruction`.
pub proof fn lemma_short_transfer_buffer_rejected(input: Seq<u8>)
    requires
        1 <= input.len() < 9,
        input[0] == 1 || input[0] == 2,
    ensures
        spec_unpack(input) == Err::<TokenTradeInstruction, TokenTradeError>(
            TokenTradeError::InvalidInstruction,
        ),
{
}

/// Decoding any buffer that starts with an unrecognized tag fails with
/// `InvalidInstruction`.
pub proof fn lemma_unknown_tag_rejected(input: Seq<u8>)
    requires
        input.len() >= 1,
        input[0] != 0,
        input[0] != 1,
        input[0] != 2,
    ensures
        spec_unpack(input) == Err::<TokenTradeInstruction, TokenTradeError>(
            TokenTradeError::InvalidInstruction,
        ),
{
}

/// The withdraw account list that continues a deposit: the deposit's
/// account list rearranged into the withdraw ordering, with the balances
/// the deposit left behind.
pub open spec fn spec_continuation(deposited: Seq<Account>, original: Seq<Account>) -> Seq<Account> {
    seq![
        deposited[4],
        deposited[5],
        original[2],
        original[3],
        deposited[0],
        deposited[1],
        original[6],
    ]
}

/// Round trip: depositing `amount` native units and then immediately
/// withdrawing the `amount * TRANSFER_RATE` tokens received succeeds and
/// returns exactly `amount` native units, restoring all four balances —
/// there is no rounding loss on this round trip, because the token amount
/// handed back is divisible by the rate.
///
/// The deposit must have succeeded, the requester's token account must be
/// held by the requester, and the vault account must be owned by the
/// program (the withdraw path's direct debit demands it).
pub proof fn lemma_deposit_withdraw_round_trip(
    program_id: Address,
    accounts: Seq<Account>,
    amount: u64,
)
    requires
        accounts.len() == 8,
        spec_deposit(program_id, accounts, amount) is Ok,
        accounts[1].token_authority@ == accounts[0].address@,
        accounts[4].owner@ == program_id@,
    ensures
        ({
            let mid = spec_deposit(program_id, accounts, amount)->Ok_0;
            let token_amount = (amount * LibConstant::TRANSFER_RATE) as u64;
            let back = spec_withdraw(program_id, spec_continuation(mid, accounts), token_amount);
            &&& back is Ok
            &&& back->Ok_0[4].lamports == accounts[0].lamports
            &&& back->Ok_0[0].lamports == accounts[4].lamports
            &&& back->Ok_0[1].token_amount == accounts[5].token_amount
            &&& back->Ok_0[5].token_amount == accounts[1].token_amount
        }),
{
    let mid = spec_deposit(program_id, accounts, amount)->Ok_0;
    let token_amount = (amount * LibConstant::TRANSFER_RATE) as u64;
    assert(token_amount / LibConstant::TRANSFER_RATE == amount) by (nonlinear_arith)
        requires
            token_amount == amount * LibConstant::TRANSFER_RATE,
            LibConstant::TRANSFER_RATE == 10,
    ;
    let cont = spec_continuation(mid, accounts);
    assert(spec_withdraw(program_id, cont, token_amount) is Ok);
}

/// Rounding loss: withdrawing a token `amount` not divisible by the rate
/// pays out strictly less native currency than the exact quotient, and the
/// shortfall — `amount % TRANSFER_RATE` token units — is retained by the
/// vault, which receives every deposited token unit while paying only the
/// floored native amount.
pub proof fn lemma_withdraw_rounding_loss(
    program_id: Address,
    accounts: Seq<Account>,
    amount: u64,
)
    requires
        amount % LibConstant::TRANSFER_RATE != 0,
        spec_withdraw(program_id, accounts, amount) is Ok,
    ensures
        ({
            let after = spec_withdraw(program_id, accounts, amount)->Ok_0;
            let paid = amount / LibConstant::TRANSFER_RATE;
            &&& after[4].lamports == accounts[4].lamports + paid
            &&& paid * LibConstant::TRANSFER_RATE < amount
            &&& after[1].token_amount == accounts[1].token_amount + amount
            &&& after[0].lamports == accounts[0].lamports - paid
            &&& amount - paid * LibConstant::TRANSFER_RATE == amount % LibConstant::TRANSFER_RATE
        }),
{
}

} // verus!
