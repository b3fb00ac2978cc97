use vstd::prelude::*;

pub mod transfer_sol_to_token;
pub mod transfer_token_to_sol;

use crate::errors::TokenTradeError;
use crate::instruction::spec_unpack;
use crate::instruction::TokenTradeInstruction;
use crate::state::Account;
use crate::state::Address;
use transfer_sol_to_token::spec_deposit;
use transfer_token_to_sol::spec_withdraw;

verus! {

/// What one dispatched call does to the account list: decode the
/// instruction bytes, then apply the matching transition. A decode failure
/// touches nothing; the Initialize request records metadata outside this
/// core and leaves the balances alone.
pub open spec fn spec_process(
    program_id: Address,
    accounts: Seq<Account>,
    instruction_data: Seq<u8>,
) -> Result<Seq<Account>, TokenTradeError> {
    match spec_unpack(instruction_data) {
        Err(e) => Err(e),
        Ok(TokenTradeInstruction::Initialize) => Ok(accounts),
        Ok(TokenTradeInstruction::TransferSolToToken { data }) => spec_deposit(
            program_id,
            accounts,
            data,
        ),
        Ok(TokenTradeInstruction::TransferTokenToSol { data }) => spec_withdraw(
            program_id,
            accounts,
            data,
        ),
    }
}

/// Routes a decoded instruction to the matching handler.
pub struct Processor {}

impl Processor {
    /// Decodes `instruction_data` and applies the requested transition to
    /// the supplied account list. No instruction produces partial side
    /// effects: decoding fails before any balance moves, and a failing
    /// handler leaves every account as it was.
    pub fn process_instruction(
        program_id: &Address,
        accounts: &mut Vec<Account>,
        instruction_data: &[u8],
    ) -> (r: Result<(), TokenTradeError>)
        ensures
            match spec_process(*program_id, old(accounts)@, instruction_data@) {
                Ok(s) => r is Ok && final(accounts)@ == s,
                Err(e) => r == Err::<(), TokenTradeError>(e)
                    && final(accounts)@ == old(accounts)@,
            },
            r is Err ==> final(accounts)@ == old(accounts)@,
    {
        let instruction = match TokenTradeInstruction::unpack(instruction_data) {
            Ok(i) => i,
            Err(e) => {
                return Err(e);
            },
        };
        match instruction {
            TokenTradeInstruction::Initialize => Ok(()),
            TokenTradeInstruction::TransferSolToToken { data } => {
                transfer_sol_to_token::process(program_id, accounts, data)
            },
            TokenTradeInstruction::TransferTokenToSol { data } => {
                transfer_token_to_sol::process(program_id, accounts, data)
            },
        }
    }
}

} // verus!
