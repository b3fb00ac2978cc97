//! An on-ledger exchange core: a fixed-rate swap between a native-currency
//! balance and a fungible-token balance through a program-controlled vault
//! whose authority is derived, never held as a key. The instruction codec,
//! the vault derivation check, and the two balance-transfer transitions are
//! specified and verified here; the host's ledger services are modelled by
//! the `ledger` module's contracts.

mod constants;
mod errors;
mod instruction;
mod laws;
mod ledger;
mod pda;
mod processor;
mod state;

pub use constants::LibConstant;
pub use errors::TokenTradeError;
pub use instruction::spec_unpack;
pub use instruction::TokenTradeInstruction;
pub use laws::lemma_deposit_withdraw_round_trip;
pub use laws::lemma_short_transfer_buffer_rejected;
pub use laws::lemma_unknown_tag_rejected;
pub use laws::lemma_withdraw_rounding_loss;
pub use laws::spec_continuation;
pub use ledger::native_credit;
pub use ledger::native_debit;
pub use ledger::native_transfer;
pub use ledger::spec_native_credit;
pub use ledger::spec_native_debit;
pub use ledger::spec_native_transfer;
pub use ledger::spec_proof_address;
pub use ledger::spec_proof_valid;
pub use ledger::spec_token_transfer;
pub use ledger::token_transfer;
pub use ledger::AuthorityProof;
pub use pda::vault_address_of;
pub use pda::vault_bump_of;
pub use pda::vault_derivation;
pub use processor::spec_process;
pub use processor::transfer_sol_to_token;
pub use processor::transfer_token_to_sol;
pub use processor::Processor;
pub use state::address_eq;
pub use state::Account;
pub use state::Address;
pub use state::Vault;
