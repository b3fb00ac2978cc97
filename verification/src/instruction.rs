use vstd::prelude::*;

use crate::errors::TokenTradeError;

verus! {

/// A decoded instruction: the discriminant tag selects the request, and for
/// the two transfer requests the payload carries the amount given up, in the
/// smallest unit of that asset.
#[derive(Clone, Copy, Debug)]
pub enum TokenTradeInstruction {
    /// Tag `0`: record the vault metadata; handled outside this core.
    Initialize,
    /// Tag `1`: deposit `data` native units, receive tokens.
    TransferSolToToken { data: u64 },
    /// Tag `2`: deposit `data` token units, receive native currency.
    TransferTokenToSol { data: u64 },
}

/// What decoding a byte buffer yields: the first byte is the tag; tags `1`
/// and `2` consume the next 8 bytes as a little-endian unsigned amount;
/// anything shorter, and any other tag, is rejected. Bytes beyond the
/// consumed prefix are ignored.
pub open spec fn spec_unpack(input: Seq<u8>) -> Result<TokenTradeInstruction, TokenTradeError> {
    if input.len() == 0 {
        Err(TokenTradeError::InvalidInstruction)
    } else if input[0] == 0 {
        Ok(TokenTradeInstruction::Initialize)
    } else if input[0] == 1 {
        if input.len() >= 9 {
            Ok(TokenTradeInstruction::TransferSolToToken {
                data: vstd::bytes::spec_u64_from_le_bytes(input.subrange(1, 9)),
            })
        } else {
            Err(TokenTradeError::InvalidInstruction)
        }
    } else if input[0] == 2 {
        if input.len() >= 9 {
            Ok(TokenTradeInstruction::TransferTokenToSol {
                data: vstd::bytes::spec_u64_from_le_bytes(input.subrange(1, 9)),
            })
        } else {
            Err(TokenTradeError::InvalidInstruction)
        }
    } else {
        Err(TokenTradeError::InvalidInstruction)
    }
}

impl TokenTradeInstruction {
    /// Decodes an instruction byte stream.
    pub fn unpack(input: &[u8]) -> (r: Result<Self, TokenTradeError>)
        ensures
            r == spec_unpack(input@),
    {
        if input.len() == 0 {
            return Err(TokenTradeError::InvalidInstruction);
        }
        let tag = input[0];
        let rest = vstd::slice::slice_subrange(input, 1, input.len());
        match tag {
            0 => Ok(Self::Initialize),
            1 => {
                let data = Self::parse(rest)?;
                assert(rest@.take(8) =~= input@.subrange(1, 9));
                Ok(Self::TransferSolToToken { data })
            },
            2 => {
                let data = Self::parse(rest)?;
                assert(rest@.take(8) =~= input@.subrange(1, 9));
                Ok(Self::TransferTokenToSol { data })
            },
            _ => Err(TokenTradeError::InvalidInstruction),
        }
    }

    /// Reads the 8-byte little-endian amount that follows a transfer tag.
    pub fn parse(input: &[u8]) -> (r: Result<u64, TokenTradeError>)
        ensures
            input@.len() >= 8 ==> r == Ok::<u64, TokenTradeError>(
                vstd::bytes::spec_u64_from_le_bytes(input@.take(8)),
            ),
            input@.len() < 8 ==> r == Err::<u64, TokenTradeError>(
                TokenTradeError::InvalidInstruction,
            ),
    {
        if input.len() < 8 {
            return Err(TokenTradeError::InvalidInstruction);
        }
        let head = vstd::slice::slice_subrange(input, 0, 8);
        assert(head@ =~= input@.take(8));
        Ok(vstd::bytes::u64_from_le_bytes(head))
    }
}

} // verus!
