use tokentrade::TokenTradeError;
use tokentrade::TokenTradeInstruction;

fn deposit_bytes(amount: u64) -> Vec<u8> {
    let mut bytes = vec![1u8];
    bytes.extend_from_slice(&amount.to_le_bytes());
    bytes
}

fn withdraw_bytes(amount: u64) -> Vec<u8> {
    let mut bytes = vec![2u8];
    bytes.extend_from_slice(&amount.to_le_bytes());
    bytes
}

#[test]
fn unpack_initialize() {
    let r = TokenTradeInstruction::unpack(&[0u8]);
    assert!(matches!(r, Ok(TokenTradeInstruction::Initialize)));
}

#[test]
fn unpack_empty_buffer_fails() {
    let r = TokenTradeInstruction::unpack(&[]);
    assert!(matches!(r, Err(TokenTradeError::InvalidInstruction)));
}

#[test]
fn unpack_short_transfer_buffers_fail() {
    for tag in [1u8, 2u8] {
        for len in 0..8usize {
            let mut bytes = vec![tag];
            bytes.extend_from_slice(&vec![7u8; len]);
            assert!(bytes.len() < 9);
            let r = TokenTradeInstruction::unpack(&bytes);
            assert!(matches!(r, Err(TokenTradeError::InvalidInstruction)));
        }
    }
}

#[test]
fn unpack_unknown_tag_fails() {
    let r = TokenTradeInstruction::unpack(&[3u8, 1, 2, 3, 4, 5, 6, 7, 8]);
    assert!(matches!(r, Err(TokenTradeError::InvalidInstruction)));
    let r = TokenTradeInstruction::unpack(&[255u8]);
    assert!(matches!(r, Err(TokenTradeError::InvalidInstruction)));
}

#[test]
fn unpack_deposit_amount() {
    let r = TokenTradeInstruction::unpack(&deposit_bytes(100_000_000_000));
    match r {
        Ok(TokenTradeInstruction::TransferSolToToken { data }) => {
            assert_eq!(data, 100_000_000_000)
        },
        _ => panic!("expected a deposit request"),
    }
}

#[test]
fn unpack_withdraw_amount() {
    let r = TokenTradeInstruction::unpack(&withdraw_bytes(42));
    match r {
        Ok(TokenTradeInstruction::TransferTokenToSol { data }) => assert_eq!(data, 42),
        _ => panic!("expected a withdraw request"),
    }
}

#[test]
fn unpack_ignores_trailing_bytes() {
    let mut bytes = deposit_bytes(9);
    bytes.extend_from_slice(&[0xAA, 0xBB, 0xCC]);
    let r = TokenTradeInstruction::unpack(&bytes);
    match r {
        Ok(TokenTradeInstruction::TransferSolToToken { data }) => assert_eq!(data, 9),
        _ => panic!("expected a deposit request"),
    }
}

#[test]
fn parse_reads_little_endian() {
    let r = TokenTradeInstruction::parse(&[0x01, 0x02, 0, 0, 0, 0, 0, 0]);
    assert_eq!(r, Ok(0x0201));
    let r = TokenTradeInstruction::parse(&[0, 0, 0, 0, 0, 0, 0]);
    assert_eq!(r, Err(TokenTradeError::InvalidInstruction));
}
