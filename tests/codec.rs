use solana_example_program::codec::{decode_u64, encode_u64, TransferState, STATE_LEN};
use solana_example_program::error::ProcessError;
use solana_example_program::instruction::SolanaExampleInstruction;

fn round_trip(x: u64) {
    let s = TransferState { total_transferred: x };
    let bytes = s.encode();
    assert_eq!(bytes.len(), STATE_LEN);
    assert_eq!(TransferState::decode(&bytes), Some(s));
}

#[test]
fn state_round_trip_zero() {
    round_trip(0);
}

#[test]
fn state_round_trip_one() {
    round_trip(1);
}

#[test]
fn state_round_trip_max() {
    round_trip(u64::MAX);
}

#[test]
fn state_encoding_is_little_endian() {
    let s = TransferState { total_transferred: 0x0102_0304_0506_0708 };
    assert_eq!(s.encode(), vec![8, 7, 6, 5, 4, 3, 2, 1]);
    assert_eq!(TransferState { total_transferred: 1 }.encode(), vec![1, 0, 0, 0, 0, 0, 0, 0]);
}

#[test]
fn state_decode_refuses_wrong_length() {
    assert_eq!(TransferState::decode(&[]), None);
    assert_eq!(TransferState::decode(&[1, 2, 3]), None);
    assert_eq!(TransferState::decode(&[0u8; 9]), None);
}

#[test]
fn state_decode_reads_bytes() {
    assert_eq!(
        TransferState::decode(&[2, 1, 0, 0, 0, 0, 0, 0]),
        Some(TransferState { total_transferred: 258 })
    );
}

#[test]
fn u64_codec_exact_values() {
    assert_eq!(encode_u64(258), vec![2, 1, 0, 0, 0, 0, 0, 0]);
    assert_eq!(encode_u64(u64::MAX), vec![255u8; 8]);
    assert_eq!(decode_u64(&[255u8; 8]), Some(u64::MAX));
    assert_eq!(decode_u64(&[0, 0, 0, 0, 0, 0, 0, 128]), Some(1u64 << 63));
    assert_eq!(decode_u64(&[0u8; 7]), None);
}

#[test]
fn instruction_pack_exact_bytes() {
    let t = SolanaExampleInstruction::Transfer { amount: 2 };
    assert_eq!(t.pack(), vec![0, 2, 0, 0, 0, 0, 0, 0, 0]);
    assert_eq!(SolanaExampleInstruction::Reset.pack(), vec![1]);
}

#[test]
fn instruction_round_trip() {
    for ix in [
        SolanaExampleInstruction::Transfer { amount: 0 },
        SolanaExampleInstruction::Transfer { amount: 1_000_000_000 },
        SolanaExampleInstruction::Transfer { amount: u64::MAX },
        SolanaExampleInstruction::Reset,
    ] {
        assert_eq!(SolanaExampleInstruction::unpack(&ix.pack()), Ok(ix));
    }
}

#[test]
fn instruction_unpack_reads_amount() {
    assert_eq!(
        SolanaExampleInstruction::unpack(&[0, 0x10, 0x27, 0, 0, 0, 0, 0, 0]),
        Ok(SolanaExampleInstruction::Transfer { amount: 10_000 })
    );
}

#[test]
fn instruction_unpack_refuses_malformed() {
    let bad: [&[u8]; 6] = [
        &[],
        &[2],
        &[1, 0],
        &[0, 1, 2, 3],
        &[0, 0, 0, 0, 0, 0, 0, 0, 0, 0],
        &[0],
    ];
    for b in bad {
        assert_eq!(SolanaExampleInstruction::unpack(b), Err(ProcessError::MalformedInstruction));
    }
}
