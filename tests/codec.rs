use bridge::codec::{append_at_top, decode};
use bridge::error::VerifyError;

fn instruction(meta_type: u8, shard_id: u8, amount: u64, len: usize) -> Vec<u8> {
    let mut raw = vec![0u8; len];
    raw[0] = meta_type;
    raw[1] = shard_id;
    for i in 2..34 {
        raw[i] = 0x10 + (i as u8);
    }
    for i in 34..66 {
        raw[i] = 0x40 + (i as u8);
    }
    for i in 66..90 {
        raw[i] = 0xee;
    }
    raw[90..98].copy_from_slice(&amount.to_be_bytes());
    for i in 98..len.min(130) {
        raw[i] = 0x90 + (i as u8 - 98);
    }
    raw
}

#[test]
fn decode_rejects_every_short_length() {
    for len in 0..106 {
        let raw = instruction(157, 1, 1000, 130)[..len].to_vec();
        assert_eq!(decode(&raw).err(), Some(VerifyError::TruncatedInstruction));
    }
}

#[test]
fn decode_reads_fixed_offsets() {
    let raw = instruction(157, 1, 1000, 130);
    let inst = decode(&raw).unwrap();
    assert_eq!(inst.meta_type, 157);
    assert_eq!(inst.shard_id, 1);
    assert_eq!(inst.token_id, raw[2..34].to_vec());
    assert_eq!(inst.receiver_key, raw[34..66].to_vec());
    assert_eq!(inst.unshield_amount, 1000);
    assert_eq!(inst.tx_id, raw[98..130].to_vec());
}

#[test]
fn decode_reads_big_endian_amount() {
    let raw = instruction(158, 1, 0x0102_0304_0506_0708, 130);
    assert_eq!(decode(&raw).unwrap().unshield_amount, 0x0102_0304_0506_0708);
    let raw = instruction(158, 1, u64::MAX, 130);
    assert_eq!(decode(&raw).unwrap().unshield_amount, u64::MAX);
}

#[test]
fn decode_ignores_trailing_bytes_and_short_tx_id() {
    let raw = instruction(157, 1, 7, 106);
    let inst = decode(&raw).unwrap();
    assert_eq!(inst.tx_id, raw[98..106].to_vec());
    let mut long = instruction(157, 1, 7, 140);
    long[135] = 0xab;
    let inst = decode(&long).unwrap();
    assert_eq!(inst.tx_id, long[98..130].to_vec());
    assert_eq!(inst.unshield_amount, 7);
}

#[test]
fn decode_rejects_unknown_type_and_shard() {
    assert_eq!(
        decode(&instruction(156, 1, 1, 130)).err(),
        Some(VerifyError::UnrecognizedInstructionType)
    );
    assert_eq!(
        decode(&instruction(159, 1, 1, 130)).err(),
        Some(VerifyError::UnrecognizedInstructionType)
    );
    assert_eq!(
        decode(&instruction(157, 0, 1, 130)).err(),
        Some(VerifyError::UnrecognizedInstructionType)
    );
    assert_eq!(
        decode(&instruction(158, 2, 1, 106)).err(),
        Some(VerifyError::UnrecognizedInstructionType)
    );
}

#[test]
fn height_word_is_big_endian_and_zero_padded() {
    let word = append_at_top(0x0102_0304_0506_0708);
    let mut expected = vec![0u8; 24];
    expected.extend_from_slice(&[1, 2, 3, 4, 5, 6, 7, 8]);
    assert_eq!(word, expected);
    assert_eq!(append_at_top(0), vec![0u8; 32]);
    let word = append_at_top(256);
    assert_eq!(word[30], 1);
    assert_eq!(word[31], 0);
}
