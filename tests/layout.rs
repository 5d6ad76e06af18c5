use anchor_lang::solana_program::hash::hash;
use sol_bank::layout::{tag, ACCOUNT_TAG, DEPOSIT_TAG, INITIALIZE_TAG, RECORD_LEN, WITHDRAW_TAG};
use sol_bank::{decode_instruction, decode_user_account, encode_instruction, encode_user_account, Instruction, UserAccount};

fn head_of_digest(name: &str) -> Vec<u8> {
    hash(name.as_bytes()).to_bytes()[..8].to_vec()
}

#[test]
fn tags_are_digest_heads() {
    assert_eq!(tag(INITIALIZE_TAG), vec![175, 175, 109, 31, 13, 152, 155, 237]);
    for name in [ACCOUNT_TAG, INITIALIZE_TAG, DEPOSIT_TAG, WITHDRAW_TAG] {
        assert_eq!(tag(name), head_of_digest(name));
    }
    assert_ne!(tag(DEPOSIT_TAG), tag(WITHDRAW_TAG));
}

#[test]
fn record_layout_is_tag_authority_balance() {
    let a = UserAccount { authority: [9u8; 32], balance: 0x0102_0304_0506_0708 };
    let bytes = encode_user_account(&a);
    assert_eq!(bytes.len(), RECORD_LEN);
    assert_eq!(&bytes[..8], &head_of_digest(ACCOUNT_TAG)[..]);
    assert_eq!(&bytes[8..40], &[9u8; 32][..]);
    assert_eq!(&bytes[40..], &[8, 7, 6, 5, 4, 3, 2, 1][..]);
    assert_eq!(decode_user_account(&bytes), Some(a));
}

#[test]
fn record_decoding_rejects_other_bytes() {
    let a = UserAccount { authority: [3u8; 32], balance: 600 };
    let bytes = encode_user_account(&a);
    assert_eq!(decode_user_account(&bytes[..47]), None);
    let mut longer = bytes.clone();
    longer.push(0);
    assert_eq!(decode_user_account(&longer), None);
    let mut wrong_tag = bytes.clone();
    wrong_tag[0] ^= 1;
    assert_eq!(decode_user_account(&wrong_tag), None);
    assert_eq!(decode_user_account(&[]), None);
}

#[test]
fn instructions_encode_and_decode() {
    for ix in [
        Instruction::Initialize,
        Instruction::Deposit { amount: 50_000_000 },
        Instruction::Withdraw { amount: 20_000_000 },
        Instruction::Deposit { amount: u64::MAX },
    ] {
        let bytes = encode_instruction(&ix);
        assert_eq!(decode_instruction(&bytes), Some(ix));
    }
    let bytes = encode_instruction(&Instruction::Deposit { amount: 1000 });
    assert_eq!(bytes.len(), 16);
    assert_eq!(&bytes[..8], &head_of_digest(DEPOSIT_TAG)[..]);
    assert_eq!(&bytes[8..], &1000u64.to_le_bytes()[..]);
    assert_eq!(encode_instruction(&Instruction::Initialize), head_of_digest(INITIALIZE_TAG));
}

#[test]
fn instruction_decoding_rejects_other_bytes() {
    let bytes = encode_instruction(&Instruction::Withdraw { amount: 5 });
    assert_eq!(decode_instruction(&bytes[..15]), None);
    assert_eq!(decode_instruction(&bytes[..8]), None);
    let mut wrong = bytes.clone();
    wrong[3] ^= 0x80;
    assert_eq!(decode_instruction(&wrong), None);
    let mut init_with_amount = encode_instruction(&Instruction::Initialize);
    init_with_amount.extend_from_slice(&5u64.to_le_bytes());
    assert_eq!(decode_instruction(&init_with_amount), None);
}
