use anchor_lang::solana_program::pubkey::Pubkey;
use anchor_lang::solana_program::sysvar::instructions::{
    construct_instructions_data, store_current_index, BorrowedAccountMeta, BorrowedInstruction, ID,
};
use solana_signature_verification::batch::{InstructionBatch, RawInstruction};
use solana_signature_verification::errors::SignatureVerificationError;

fn serialized(instructions: &[RawInstruction], current: u16) -> Vec<u8> {
    let programs: Vec<Pubkey> =
        instructions.iter().map(|one| Pubkey::new_from_array(one.program_id)).collect();
    let keys: Vec<Vec<Pubkey>> = instructions
        .iter()
        .map(|one| one.accounts.iter().map(|key| Pubkey::new_from_array(*key)).collect())
        .collect();
    let mut borrowed: Vec<BorrowedInstruction> = Vec::new();
    for (at, one) in instructions.iter().enumerate() {
        let accounts: Vec<BorrowedAccountMeta> = keys[at]
            .iter()
            .map(|key| BorrowedAccountMeta { pubkey: key, is_signer: true, is_writable: false })
            .collect();
        borrowed.push(BorrowedInstruction { program_id: &programs[at], accounts, data: &one.data });
    }
    let mut data = construct_instructions_data(&borrowed);
    store_current_index(&mut data, current);
    data
}

fn three() -> Vec<RawInstruction> {
    vec![
        RawInstruction { program_id: [1u8; 32], accounts: vec![], data: vec![10, 11, 12] },
        RawInstruction {
            program_id: [2u8; 32],
            accounts: vec![[21u8; 32], [22u8; 32]],
            data: vec![],
        },
        RawInstruction { program_id: [3u8; 32], accounts: vec![[31u8; 32]], data: vec![30; 300] },
    ]
}

fn batch_at(current: u16) -> InstructionBatch {
    InstructionBatch { key: ID.to_bytes(), data: serialized(&three(), current) }
}

#[test]
fn fetch_finds_each_instruction_by_its_distance() {
    let instructions = three();
    let batch = batch_at(2);
    assert_eq!(batch.fetch(-1), Ok(instructions[1].clone()));
    assert_eq!(batch.fetch(-2), Ok(instructions[0].clone()));
    assert_eq!(batch.fetch(0), Ok(instructions[2].clone()));
    let batch = batch_at(0);
    assert_eq!(batch.fetch(0), Ok(instructions[0].clone()));
    assert_eq!(batch.fetch(1), Ok(instructions[1].clone()));
    assert_eq!(batch.fetch(2), Ok(instructions[2].clone()));
}

#[test]
fn fetch_decodes_program_accounts_and_payload() {
    let found = batch_at(2).fetch(-1).unwrap();
    assert_eq!(found.program_id, [2u8; 32]);
    assert_eq!(found.accounts, vec![[21u8; 32], [22u8; 32]]);
    assert_eq!(found.data, Vec::<u8>::new());
    let found = batch_at(1).fetch(1).unwrap();
    assert_eq!(found.program_id, [3u8; 32]);
    assert_eq!(found.accounts.len(), 1);
    assert_eq!(found.data.len(), 300);
}

#[test]
fn fetch_before_the_first_instruction_is_out_of_range() {
    assert_eq!(batch_at(0).fetch(-1), Err(SignatureVerificationError::OutOfRange));
    assert_eq!(batch_at(2).fetch(-3), Err(SignatureVerificationError::OutOfRange));
    assert_eq!(batch_at(1).fetch(-65535), Err(SignatureVerificationError::OutOfRange));
    assert_eq!(batch_at(1).fetch(-65536), Err(SignatureVerificationError::OutOfRange));
    assert_eq!(batch_at(1).fetch(i64::MIN), Err(SignatureVerificationError::OutOfRange));
}

#[test]
fn fetch_after_the_last_instruction_is_out_of_range() {
    assert_eq!(batch_at(0).fetch(3), Err(SignatureVerificationError::OutOfRange));
    assert_eq!(batch_at(2).fetch(1), Err(SignatureVerificationError::OutOfRange));
    assert_eq!(batch_at(1).fetch(65535), Err(SignatureVerificationError::OutOfRange));
    assert_eq!(batch_at(1).fetch(65536), Err(SignatureVerificationError::OutOfRange));
    assert_eq!(batch_at(1).fetch(4294967296), Err(SignatureVerificationError::OutOfRange));
    assert_eq!(batch_at(1).fetch(i64::MAX), Err(SignatureVerificationError::OutOfRange));
}

#[test]
fn fetch_from_an_empty_batch_is_out_of_range() {
    let batch = InstructionBatch { key: ID.to_bytes(), data: serialized(&[], 0) };
    assert_eq!(batch.fetch(0), Err(SignatureVerificationError::OutOfRange));
    assert_eq!(batch.fetch(-1), Err(SignatureVerificationError::OutOfRange));
}

#[test]
fn fetch_from_data_without_an_index_is_out_of_range() {
    let batch = InstructionBatch { key: ID.to_bytes(), data: vec![] };
    assert_eq!(batch.fetch(0), Err(SignatureVerificationError::OutOfRange));
    let batch = InstructionBatch { key: ID.to_bytes(), data: vec![0] };
    assert_eq!(batch.fetch(0), Err(SignatureVerificationError::OutOfRange));
}

#[test]
fn fetch_from_another_account_is_out_of_range() {
    let mut batch = batch_at(2);
    batch.key = [0u8; 32];
    assert_eq!(batch.fetch(-1), Err(SignatureVerificationError::OutOfRange));
}

#[test]
fn fetch_from_data_that_does_not_decode_is_out_of_range() {
    let batch = InstructionBatch { key: ID.to_bytes(), data: vec![1, 0, 0xff, 0xff, 0, 0] };
    assert_eq!(batch.fetch(0), Err(SignatureVerificationError::OutOfRange));
}
