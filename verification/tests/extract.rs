use solana_signature_verification::batch::RawInstruction;
use solana_signature_verification::errors::SignatureVerificationError;
use solana_signature_verification::extract::{extract, ValidatedSignerRecord};
use solana_signature_verification::offsets::Ed25519SignatureOffsets;

fn numbered(length: usize) -> RawInstruction {
    let data: Vec<u8> = (0..length).map(|i| (i % 251) as u8).collect();
    RawInstruction { program_id: [7u8; 32], accounts: vec![], data }
}

fn table(public_key: u16, signature: u16, message: u16, size: u16) -> Ed25519SignatureOffsets {
    Ed25519SignatureOffsets {
        signature_offset: signature,
        signature_instruction_index: 0,
        public_key_offset: public_key,
        public_key_instruction_index: 0,
        message_data_offset: message,
        message_data_size: size,
        message_instruction_index: 0,
    }
}

#[test]
fn extract_cuts_the_three_regions() {
    let instruction = numbered(117);
    let record = extract(&instruction, &table(16, 48, 112, 5)).unwrap();
    let mut key = [0u8; 32];
    key.copy_from_slice(&instruction.data[16..48]);
    let mut signature = [0u8; 64];
    signature.copy_from_slice(&instruction.data[48..112]);
    assert_eq!(
        record,
        ValidatedSignerRecord { public_key: key, signature, message: vec![112, 113, 114, 115, 116] }
    );
    assert_eq!(record.public_key[0], 16);
    assert_eq!(record.public_key[31], 47);
    assert_eq!(record.signature[0], 48);
    assert_eq!(record.signature[63], 111);
}

#[test]
fn extract_takes_the_message_to_the_end_of_the_payload() {
    let instruction = numbered(120);
    let record = extract(&instruction, &table(16, 48, 112, 5)).unwrap();
    assert_eq!(record.message, vec![112, 113, 114, 115, 116, 117, 118, 119]);
}

#[test]
fn extract_accepts_an_empty_message() {
    let instruction = numbered(112);
    let record = extract(&instruction, &table(16, 48, 112, 0)).unwrap();
    assert_eq!(record.message, Vec::<u8>::new());
}

#[test]
fn extract_reads_where_the_table_points() {
    let instruction = numbered(200);
    let record = extract(&instruction, &table(100, 0, 190, 10)).unwrap();
    assert_eq!(record.public_key[0], 100);
    assert_eq!(record.public_key[31], 131);
    assert_eq!(record.signature[0], 0);
    assert_eq!(record.signature[63], 63);
    assert_eq!(record.message, vec![190, 191, 192, 193, 194, 195, 196, 197, 198, 199]);
}

#[test]
fn extract_refuses_a_message_that_is_cut_short() {
    assert_eq!(
        extract(&numbered(116), &table(16, 48, 112, 5)),
        Err(SignatureVerificationError::InvalidSignatureData)
    );
}

#[test]
fn extract_refuses_a_signature_that_is_cut_short() {
    assert_eq!(
        extract(&numbered(111), &table(16, 48, 100, 0)),
        Err(SignatureVerificationError::InvalidSignatureData)
    );
}

#[test]
fn extract_refuses_a_key_that_is_cut_short() {
    assert_eq!(
        extract(&numbered(100), &table(69, 0, 64, 0)),
        Err(SignatureVerificationError::InvalidSignatureData)
    );
    assert!(extract(&numbered(100), &table(68, 0, 64, 0)).is_ok());
}

#[test]
fn extract_refuses_offsets_at_the_top_of_the_range() {
    assert_eq!(
        extract(&numbered(117), &table(65535, 65535, 65535, 65535)),
        Err(SignatureVerificationError::InvalidSignatureData)
    );
    assert_eq!(
        extract(&numbered(0), &table(0, 0, 0, 0)),
        Err(SignatureVerificationError::InvalidSignatureData)
    );
}
