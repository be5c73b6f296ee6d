use vstd::prelude::*;
use crate::batch::{InstructionView, RawInstruction};
use crate::errors::SignatureVerificationError;
use crate::offsets::{Ed25519SignatureOffsets, PUBKEY_SERIALIZED_SIZE, SIGNATURE_SERIALIZED_SIZE};

verus! {

/// The instruction comes from the trusted verifier: it names that program
/// and no account at all.
pub open spec fn origin_trusted(instruction: InstructionView, trusted_program_id: Seq<u8>) -> bool {
    instruction.program_id == trusted_program_id && instruction.accounts.len() == 0
}

/// The three regions lie back to back behind the offset table: the public
/// key at `table_region_end`, the signature 32 bytes on, the message 64
/// bytes after that.
pub open spec fn layout_fixed(table: Ed25519SignatureOffsets, table_region_end: int) -> bool {
    &&& table.public_key_offset == table_region_end
    &&& table.signature_offset == table.public_key_offset + 32
    &&& table.message_data_offset == table.signature_offset + 64
}

/// Signature, public key and message all claim the same instruction.
pub open spec fn indices_agree(table: Ed25519SignatureOffsets) -> bool {
    table.signature_instruction_index == table.public_key_instruction_index
        && table.signature_instruction_index == table.message_instruction_index
}

/// What validation gives: the first gate that fails decides the error.
pub open spec fn validated(
    instruction: InstructionView,
    table: Ed25519SignatureOffsets,
    trusted_program_id: Seq<u8>,
    table_region_end: int,
) -> Result<(), SignatureVerificationError> {
    if !origin_trusted(instruction, trusted_program_id) {
        Err(SignatureVerificationError::NotSigVerified)
    } else if instruction.data.len() < table_region_end {
        Err(SignatureVerificationError::LessDataThanExpected)
    } else if !layout_fixed(table, table_region_end) {
        Err(SignatureVerificationError::InvalidSignatureData)
    } else if !indices_agree(table) {
        Err(SignatureVerificationError::InvalidSignatureData)
    } else {
        Ok(())
    }
}

/// Compares two program identifiers byte by byte.
fn same_id(left: &[u8; 32], right: &[u8; 32]) -> (same: bool)
    ensures
        same <==> left@ == right@,
{
    let mut at: usize = 0;
    while at < 32
        invariant
            at <= 32,
            forall|i: int| 0 <= i < at ==> left@[i] == right@[i],
        decreases 32 - at,
    {
        if left[at] != right[at] {
            return false;
        }
        at += 1;
    }
    assert(left@ =~= right@);
    true
}

/// The first gate alone: is the instruction a call of the trusted verifier
/// that names no account?
pub fn check_origin(instruction: &RawInstruction, trusted_program_id: &[u8; 32]) -> (result: Result<
    (),
    SignatureVerificationError,
>)
    ensures
        origin_trusted(instruction@, trusted_program_id@) ==> result == Ok::<
            (),
            SignatureVerificationError,
        >(()),
        !origin_trusted(instruction@, trusted_program_id@) ==> result == Err::<
            (),
            SignatureVerificationError,
        >(SignatureVerificationError::NotSigVerified),
{
    if !same_id(&instruction.program_id, trusted_program_id) || instruction.accounts.len() != 0 {
        return Err(SignatureVerificationError::NotSigVerified);
    }
    Ok(())
}

/// Holds an instruction and its decoded offset table to the trusted shape.
///
/// The gates run in a fixed order and the first that fails ends the check:
/// origin, length of the payload, position of the three regions, agreement
/// of the three instruction indices.
pub fn validate(
    instruction: &RawInstruction,
    table: &Ed25519SignatureOffsets,
    trusted_program_id: &[u8; 32],
    table_region_end: usize,
) -> (result: Result<(), SignatureVerificationError>)
    ensures
        result == validated(instruction@, *table, trusted_program_id@, table_region_end as int),
{
    check_origin(instruction, trusted_program_id)?;
    if instruction.data.len() < table_region_end {
        return Err(SignatureVerificationError::LessDataThanExpected);
    }
    let public_key_offset: usize = table.public_key_offset as usize;
    let signature_offset: usize = table.signature_offset as usize;
    let message_data_offset: usize = table.message_data_offset as usize;
    if public_key_offset != table_region_end || signature_offset != public_key_offset
        + PUBKEY_SERIALIZED_SIZE || message_data_offset != signature_offset
        + SIGNATURE_SERIALIZED_SIZE {
        return Err(SignatureVerificationError::InvalidSignatureData);
    }
    if table.signature_instruction_index != table.public_key_instruction_index
        || table.signature_instruction_index != table.message_instruction_index {
        return Err(SignatureVerificationError::InvalidSignatureData);
    }
    Ok(())
}

} // verus!
