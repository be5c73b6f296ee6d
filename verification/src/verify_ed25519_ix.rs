use vstd::prelude::*;
use crate::batch::{fetched, InstructionBatch, InstructionView, RawInstruction};
use crate::errors::SignatureVerificationError;
use crate::extract::{extract, extracted, outcome, SignerRecordView, ValidatedSignerRecord};
use crate::layout::{check_origin, indices_agree, layout_fixed, origin_trusted, validate, validated};
use crate::offsets::{decode_offsets, parse_offsets, Ed25519SignatureOffsets, SIGNATURE_OFFSETS_END};

verus! {

/// The one record that an accepted payload yields: the key in bytes 16 to
/// 48, the signature in bytes 48 to 112, the message in all that follows.
pub open spec fn fixed_record(payload: Seq<u8>) -> SignerRecordView
    recommends
        payload.len() >= 112,
{
    SignerRecordView {
        public_key: payload.subrange(16, 48),
        signature: payload.subrange(48, 112),
        message: payload.subrange(112, payload.len() as int),
    }
}

/// The payload's table names the fixed layout and one instruction index,
/// and the payload holds every byte that the table declares.
pub open spec fn payload_well_formed(payload: Seq<u8>) -> bool
    recommends
        payload.len() >= 16,
{
    let table = decode_offsets(payload);
    &&& layout_fixed(table, 16)
    &&& indices_agree(table)
    &&& payload.len() >= 112 + table.message_data_size
}

/// What verifying one instruction gives.
///
/// An instruction that is not the trusted verifier's is `NotSigVerified`,
/// whatever it holds. Of the verifier's instructions, a payload under 16
/// bytes is `LessDataThanExpected`; any other payload that is not well
/// formed is `InvalidSignatureData`; a well-formed one yields its record.
pub open spec fn verified(instruction: InstructionView, trusted_program_id: Seq<u8>) -> Result<
    SignerRecordView,
    SignatureVerificationError,
> {
    if !origin_trusted(instruction, trusted_program_id) {
        Err(SignatureVerificationError::NotSigVerified)
    } else if instruction.data.len() < 16 {
        Err(SignatureVerificationError::LessDataThanExpected)
    } else if !payload_well_formed(instruction.data) {
        Err(SignatureVerificationError::InvalidSignatureData)
    } else {
        Ok(fixed_record(instruction.data))
    }
}

/// What verifying the instruction at a place of a batch gives: `OutOfRange`
/// where the batch has no instruction there, else what verifying that
/// instruction gives.
pub open spec fn verified_at(
    batch: InstructionBatch,
    relative_index: int,
    trusted_program_id: Seq<u8>,
) -> Result<SignerRecordView, SignatureVerificationError> {
    match fetched(batch, relative_index) {
        None => Err(SignatureVerificationError::OutOfRange),
        Some(instruction) => verified(instruction, trusted_program_id),
    }
}

/// The stages in their order: origin, table, layout, regions. Each stage's
/// error ends the run.
pub open spec fn staged(instruction: InstructionView, trusted_program_id: Seq<u8>) -> Result<
    SignerRecordView,
    SignatureVerificationError,
> {
    if !origin_trusted(instruction, trusted_program_id) {
        Err(SignatureVerificationError::NotSigVerified)
    } else {
        match parse_offsets(instruction.data) {
            Err(error) => Err(error),
            Ok(table) => match validated(instruction, table, trusted_program_id, 16) {
                Err(error) => Err(error),
                Ok(_) => extracted(instruction.data, table),
            },
        }
    }
}

/// Running the stages one after the other gives what `verified` states.
pub proof fn lemma_stages_give_verified(instruction: InstructionView, trusted_program_id: Seq<u8>)
    ensures
        staged(instruction, trusted_program_id) == verified(instruction, trusted_program_id),
{
}

/// Verifies one instruction against the trusted program: origin first, then
/// the offset table, the layout it names, and the regions themselves.
pub fn verify_instruction(instruction: &RawInstruction, trusted_program_id: &[u8; 32]) -> (result:
    Result<ValidatedSignerRecord, SignatureVerificationError>)
    ensures
        outcome(result) == verified(instruction@, trusted_program_id@),
{
    check_origin(instruction, trusted_program_id)?;
    let table: Ed25519SignatureOffsets = Ed25519SignatureOffsets::parse(instruction.data.as_slice())?;
    validate(instruction, &table, trusted_program_id, SIGNATURE_OFFSETS_END)?;
    extract(instruction, &table)
}

/// Verifies the instruction that stands `relative_index` places from the
/// running one, and hands out the signer, signature and message that the
/// trusted program verified in it.
pub fn verify_ed25519_ix(
    instructions: &InstructionBatch,
    relative_index: i64,
    trusted_program_id: &[u8; 32],
) -> (result: Result<ValidatedSignerRecord, SignatureVerificationError>)
    ensures
        outcome(result) == verified_at(*instructions, relative_index as int, trusted_program_id@),
{
    let instruction: RawInstruction = instructions.fetch(relative_index)?;
    verify_instruction(&instruction, trusted_program_id)
}

} // verus!
