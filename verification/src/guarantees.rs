//! What the verification guarantees, stated over `verified` and proved.

use vstd::prelude::*;
use crate::batch::InstructionView;
use crate::errors::SignatureVerificationError;
use crate::extract::{regions_in_bounds, SignerRecordView};
use crate::layout::{indices_agree, origin_trusted};
use crate::offsets::{decode_offsets, field_at, lemma_with_field, with_field};
use crate::verify_ed25519_ix::verified;

verus! {

/// A payload of the trusted verifier whose table puts the key at 16, the
/// signature at 48 and the message at 112, names one instruction index
/// throughout, and is as long as the message it declares, is accepted, and
/// key, signature and message are exactly the bytes at those places.
pub proof fn lemma_fixed_layout_accepted(instruction: InstructionView, trusted_program_id: Seq<u8>)
    requires
        origin_trusted(instruction, trusted_program_id),
        decode_offsets(instruction.data).public_key_offset == 16,
        decode_offsets(instruction.data).signature_offset == 48,
        decode_offsets(instruction.data).message_data_offset == 112,
        indices_agree(decode_offsets(instruction.data)),
        instruction.data.len() >= 112 + decode_offsets(instruction.data).message_data_size,
    ensures
        verified(instruction, trusted_program_id) == Ok::<
            SignerRecordView,
            SignatureVerificationError,
        >(
            SignerRecordView {
                public_key: instruction.data.subrange(16, 48),
                signature: instruction.data.subrange(48, 112),
                message: instruction.data.subrange(112, instruction.data.len() as int),
            },
        ),
{
}

/// Moving any of the three offsets away from its fixed place is rejected as
/// `InvalidSignatureData`, wherever it is moved to, inside the payload or
/// outside it.
pub proof fn lemma_moved_offset_rejected(instruction: InstructionView, trusted_program_id: Seq<u8>)
    requires
        origin_trusted(instruction, trusted_program_id),
        instruction.data.len() >= 16,
        decode_offsets(instruction.data).public_key_offset != 16 || decode_offsets(
            instruction.data,
        ).signature_offset != 48 || decode_offsets(instruction.data).message_data_offset != 112,
    ensures
        verified(instruction, trusted_program_id) == Err::<
            SignerRecordView,
            SignatureVerificationError,
        >(SignatureVerificationError::InvalidSignatureData),
{
}

/// A table whose three instruction indices are not all the same is rejected
/// as `InvalidSignatureData`, whatever its offsets are.
pub proof fn lemma_index_mismatch_rejected(instruction: InstructionView, trusted_program_id: Seq<u8>)
    requires
        origin_trusted(instruction, trusted_program_id),
        instruction.data.len() >= 16,
        !indices_agree(decode_offsets(instruction.data)),
    ensures
        verified(instruction, trusted_program_id) == Err::<
            SignerRecordView,
            SignatureVerificationError,
        >(SignatureVerificationError::InvalidSignatureData),
{
}

/// An instruction of any other program, or one that names an account, is
/// rejected as `NotSigVerified`, whatever its payload holds.
pub proof fn lemma_untrusted_origin_rejected(instruction: InstructionView, trusted_program_id: Seq<u8>)
    requires
        instruction.program_id != trusted_program_id || instruction.accounts.len() >= 1,
    ensures
        verified(instruction, trusted_program_id) == Err::<
            SignerRecordView,
            SignatureVerificationError,
        >(SignatureVerificationError::NotSigVerified),
{
}

/// A payload of the trusted verifier that is cut short is rejected: under
/// 16 bytes as `LessDataThanExpected`, and from 16 bytes on as
/// `InvalidSignatureData` whenever the key, the signature or the declared
/// message would reach past its end.
pub proof fn lemma_truncated_payload_rejected(
    instruction: InstructionView,
    trusted_program_id: Seq<u8>,
)
    requires
        origin_trusted(instruction, trusted_program_id),
    ensures
        instruction.data.len() < 16 ==> verified(instruction, trusted_program_id) == Err::<
            SignerRecordView,
            SignatureVerificationError,
        >(SignatureVerificationError::LessDataThanExpected),
        instruction.data.len() >= 16 && !regions_in_bounds(
            instruction.data,
            decode_offsets(instruction.data),
        ) ==> verified(instruction, trusted_program_id) == Err::<
            SignerRecordView,
            SignatureVerificationError,
        >(SignatureVerificationError::InvalidSignatureData),
{
}

/// In an accepted payload the header and table, the key, the signature and
/// the message follow one another without gap or overlap: laid end to end
/// they are the payload again, and the message holds at least the bytes
/// that the table declares.
pub proof fn lemma_accepted_regions_tile_payload(
    instruction: InstructionView,
    trusted_program_id: Seq<u8>,
)
    ensures
        verified(instruction, trusted_program_id) matches Ok(record) ==> {
            &&& record.public_key.len() == 32
            &&& record.signature.len() == 64
            &&& record.message.len() >= decode_offsets(instruction.data).message_data_size
            &&& instruction.data == instruction.data.subrange(0, 16) + record.public_key
                + record.signature + record.message
        },
{
    if let Ok(record) = verified(instruction, trusted_program_id) {
        assert(instruction.data =~= instruction.data.subrange(0, 16) + record.public_key
            + record.signature + record.message);
    }
}

/// The places in a payload of the three offsets: signature, public key,
/// message.
pub open spec fn is_offset_field(at: int) -> bool {
    at == 2 || at == 6 || at == 10
}

/// The places in a payload of the three instruction indices.
pub open spec fn is_index_field(at: int) -> bool {
    at == 4 || at == 8 || at == 14
}

/// Take an accepted instruction and overwrite one of its three offsets with
/// any other value: the result is rejected as `InvalidSignatureData`.
pub proof fn lemma_tampered_offset_rejected(
    instruction: InstructionView,
    trusted_program_id: Seq<u8>,
    at: int,
    value: u16,
)
    requires
        verified(instruction, trusted_program_id) is Ok,
        is_offset_field(at),
        value != field_at(instruction.data, at),
    ensures
        verified(
            InstructionView { data: with_field(instruction.data, at, value), ..instruction },
            trusted_program_id,
        ) == Err::<SignerRecordView, SignatureVerificationError>(
            SignatureVerificationError::InvalidSignatureData,
        ),
{
    lemma_with_field(instruction.data, at, value);
}

/// Take an accepted instruction and overwrite one of its three instruction
/// indices with any other value: the result is rejected as
/// `InvalidSignatureData`.
pub proof fn lemma_tampered_index_rejected(
    instruction: InstructionView,
    trusted_program_id: Seq<u8>,
    at: int,
    value: u16,
)
    requires
        verified(instruction, trusted_program_id) is Ok,
        is_index_field(at),
        value != field_at(instruction.data, at),
    ensures
        verified(
            InstructionView { data: with_field(instruction.data, at, value), ..instruction },
            trusted_program_id,
        ) == Err::<SignerRecordView, SignatureVerificationError>(
            SignatureVerificationError::InvalidSignatureData,
        ),
{
    lemma_with_field(instruction.data, at, value);
}

} // verus!
