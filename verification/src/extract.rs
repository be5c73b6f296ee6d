use vstd::prelude::*;
use vstd::slice::slice_subrange;
use vstd::slice::slice_to_vec;
use crate::batch::RawInstruction;
use crate::errors::SignatureVerificationError;
use crate::offsets::{Ed25519SignatureOffsets, PUBKEY_SERIALIZED_SIZE, SIGNATURE_SERIALIZED_SIZE};
use anchor_lang::solana_program::pubkey::Pubkey;
use core::array::TryFromSliceError;

verus! {

/// The signer, signature and message that a verification instruction
/// carried, copied out of its payload.
#[derive(Clone, Debug, PartialEq, Eq)]
pub struct ValidatedSignerRecord {
    pub public_key: [u8; 32],
    pub signature: [u8; 64],
    pub message: Vec<u8>,
}

/// A record as contracts speak of it.
pub struct SignerRecordView {
    pub public_key: Seq<u8>,
    pub signature: Seq<u8>,
    pub message: Seq<u8>,
}

impl View for ValidatedSignerRecord {
    type V = SignerRecordView;

    open spec fn view(&self) -> SignerRecordView {
        SignerRecordView {
            public_key: self.public_key@,
            signature: self.signature@,
            message: self.message@,
        }
    }
}

/// A result as contracts speak of it: the record by its view.
pub open spec fn outcome(result: Result<ValidatedSignerRecord, SignatureVerificationError>) -> Result<
    SignerRecordView,
    SignatureVerificationError,
> {
    match result {
        Ok(record) => Ok(record@),
        Err(error) => Err(error),
    }
}

/// All three regions that the table describes lie inside the payload: the
/// 32 bytes of the key, the 64 bytes of the signature, and as many message
/// bytes as the table declares.
pub open spec fn regions_in_bounds(payload: Seq<u8>, table: Ed25519SignatureOffsets) -> bool {
    &&& table.public_key_offset + 32 <= payload.len()
    &&& table.signature_offset + 64 <= payload.len()
    &&& table.message_data_offset + table.message_data_size <= payload.len()
}

/// What extraction gives: the key and the signature at their offsets and the
/// message from its offset to the end of the payload, or
/// `InvalidSignatureData` when a region would leave the payload.
pub open spec fn extracted(payload: Seq<u8>, table: Ed25519SignatureOffsets) -> Result<
    SignerRecordView,
    SignatureVerificationError,
> {
    if regions_in_bounds(payload, table) {
        Ok(
            SignerRecordView {
                public_key: payload.subrange(
                    table.public_key_offset as int,
                    table.public_key_offset + 32,
                ),
                signature: payload.subrange(
                    table.signature_offset as int,
                    table.signature_offset + 64,
                ),
                message: payload.subrange(table.message_data_offset as int, payload.len() as int),
            },
        )
    } else {
        Err(SignatureVerificationError::InvalidSignatureData)
    }
}

/// The error of a failed conversion from a slice to an array. It is carried
/// through and never looked into.
#[verifier::external_type_specification]
#[verifier::external_body]
pub struct ExTryFromSliceError(TryFromSliceError);

/// Calls `Pubkey::try_from` of `solana_program` on a byte slice and hands
/// back the key's bytes.
///
/// Believed of it: it accepts exactly the slices of 32 bytes, whatever they
/// hold, and the key is a copy of the slice.
#[verifier::external_body]
fn public_key_from_slice(bytes: &[u8]) -> (result: Result<[u8; 32], TryFromSliceError>)
    ensures
        result is Ok <==> bytes@.len() == 32,
        result matches Ok(key) ==> key@ == bytes@,
{
    Pubkey::try_from(bytes).map(|key| key.to_bytes())
}

/// Copies the 64 bytes of a signature out of the payload.
fn signature_at(payload: &[u8], offset: usize) -> (signature: [u8; 64])
    requires
        offset + 64 <= payload@.len(),
    ensures
        signature@ == payload@.subrange(offset as int, offset + 64),
{
    let mut signature: [u8; 64] = [0u8; 64];
    let mut at: usize = 0;
    while at < 64
        invariant
            at <= 64,
            offset + 64 <= payload.len(),
            forall|i: int| 0 <= i < at ==> signature@[i] == payload@[offset + i],
        decreases 64 - at,
    {
        signature[at] = payload[offset + at];
        at += 1;
    }
    assert(signature@ =~= payload@.subrange(offset as int, offset + 64));
    signature
}

/// Cuts the public key, the signature and the message out of a payload.
///
/// Every region is held against the length of the payload before it is
/// read; one that does not fit is `InvalidSignatureData`. The message runs
/// from its offset to the end of the payload.
pub fn extract(instruction: &RawInstruction, table: &Ed25519SignatureOffsets) -> (result: Result<
    ValidatedSignerRecord,
    SignatureVerificationError,
>)
    ensures
        outcome(result) == extracted(instruction@.data, *table),
{
    let payload: &[u8] = instruction.data.as_slice();
    let length: usize = payload.len();
    let public_key_offset: usize = table.public_key_offset as usize;
    let signature_offset: usize = table.signature_offset as usize;
    let message_data_offset: usize = table.message_data_offset as usize;
    let message_data_size: usize = table.message_data_size as usize;
    if length < public_key_offset + PUBKEY_SERIALIZED_SIZE || length < signature_offset
        + SIGNATURE_SERIALIZED_SIZE || length < message_data_offset + message_data_size {
        return Err(SignatureVerificationError::InvalidSignatureData);
    }
    let public_key: [u8; 32] = match public_key_from_slice(
        slice_subrange(payload, public_key_offset, public_key_offset + PUBKEY_SERIALIZED_SIZE),
    ) {
        Ok(key) => key,
        Err(_) => {
            return Err(SignatureVerificationError::InvalidSignatureData);
        },
    };
    let signature: [u8; 64] = signature_at(payload, signature_offset);
    let message: Vec<u8> = slice_to_vec(slice_subrange(payload, message_data_offset, length));
    Ok(ValidatedSignerRecord { public_key, signature, message })
}

} // verus!
