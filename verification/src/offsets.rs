use vstd::prelude::*;
use crate::errors::SignatureVerificationError;

verus! {

/// Width in bytes of a serialized public key.
pub const PUBKEY_SERIALIZED_SIZE: usize = 32;

/// Width in bytes of a serialized signature.
pub const SIGNATURE_SERIALIZED_SIZE: usize = 64;

/// Width in bytes of the serialized offset table.
pub const SIGNATURE_OFFSETS_SERIALIZED_SIZE: usize = 14;

/// Position of the signature count and padding that precede the offset table.
pub const SIGNATURE_OFFSETS_START: usize = 0;

/// Width in bytes of the signature count and its padding byte.
pub const SIGNATURE_COUNT_SIZE: usize = 2;

/// First position after the offset table: header and table together.
pub const SIGNATURE_OFFSETS_END: usize = SIGNATURE_OFFSETS_START + SIGNATURE_COUNT_SIZE
    + SIGNATURE_OFFSETS_SERIALIZED_SIZE;

/// The offset table of an ed25519 verification instruction: where, inside
/// the payload, the signature, the public key and the message are said to lie.
#[derive(Clone, Copy, Debug, PartialEq, Eq, Structural)]
pub struct Ed25519SignatureOffsets {
    pub signature_offset: u16,
    pub signature_instruction_index: u16,
    pub public_key_offset: u16,
    pub public_key_instruction_index: u16,
    pub message_data_offset: u16,
    pub message_data_size: u16,
    pub message_instruction_index: u16,
}

/// The unsigned 16-bit number whose little-endian encoding is `low`, `high`.
pub open spec fn le_u16(low: u8, high: u8) -> u16 {
    (low as int + 256 * (high as int)) as u16
}

/// The little-endian 16-bit field that starts at position `at` of `payload`.
pub open spec fn field_at(payload: Seq<u8>, at: int) -> u16
    recommends
        0 <= at,
        at + 1 < payload.len(),
{
    le_u16(payload[at], payload[at + 1])
}

/// The offset table that the first sixteen bytes of `payload` encode: two
/// bytes of header that are skipped, then seven little-endian fields.
pub open spec fn decode_offsets(payload: Seq<u8>) -> Ed25519SignatureOffsets
    recommends
        payload.len() >= 16,
{
    Ed25519SignatureOffsets {
        signature_offset: field_at(payload, 2),
        signature_instruction_index: field_at(payload, 4),
        public_key_offset: field_at(payload, 6),
        public_key_instruction_index: field_at(payload, 8),
        message_data_offset: field_at(payload, 10),
        message_data_size: field_at(payload, 12),
        message_instruction_index: field_at(payload, 14),
    }
}

/// What parsing `payload` gives: the decoded table, or `LessDataThanExpected`
/// when header and table do not fit.
pub open spec fn parse_offsets(payload: Seq<u8>) -> Result<
    Ed25519SignatureOffsets,
    SignatureVerificationError,
> {
    if payload.len() < 16 {
        Err(SignatureVerificationError::LessDataThanExpected)
    } else {
        Ok(decode_offsets(payload))
    }
}

/// `payload` with the little-endian field at position `at` set to `value`.
pub open spec fn with_field(payload: Seq<u8>, at: int, value: u16) -> Seq<u8>
    recommends
        0 <= at,
        at + 1 < payload.len(),
{
    payload.update(at, (value % 256) as u8).update(at + 1, (value / 256) as u8)
}

/// Writing a field changes what is read at its place and nothing else: the
/// length stays, the field reads back as written, and every field that does
/// not share a byte with it reads as before.
pub proof fn lemma_with_field(payload: Seq<u8>, at: int, value: u16)
    requires
        0 <= at,
        at + 1 < payload.len(),
    ensures
        with_field(payload, at, value).len() == payload.len(),
        field_at(with_field(payload, at, value), at) == value,
        forall|other: int|
            0 <= other && other + 1 < payload.len() && (other + 1 < at || at + 1 < other)
                ==> #[trigger] field_at(with_field(payload, at, value), other) == field_at(
                payload,
                other,
            ),
{
}

/// Decodes one little-endian 16-bit field.
fn read_le_u16(payload: &[u8], at: usize) -> (value: u16)
    requires
        at + 1 < payload@.len(),
    ensures
        value == field_at(payload@, at as int),
{
    let low: u16 = payload[at] as u16;
    let high: u16 = payload[at + 1] as u16;
    high * 256 + low
}

impl Ed25519SignatureOffsets {
    /// Reads the offset table from the head of an instruction payload.
    ///
    /// The length is tested before any byte is read, so a short payload is
    /// an error and never an out-of-bounds access.
    pub fn parse(payload: &[u8]) -> (result: Result<Self, SignatureVerificationError>)
        ensures
            result == parse_offsets(payload@),
    {
        if payload.len() < SIGNATURE_OFFSETS_END {
            return Err(SignatureVerificationError::LessDataThanExpected);
        }
        let first: usize = SIGNATURE_OFFSETS_START + SIGNATURE_COUNT_SIZE;
        Ok(
            Ed25519SignatureOffsets {
                signature_offset: read_le_u16(payload, first),
                signature_instruction_index: read_le_u16(payload, first + 2),
                public_key_offset: read_le_u16(payload, first + 4),
                public_key_instruction_index: read_le_u16(payload, first + 6),
                message_data_offset: read_le_u16(payload, first + 8),
                message_data_size: read_le_u16(payload, first + 10),
                message_instruction_index: read_le_u16(payload, first + 12),
            },
        )
    }
}

} // verus!
