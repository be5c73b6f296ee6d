use vstd::prelude::*;

verus! {

/// Why a signature-verification instruction was not accepted.
#[derive(Clone, Copy, Debug, PartialEq, Eq, Structural)]
pub enum SignatureVerificationError {
    /// The requested instruction does not exist in the transaction.
    OutOfRange,
    /// The instruction was not issued by the trusted verifier, or it carries accounts.
    NotSigVerified,
    /// The payload is too short to hold a complete offset table.
    LessDataThanExpected,
    /// The offset table does not describe the one accepted layout, or a region
    /// it describes does not lie inside the payload.
    InvalidSignatureData,
}

} // verus!
