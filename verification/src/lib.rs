//! Checks that an instruction of the running transaction is a call of the
//! trusted ed25519 verifier whose payload has the one accepted layout, and
//! hands out the public key, signature and message that it verified.

pub mod batch;
pub mod errors;
pub mod extract;
pub mod guarantees;
pub mod layout;
pub mod offsets;
pub mod verify_ed25519_ix;
pub mod withdraw;
