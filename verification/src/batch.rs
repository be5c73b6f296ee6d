use vstd::prelude::*;
use crate::errors::SignatureVerificationError;
use anchor_lang::solana_program::account_info::AccountInfo;
use anchor_lang::solana_program::program_error::ProgramError;
use anchor_lang::solana_program::pubkey::Pubkey;
use anchor_lang::solana_program::sysvar::instructions::get_instruction_relative;

verus! {

/// One instruction of a transaction: the program it calls, the accounts it
/// names, and its payload.
#[derive(Clone, Debug, PartialEq, Eq)]
pub struct RawInstruction {
    pub program_id: [u8; 32],
    pub accounts: Vec<[u8; 32]>,
    pub data: Vec<u8>,
}

/// An instruction as contracts speak of it.
pub struct InstructionView {
    pub program_id: Seq<u8>,
    pub accounts: Seq<Seq<u8>>,
    pub data: Seq<u8>,
}

impl View for RawInstruction {
    type V = InstructionView;

    open spec fn view(&self) -> InstructionView {
        InstructionView {
            program_id: self.program_id@,
            accounts: Seq::new(self.accounts@.len(), |i: int| self.accounts@[i]@),
            data: self.data@,
        }
    }
}

/// The instructions of the running transaction as the host hands them to a
/// program: the address of the instructions sysvar account and its data.
/// The last two bytes of the data are the index of the running instruction.
#[derive(Clone, Debug, PartialEq, Eq)]
pub struct InstructionBatch {
    pub key: [u8; 32],
    pub data: Vec<u8>,
}

/// The error of `solana_program`'s own functions. It is carried through and
/// never looked into.
#[verifier::external_type_specification]
#[verifier::external_body]
pub struct ExProgramError(ProgramError);

/// The instruction that stands `relative_index` places from the running one
/// in the sysvar account with address `key` and data `data`, as
/// `get_instruction_relative` of `solana_program` decodes it; `None` where
/// that function returns an error.
pub uninterp spec fn instruction_relative(relative_index: int, key: Seq<u8>, data: Seq<u8>) -> Option<InstructionView>;

/// Number of instructions that sysvar data announces in its first two bytes.
pub open spec fn batch_len(data: Seq<u8>) -> int
    recommends
        data.len() >= 2,
{
    data[0] as int + 256 * (data[1] as int)
}

/// Index of the running instruction, which the host keeps in the last two
/// bytes of the sysvar data.
pub open spec fn current_index(data: Seq<u8>) -> int
    recommends
        data.len() >= 2,
{
    data[data.len() - 2] as int + 256 * (data[data.len() - 1] as int)
}

/// Whether the place `relative_index` away from the running instruction is
/// one of the places that the sysvar data announces.
pub open spec fn in_batch(data: Seq<u8>, relative_index: int) -> bool {
    data.len() >= 2 && 0 <= current_index(data) + relative_index < batch_len(data)
}

/// Calls `solana_program::sysvar::instructions::get_instruction_relative` on
/// an account made of `key` and a copy of `data`.
///
/// Believed of it: its answer depends on the index, the address and the data
/// alone, and it is an error whenever the running index plus
/// `relative_index` is negative or not below the announced count. Data
/// shorter than two bytes makes the outside function panic and is left out;
/// so are indices beyond sixteen bits, which it narrows to the width of the
/// machine.
#[verifier::external_body]
fn load_instruction_relative(relative_index: i64, key: &[u8; 32], data: &[u8]) -> (result: Result<
    RawInstruction,
    ProgramError,
>)
    requires
        data@.len() >= 2,
        -65536 < relative_index < 65536,
    ensures
        result matches Ok(instruction) ==> instruction_relative(
            relative_index as int,
            key@,
            data@,
        ) == Some(instruction@),
        result is Err <==> instruction_relative(relative_index as int, key@, data@) is None,
        !in_batch(data@, relative_index as int) ==> result is Err,
{
    let address = Pubkey::new_from_array(*key);
    let (mut lamports, mut bytes) = (0u64, data.to_vec());
    let account = AccountInfo::new(&address, false, false, &mut lamports, &mut bytes, &address, false, 0);
    let found = get_instruction_relative(relative_index, &account)?;
    Ok(
        RawInstruction {
            program_id: found.program_id.to_bytes(),
            accounts: found.accounts.iter().map(|meta| meta.pubkey.to_bytes()).collect(),
            data: found.data,
        },
    )
}

/// What fetching gives: the instruction that the host's decoder finds at a
/// place inside the batch, and `None` at a place outside it or where the
/// decoder fails.
pub open spec fn fetched(batch: InstructionBatch, relative_index: int) -> Option<InstructionView> {
    if in_batch(batch.data@, relative_index) {
        instruction_relative(relative_index, batch.key@, batch.data@)
    } else {
        None
    }
}

/// A fetch's result as contracts speak of it.
pub open spec fn fetch_outcome(result: Result<RawInstruction, SignatureVerificationError>) -> Result<
    InstructionView,
    SignatureVerificationError,
> {
    match result {
        Ok(instruction) => Ok(instruction@),
        Err(error) => Err(error),
    }
}

impl InstructionBatch {
    /// The instruction that stands `relative_index` places from the running
    /// one: `-1` is the instruction just before it. A place outside the
    /// batch is `OutOfRange`, and so is one that cannot be decoded.
    pub fn fetch(&self, relative_index: i64) -> (result: Result<
        RawInstruction,
        SignatureVerificationError,
    >)
        ensures
            fetch_outcome(result) == match fetched(*self, relative_index as int) {
                Some(instruction) => Ok::<InstructionView, SignatureVerificationError>(instruction),
                None => Err(SignatureVerificationError::OutOfRange),
            },
    {
        if self.data.len() < 2 || relative_index <= -65536 || relative_index >= 65536 {
            return Err(SignatureVerificationError::OutOfRange);
        }
        match load_instruction_relative(relative_index, &self.key, self.data.as_slice()) {
            Ok(instruction) => Ok(instruction),
            Err(_) => Err(SignatureVerificationError::OutOfRange),
        }
    }
}

} // verus!
