//! Plain lamport transfers.
use vstd::prelude::*;
use vstd::bytes::{spec_u32_to_le_bytes, spec_u64_to_le_bytes};
use crate::keys::{zero_key, Pubkey};
use crate::tx::{AccountMeta, Instruction, InstructionView};

verus! {

/// The system program's transfer of `lamports` from `from` (signing) to `to`: its data
/// is the transfer's variant index (2) as a little-endian `u32`, then the lamports as a
/// little-endian `u64`.
pub open spec fn system_transfer_view(from: Seq<u8>, to: Seq<u8>, lamports: u64) -> InstructionView {
    InstructionView {
        program_id: zero_key(),
        accounts: seq![(from, true, true), (to, false, true)],
        data: spec_u32_to_le_bytes(2) + spec_u64_to_le_bytes(lamports),
    }
}

/// `solana_system_interface::instruction::transfer`: the instruction has the system
/// program's address, the funding account as writable signer and the recipient as
/// writable, and the bincode encoding of `SystemInstruction::Transfer { lamports }`
/// (the variant's index, 2, as a little-endian `u32`, then the lamports).
#[verifier::external_body]
fn system_transfer(from: &Pubkey, to: &Pubkey, lamports: u64) -> (ix: Instruction)
    ensures
        ix@ == system_transfer_view(from@, to@, lamports),
{
    let from_key = solana_pubkey::Pubkey::new_from_array(from.0);
    let to_key = solana_pubkey::Pubkey::new_from_array(to.0);
    let ix = solana_system_interface::instruction::transfer(&from_key, &to_key, lamports);
    let accounts = ix.accounts.iter().map(|m| AccountMeta {
        pubkey: Pubkey(m.pubkey.to_bytes()),
        is_signer: m.is_signer,
        is_writable: m.is_writable,
    }).collect();
    Instruction { program_id: Pubkey(ix.program_id.to_bytes()), accounts, data: ix.data }
}

/// The instruction that moves `lamports` from the signer `from` to `to`: the system
/// program's transfer, built by the system interface crate.
pub fn sol_transfer_instruction(from: &Pubkey, to: &Pubkey, lamports: u64) -> (ix: Instruction)
    ensures
        ix@ == system_transfer_view(from@, to@, lamports),
{
    system_transfer(from, to, lamports)
}

} // verus!
