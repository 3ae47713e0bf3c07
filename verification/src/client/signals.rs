//! The signals program's instructions, as a client addresses them.
use vstd::prelude::*;
use crate::keys::{system_program_id, zero_key, Pubkey};
use crate::programs::token::{balance_address, config_address};
use crate::protocol::instruction::signals::{initialize_data, signal_data, SignalKind};
use crate::protocol::{derive_signals_config_pda, derive_token_balance_pda, pack_signal, pack_signals_initialize};
use crate::tx::{AccountMeta, Instruction, InstructionView};
use super::error::Error;
use super::token::found;

verus! {

/// The message of a client whose signals program is not set.
pub open spec fn unconfigured_message() -> Seq<char> {
    "signals program is not configured on this client"@
}

/// The signals program must be configured (not the all-zero address).
pub fn validate_signals_program(signals_program: &Pubkey) -> (r: Result<(), Error>)
    ensures
        match r {
            Ok(()) => signals_program@ != zero_key(),
            Err(e) => signals_program@ == zero_key() && (e matches Error::Validation(m) && m@ == unconfigured_message()),
        },
{
    if signals_program.is_zero() {
        return Err(Error::Validation(String::from_str("signals program is not configured on this client")));
    }
    Ok(())
}

/// Initialize: `[authority (signer), signals config, system program]`.
pub open spec fn initialize_view(signals_program: Seq<u8>, authority: Seq<u8>, min_balance: u64, token_program: Seq<u8>) -> InstructionView {
    InstructionView {
        program_id: signals_program,
        accounts: seq![
            (authority, true, true),
            (found(config_address(signals_program)), false, true),
            (zero_key(), false, false),
        ],
        data: initialize_data(token_program, min_balance),
    }
}

/// Signal: `[signer (signer), signer's token balance, signals config]`.
pub open spec fn signal_view(token_program: Seq<u8>, signals_program: Seq<u8>, signer: Seq<u8>, kind: SignalKind, target: Seq<u8>) -> InstructionView {
    InstructionView {
        program_id: signals_program,
        accounts: seq![
            (signer, true, true),
            (found(balance_address(signer, token_program)), false, false),
            (found(config_address(signals_program)), false, false),
        ],
        data: signal_data(kind, target),
    }
}

/// The instruction that configures the signals program; an error when the program is
/// not configured on the client, `Ok(None)` when the config address cannot be derived.
pub fn initialize_instruction(signals_program: &Pubkey, authority: &Pubkey, min_balance: u64, token_program: &Pubkey) -> (r: Result<Option<Instruction>, Error>)
    ensures
        signals_program@ == zero_key() ==> (r matches Err(Error::Validation(m)) && m@ == unconfigured_message()),
        signals_program@ != zero_key() ==> match r {
            Ok(Some(ix)) => config_address(signals_program@) is Some
                && ix@ == initialize_view(signals_program@, authority@, min_balance, token_program@),
            Ok(None) => config_address(signals_program@) is None,
            Err(_) => false,
        },
{
    match validate_signals_program(signals_program) {
        Ok(()) => {},
        Err(e) => return Err(e),
    }
    let data = pack_signals_initialize(token_program, min_balance);
    let (config_pda, _) = match derive_signals_config_pda(signals_program) {
        Some(found) => found,
        None => return Ok(None),
    };
    let accounts = vec![
        AccountMeta::new(*authority, true),
        AccountMeta::new(config_pda, false),
        AccountMeta::new_readonly(system_program_id(), false),
    ];
    let ix = Instruction { program_id: *signals_program, accounts, data };
    assert(ix@.accounts =~= initialize_view(signals_program@, authority@, min_balance, token_program@).accounts);
    Ok(Some(ix))
}

/// The instruction that signals `kind` towards `target`; an error when the signals
/// program is not configured on the client, `Ok(None)` when an address cannot be derived.
pub fn signal_instruction(token_program: &Pubkey, signals_program: &Pubkey, signer: &Pubkey, kind: SignalKind, target: &Pubkey) -> (r: Result<Option<Instruction>, Error>)
    ensures
        signals_program@ == zero_key() ==> (r matches Err(Error::Validation(m)) && m@ == unconfigured_message()),
        signals_program@ != zero_key() ==> match r {
            Ok(Some(ix)) => balance_address(signer@, token_program@) is Some && config_address(signals_program@) is Some
                && ix@ == signal_view(token_program@, signals_program@, signer@, kind, target@),
            Ok(None) => balance_address(signer@, token_program@) is None || config_address(signals_program@) is None,
            Err(_) => false,
        },
{
    match validate_signals_program(signals_program) {
        Ok(()) => {},
        Err(e) => return Err(e),
    }
    let (balance_pda, _) = match derive_token_balance_pda(signer, token_program) {
        Some(found) => found,
        None => return Ok(None),
    };
    let (config_pda, _) = match derive_signals_config_pda(signals_program) {
        Some(found) => found,
        None => return Ok(None),
    };
    let data = pack_signal(kind, target);
    let accounts = vec![
        AccountMeta::new(*signer, true),
        AccountMeta::new_readonly(balance_pda, false),
        AccountMeta::new_readonly(config_pda, false),
    ];
    let ix = Instruction { program_id: *signals_program, accounts, data };
    assert(ix@.accounts =~= signal_view(token_program@, signals_program@, signer@, kind, target@).accounts);
    Ok(Some(ix))
}

} // verus!
