//! The registry program's instructions, and reading name records, as a client does it.
use vstd::prelude::*;
use crate::keys::{program_address, system_program_id, zero_key, Pubkey};
use crate::programs::token::{balance_address, config_address};
use crate::protocol::instruction::registry::{initialize_data, register_data};
use crate::protocol::state::{name_record_in, NameRecord};
use crate::protocol::validation::{name_validation, validation_message};
use crate::protocol::{
    decode_name_record, derive_name_record_pda, derive_registry_config_pda, derive_token_balance_pda,
    derive_token_config_pda, name_seed_bytes, pack_register, pack_registry_initialize, validate_name,
};
use crate::tx::{AccountMeta, Instruction, InstructionView};
use super::backend::Account;
use super::error::Error;
use super::token::found;

verus! {

/// Initialize: `[authority (signer), registry config, system program]`.
pub open spec fn initialize_view(registry_program: Seq<u8>, authority: Seq<u8>, price: u64, token_program: Seq<u8>) -> InstructionView {
    InstructionView {
        program_id: registry_program,
        accounts: seq![
            (authority, true, true),
            (found(config_address(registry_program)), false, true),
            (zero_key(), false, false),
        ],
        data: initialize_data(price, token_program),
    }
}

/// The record address of a normalized name of `len` bytes.
pub open spec fn name_address(registry_program: Seq<u8>, normalized: Seq<u8>, len: int) -> Option<(Seq<u8>, u8)> {
    program_address(seq![name_seed_bytes(), normalized.subrange(0, len)], registry_program)
}

/// Register: `[payer (signer), payer's balance, name record, registry config, token
/// config, token program, system program]`, with the normalized name and its length.
pub open spec fn register_view(token_program: Seq<u8>, registry_program: Seq<u8>, payer: Seq<u8>, normalized: Seq<u8>,
    len: int) -> InstructionView {
    InstructionView {
        program_id: registry_program,
        accounts: seq![
            (payer, true, true),
            (found(balance_address(payer, token_program)), false, true),
            (found(name_address(registry_program, normalized, len)), false, true),
            (found(config_address(registry_program)), false, false),
            (found(config_address(token_program)), false, true),
            (token_program, false, false),
            (zero_key(), false, false),
        ],
        data: register_data(normalized, len as u8),
    }
}

/// All the addresses a registration names can be derived.
pub open spec fn register_addresses_exist(token_program: Seq<u8>, registry_program: Seq<u8>, payer: Seq<u8>,
    normalized: Seq<u8>, len: int) -> bool {
    &&& balance_address(payer, token_program) is Some
    &&& name_address(registry_program, normalized, len) is Some
    &&& config_address(registry_program) is Some
    &&& config_address(token_program) is Some
}

/// A validation error as the clients report it.
pub open spec fn validation_error(e: crate::protocol::ValidationError, r: Error) -> bool {
    r matches Error::Validation(m) && m@ == validation_message(e)
}

/// The instruction that configures the registry.
pub fn initialize_instruction(registry_program: &Pubkey, authority: &Pubkey, price: u64, token_program: &Pubkey) -> (r: Option<Instruction>)
    ensures
        match r {
            Some(ix) => config_address(registry_program@) is Some
                && ix@ == initialize_view(registry_program@, authority@, price, token_program@),
            None => config_address(registry_program@) is None,
        },
{
    let data = pack_registry_initialize(price, token_program);
    let (config_pda, _) = match derive_registry_config_pda(registry_program) {
        Some(found) => found,
        None => return None,
    };
    let accounts = vec![
        AccountMeta::new(*authority, true),
        AccountMeta::new(config_pda, false),
        AccountMeta::new_readonly(system_program_id(), false),
    ];
    let ix = Instruction { program_id: *registry_program, accounts, data };
    assert(ix@.accounts =~= initialize_view(registry_program@, authority@, price, token_program@).accounts);
    Some(ix)
}

/// The first `n` bytes of a 32-byte array.
fn prefix(bytes: &[u8; 32], n: usize) -> (r: Vec<u8>)
    requires
        n <= 32,
    ensures
        r@ == bytes@.subrange(0, n as int),
{
    let mut r: Vec<u8> = Vec::new();
    let mut i: usize = 0;
    while i < n
        invariant
            i <= n <= 32,
            bytes@.len() == 32,
            r@ == bytes@.subrange(0, i as int),
        decreases n - i,
    {
        r.push(bytes[i]);
        i = i + 1;
        assert(r@ =~= bytes@.subrange(0, i as int));
    }
    r
}

/// The instruction that registers `name` for the payer: the name is checked and
/// normalized first (a refused name is a validation error); `Ok(None)` when an address
/// cannot be derived.
pub fn register_instruction(token_program: &Pubkey, registry_program: &Pubkey, payer: &Pubkey, name: &str) -> (r: Result<Option<Instruction>, Error>)
    ensures
        match name_validation(name@) {
            Err(e) => r matches Err(err) && validation_error(e, err),
            Ok(normalized) => {
                let len = name@.len() as int;
                match r {
                    Ok(Some(ix)) => register_addresses_exist(token_program@, registry_program@, payer@, normalized, len)
                        && ix@ == register_view(token_program@, registry_program@, payer@, normalized, len),
                    Ok(None) => !register_addresses_exist(token_program@, registry_program@, payer@, normalized, len),
                    Err(_) => false,
                }
            },
        },
{
    let normalized = match validate_name(name) {
        Ok(n) => n,
        Err(e) => return Err(Error::Validation(e.message())),
    };
    proof {
        crate::interop::name_checks_agree(name@);
        vstd::utf8::encode_utf8_valid_utf8(name@);
    }
    let name_len = name.unicode_len();
    assert(name_len <= 32) by {
        crate::protocol::validation::lemma_utf8_len_at_least_chars(name@);
    }
    let (payer_balance_pda, _) = match derive_token_balance_pda(payer, token_program) {
        Some(found) => found,
        None => return Ok(None),
    };
    let short = prefix(&normalized, name_len);
    let (name_pda, _) = match derive_name_record_pda(short.as_slice(), registry_program) {
        Some(found) => found,
        None => return Ok(None),
    };
    let (registry_config_pda, _) = match derive_registry_config_pda(registry_program) {
        Some(found) => found,
        None => return Ok(None),
    };
    let (token_config_pda, _) = match derive_token_config_pda(token_program) {
        Some(found) => found,
        None => return Ok(None),
    };
    let data = pack_register(&normalized, name_len as u8);
    let accounts = vec![
        AccountMeta::new(*payer, true),
        AccountMeta::new(payer_balance_pda, false),
        AccountMeta::new(name_pda, false),
        AccountMeta::new_readonly(registry_config_pda, false),
        AccountMeta::new(token_config_pda, false),
        AccountMeta::new_readonly(*token_program, false),
        AccountMeta::new_readonly(system_program_id(), false),
    ];
    let ix = Instruction { program_id: *registry_program, accounts, data };
    assert(ix@.accounts =~= register_view(token_program@, registry_program@, payer@, normalized@, name_len as int).accounts);
    Ok(Some(ix))
}

/// The record address of a name: the name is checked and normalized first (a refused
/// name is a validation error); `Ok(None)` when no address can be derived.
pub fn name_record_address(registry_program: &Pubkey, name: &str) -> (r: Result<Option<Pubkey>, Error>)
    ensures
        match name_validation(name@) {
            Err(e) => r matches Err(err) && validation_error(e, err),
            Ok(normalized) => match r {
                Ok(Some(k)) => name_address(registry_program@, normalized, name@.len() as int) matches Some((a, _)) && k@ == a,
                Ok(None) => name_address(registry_program@, normalized, name@.len() as int) is None,
                Err(_) => false,
            },
        },
{
    let normalized = match validate_name(name) {
        Ok(n) => n,
        Err(e) => return Err(Error::Validation(e.message())),
    };
    let name_len = name.unicode_len();
    assert(name_len <= 32) by {
        crate::protocol::validation::lemma_utf8_len_at_least_chars(name@);
    }
    let short = prefix(&normalized, name_len);
    match derive_name_record_pda(short.as_slice(), registry_program) {
        Some((k, _)) => Ok(Some(k)),
        None => Ok(None),
    }
}

/// Reads a name record from the fetched record account: none when the account does not
/// exist, an error when its bytes are too short.
pub fn read_name_record(account: &Option<Account>) -> (r: Result<Option<NameRecord>, Error>)
    ensures
        match *account {
            None => r matches Ok(None),
            Some(a) => match r {
                Ok(Some(rec)) => name_record_in(a.data@, rec),
                Ok(None) => false,
                Err(e) => e == Error::InvalidAccountData && a.data@.len() < NameRecord::LEN,
            },
        },
{
    match account {
        Some(a) => match decode_name_record(a.data.as_slice()) {
            Some(rec) => Ok(Some(rec)),
            None => Err(Error::InvalidAccountData),
        },
        None => Ok(None),
    }
}

} // verus!
