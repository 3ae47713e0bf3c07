//! The wire format shared by the on-chain programs and their clients: instruction
//! data, account layouts, address derivation and name rules.
pub mod instruction;
pub mod pda;
pub mod state;
pub mod validation;

pub use instruction::registry::{pack_initialize as pack_registry_initialize, pack_register};
pub use instruction::signals::{pack_initialize as pack_signals_initialize, pack_signal, SignalKind};
pub use instruction::token::{pack_burn, pack_initialize as pack_token_initialize, pack_mint, pack_transfer};
pub use pda::{
    derive_name_record_pda, derive_registry_config_pda, derive_signals_config_pda,
    derive_token_balance_pda, derive_token_config_pda,
};
pub use state::{
    decode_name_record, decode_registry_config, decode_signals_config, decode_token_balance,
    decode_token_config, NameRecord, RegistryConfig, SignalsConfig, TokenBalance, TokenConfig,
};
pub use validation::{validate_name, ValidationError};

use vstd::prelude::*;

verus! {

/// Shortest name the registry accepts, in bytes.
pub const MIN_NAME_LEN: usize = 3;

/// Longest name the registry accepts, in bytes.
pub const MAX_NAME_LEN: usize = 32;

/// Seed of the configuration account of the token, registry and signals programs: `b"config"`.
pub open spec fn config_seed_bytes() -> Seq<u8> {
    seq![99u8, 111u8, 110u8, 102u8, 105u8, 103u8]
}

/// Seed prefix of a token balance account: `b"balance"`.
pub open spec fn balance_seed_bytes() -> Seq<u8> {
    seq![98u8, 97u8, 108u8, 97u8, 110u8, 99u8, 101u8]
}

/// Seed prefix of a name record account: `b"name"`.
pub open spec fn name_seed_bytes() -> Seq<u8> {
    seq![110u8, 97u8, 109u8, 101u8]
}

/// `b"config"`.
pub fn config_seed() -> (r: Vec<u8>)
    ensures
        r@ == config_seed_bytes(),
{
    let r = vec![99u8, 111u8, 110u8, 102u8, 105u8, 103u8];
    assert(r@ =~= config_seed_bytes());
    r
}

/// `b"balance"`.
pub fn balance_seed() -> (r: Vec<u8>)
    ensures
        r@ == balance_seed_bytes(),
{
    let r = vec![98u8, 97u8, 108u8, 97u8, 110u8, 99u8, 101u8];
    assert(r@ =~= balance_seed_bytes());
    r
}

/// `b"name"`.
pub fn name_seed() -> (r: Vec<u8>)
    ensures
        r@ == name_seed_bytes(),
{
    let r = vec![110u8, 97u8, 109u8, 101u8];
    assert(r@ =~= name_seed_bytes());
    r
}

} // verus!
