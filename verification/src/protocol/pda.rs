//! Program-derived addresses of the accounts the programs keep.
use vstd::prelude::*;
use crate::keys::{find_program_address, pda_matches, program_address, Pubkey};
use super::{balance_seed, balance_seed_bytes, config_seed, config_seed_bytes, name_seed, name_seed_bytes};

verus! {

fn slice_to_vec(s: &[u8]) -> (v: Vec<u8>)
    ensures
        v@ == s@,
{
    let mut v: Vec<u8> = Vec::new();
    crate::codec::push_all(&mut v, s);
    v
}

/// The token program's configuration account: seeds `["config"]`.
pub fn derive_token_config_pda(program_id: &Pubkey) -> (r: Option<(Pubkey, u8)>)
    ensures
        pda_matches(r, program_address(seq![config_seed_bytes()], program_id@)),
{
    let seeds = vec![config_seed()];
    assert(crate::keys::seeds_view(seeds@) =~= seq![config_seed_bytes()]);
    find_program_address(&seeds, program_id)
}

/// The balance account of `owner` under the token program: seeds `["balance", owner]`.
pub fn derive_token_balance_pda(owner: &Pubkey, program_id: &Pubkey) -> (r: Option<(Pubkey, u8)>)
    ensures
        pda_matches(r, program_address(seq![balance_seed_bytes(), owner@], program_id@)),
{
    let seeds = vec![balance_seed(), slice_to_vec(owner.0.as_slice())];
    assert(crate::keys::seeds_view(seeds@) =~= seq![balance_seed_bytes(), owner@]);
    find_program_address(&seeds, program_id)
}

/// The registry program's configuration account: seeds `["config"]`.
pub fn derive_registry_config_pda(program_id: &Pubkey) -> (r: Option<(Pubkey, u8)>)
    ensures
        pda_matches(r, program_address(seq![config_seed_bytes()], program_id@)),
{
    derive_token_config_pda(program_id)
}

/// The record account of a (normalized) name: seeds `["name", name]`.
/// Names longer than a seed may be (32 bytes) are not derived.
pub fn derive_name_record_pda(name: &[u8], program_id: &Pubkey) -> (r: Option<(Pubkey, u8)>)
    requires
        name@.len() <= 32,
    ensures
        pda_matches(r, program_address(seq![name_seed_bytes(), name@], program_id@)),
{
    let seeds = vec![name_seed(), slice_to_vec(name)];
    assert(crate::keys::seeds_view(seeds@) =~= seq![name_seed_bytes(), name@]);
    find_program_address(&seeds, program_id)
}

/// The signals program's configuration account: seeds `["config"]`.
pub fn derive_signals_config_pda(program_id: &Pubkey) -> (r: Option<(Pubkey, u8)>)
    ensures
        pda_matches(r, program_address(seq![config_seed_bytes()], program_id@)),
{
    derive_token_config_pda(program_id)
}

} // verus!
