//! Account layouts of the three programs, as the clients read them.
use vstd::prelude::*;
use vstd::bytes::spec_u64_from_le_bytes;
use crate::codec::{read_array32, read_u64_le};
use crate::keys::Pubkey;

verus! {

#[derive(Clone, Copy, Debug, PartialEq)]
pub struct TokenConfig {
    pub authority: Pubkey,
    pub total_supply: u64,
    pub decimals: u8,
    pub bump: u8,
}

impl TokenConfig {
    pub const LEN: usize = 48;
}

#[derive(Clone, Copy, Debug, PartialEq)]
pub struct TokenBalance {
    pub owner: Pubkey,
    pub amount: u64,
    pub bump: u8,
}

impl TokenBalance {
    pub const LEN: usize = 48;
}

#[derive(Clone, Copy, Debug, PartialEq)]
pub struct RegistryConfig {
    pub price: u64,
    pub token_program: Pubkey,
    pub bump: u8,
}

impl RegistryConfig {
    pub const LEN: usize = 48;
}

#[derive(Clone, Copy, Debug, PartialEq)]
pub struct NameRecord {
    pub owner: Pubkey,
    pub name: [u8; 32],
    pub len: u8,
}

impl NameRecord {
    pub const LEN: usize = 72;
}

#[derive(Clone, Copy, Debug, PartialEq)]
pub struct SignalsConfig {
    pub authority: Pubkey,
    pub token_program: Pubkey,
    pub min_balance: u64,
    pub bump: u8,
}

impl SignalsConfig {
    pub const LEN: usize = 80;
}

/// `data` holds a token configuration: authority at 0..32, supply at 32..40,
/// decimals at 40, bump at 41.
pub open spec fn token_config_in(data: Seq<u8>, c: TokenConfig) -> bool {
    &&& data.len() >= TokenConfig::LEN
    &&& c.authority@ == data.subrange(0, 32)
    &&& c.total_supply == spec_u64_from_le_bytes(data.subrange(32, 40))
    &&& c.decimals == data[40]
    &&& c.bump == data[41]
}

/// `data` holds a token balance: owner at 0..32, amount at 32..40, bump at 40.
pub open spec fn token_balance_in(data: Seq<u8>, b: TokenBalance) -> bool {
    &&& data.len() >= TokenBalance::LEN
    &&& b.owner@ == data.subrange(0, 32)
    &&& b.amount == spec_u64_from_le_bytes(data.subrange(32, 40))
    &&& b.bump == data[40]
}

/// `data` holds a registry configuration: price at 0..8, token program at 8..40, bump at 40.
pub open spec fn registry_config_in(data: Seq<u8>, c: RegistryConfig) -> bool {
    &&& data.len() >= RegistryConfig::LEN
    &&& c.price == spec_u64_from_le_bytes(data.subrange(0, 8))
    &&& c.token_program@ == data.subrange(8, 40)
    &&& c.bump == data[40]
}

/// `data` holds a name record: owner at 0..32, name bytes at 32..64, length at 64.
pub open spec fn name_record_in(data: Seq<u8>, r: NameRecord) -> bool {
    &&& data.len() >= NameRecord::LEN
    &&& r.owner@ == data.subrange(0, 32)
    &&& r.name@ == data.subrange(32, 64)
    &&& r.len == data[64]
}

/// `data` holds a signals configuration: authority at 0..32, token program at 32..64,
/// minimum balance at 64..72, bump at 72.
pub open spec fn signals_config_in(data: Seq<u8>, c: SignalsConfig) -> bool {
    &&& data.len() >= SignalsConfig::LEN
    &&& c.authority@ == data.subrange(0, 32)
    &&& c.token_program@ == data.subrange(32, 64)
    &&& c.min_balance == spec_u64_from_le_bytes(data.subrange(64, 72))
    &&& c.bump == data[72]
}

/// Reads a token configuration; `None` when `data` is shorter than the layout.
pub fn decode_token_config(data: &[u8]) -> (r: Option<TokenConfig>)
    ensures
        match r {
            Some(c) => token_config_in(data@, c),
            None => data@.len() < TokenConfig::LEN,
        },
{
    if data.len() < TokenConfig::LEN {
        return None;
    }
    let authority = Pubkey(read_array32(data, 0));
    let total_supply = read_u64_le(data, 32);
    Some(TokenConfig { authority, total_supply, decimals: data[40], bump: data[41] })
}

/// Reads a token balance; `None` when `data` is shorter than the layout.
pub fn decode_token_balance(data: &[u8]) -> (r: Option<TokenBalance>)
    ensures
        match r {
            Some(b) => token_balance_in(data@, b),
            None => data@.len() < TokenBalance::LEN,
        },
{
    if data.len() < TokenBalance::LEN {
        return None;
    }
    let owner = Pubkey(read_array32(data, 0));
    let amount = read_u64_le(data, 32);
    Some(TokenBalance { owner, amount, bump: data[40] })
}

/// Reads a registry configuration; `None` when `data` is shorter than the layout.
pub fn decode_registry_config(data: &[u8]) -> (r: Option<RegistryConfig>)
    ensures
        match r {
            Some(c) => registry_config_in(data@, c),
            None => data@.len() < RegistryConfig::LEN,
        },
{
    if data.len() < RegistryConfig::LEN {
        return None;
    }
    let price = read_u64_le(data, 0);
    let token_program = Pubkey(read_array32(data, 8));
    Some(RegistryConfig { price, token_program, bump: data[40] })
}

/// Reads a name record; `None` when `data` is shorter than the layout.
pub fn decode_name_record(data: &[u8]) -> (r: Option<NameRecord>)
    ensures
        match r {
            Some(rec) => name_record_in(data@, rec),
            None => data@.len() < NameRecord::LEN,
        },
{
    if data.len() < NameRecord::LEN {
        return None;
    }
    let owner = Pubkey(read_array32(data, 0));
    let name = read_array32(data, 32);
    Some(NameRecord { owner, name, len: data[64] })
}

/// Reads a signals configuration; `None` when `data` is shorter than the layout.
pub fn decode_signals_config(data: &[u8]) -> (r: Option<SignalsConfig>)
    ensures
        match r {
            Some(c) => signals_config_in(data@, c),
            None => data@.len() < SignalsConfig::LEN,
        },
{
    if data.len() < SignalsConfig::LEN {
        return None;
    }
    let authority = Pubkey(read_array32(data, 0));
    let token_program = Pubkey(read_array32(data, 32));
    let min_balance = read_u64_le(data, 64);
    Some(SignalsConfig { authority, token_program, min_balance, bump: data[72] })
}

} // verus!
