//! Instruction data of the token program.
use vstd::prelude::*;
use vstd::bytes::spec_u64_to_le_bytes;
use crate::codec::push_u64_le;

verus! {

pub const INITIALIZE_DISCRIMINATOR: u8 = 0;
pub const TRANSFER_DISCRIMINATOR: u8 = 1;
pub const BURN_DISCRIMINATOR: u8 = 2;
pub const MINT_DISCRIMINATOR: u8 = 3;

/// Tag byte, then the supply (little-endian), then the decimals.
pub open spec fn initialize_data(total_supply: u64, decimals: u8) -> Seq<u8> {
    seq![INITIALIZE_DISCRIMINATOR] + spec_u64_to_le_bytes(total_supply) + seq![decimals]
}

/// Tag byte, then the amount (little-endian).
pub open spec fn amount_data(tag: u8, amount: u64) -> Seq<u8> {
    seq![tag] + spec_u64_to_le_bytes(amount)
}

pub fn pack_initialize(total_supply: u64, decimals: u8) -> (data: Vec<u8>)
    ensures
        data@ == initialize_data(total_supply, decimals),
{
    let mut data: Vec<u8> = Vec::with_capacity(10);
    data.push(INITIALIZE_DISCRIMINATOR);
    push_u64_le(&mut data, total_supply);
    data.push(decimals);
    assert(data@ =~= initialize_data(total_supply, decimals));
    data
}

fn pack_amount(tag: u8, amount: u64) -> (data: Vec<u8>)
    ensures
        data@ == amount_data(tag, amount),
{
    let mut data: Vec<u8> = Vec::with_capacity(9);
    data.push(tag);
    push_u64_le(&mut data, amount);
    assert(data@ =~= amount_data(tag, amount));
    data
}

pub fn pack_transfer(amount: u64) -> (data: Vec<u8>)
    ensures
        data@ == amount_data(TRANSFER_DISCRIMINATOR, amount),
{
    pack_amount(TRANSFER_DISCRIMINATOR, amount)
}

pub fn pack_burn(amount: u64) -> (data: Vec<u8>)
    ensures
        data@ == amount_data(BURN_DISCRIMINATOR, amount),
{
    pack_amount(BURN_DISCRIMINATOR, amount)
}

pub fn pack_mint(amount: u64) -> (data: Vec<u8>)
    ensures
        data@ == amount_data(MINT_DISCRIMINATOR, amount),
{
    pack_amount(MINT_DISCRIMINATOR, amount)
}

} // verus!
