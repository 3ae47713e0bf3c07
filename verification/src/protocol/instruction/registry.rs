//! Instruction data of the name registry program.
use vstd::prelude::*;
use vstd::bytes::spec_u64_to_le_bytes;
use crate::codec::{push_all, push_u64_le};
use crate::keys::Pubkey;

verus! {

pub const INITIALIZE_DISCRIMINATOR: u8 = 0;
pub const REGISTER_DISCRIMINATOR: u8 = 1;

/// Tag byte, the price (little-endian), then the token program address.
pub open spec fn initialize_data(price: u64, token_program: Seq<u8>) -> Seq<u8> {
    seq![INITIALIZE_DISCRIMINATOR] + spec_u64_to_le_bytes(price) + token_program
}

/// Tag byte, the 32 name bytes, then the name length.
pub open spec fn register_data(name: Seq<u8>, name_len: u8) -> Seq<u8> {
    seq![REGISTER_DISCRIMINATOR] + name + seq![name_len]
}

pub fn pack_initialize(price: u64, token_program: &Pubkey) -> (data: Vec<u8>)
    ensures
        data@ == initialize_data(price, token_program@),
        data@.len() == 41,
{
    let mut data: Vec<u8> = Vec::with_capacity(41);
    data.push(INITIALIZE_DISCRIMINATOR);
    push_u64_le(&mut data, price);
    push_all(&mut data, token_program.0.as_slice());
    assert(data@ =~= initialize_data(price, token_program@));
    proof { crate::codec::lemma_u64_le_roundtrip(price, seq![]); }
    data
}

pub fn pack_register(name: &[u8; 32], name_len: u8) -> (data: Vec<u8>)
    ensures
        data@ == register_data(name@, name_len),
        data@.len() == 34,
{
    let mut data: Vec<u8> = Vec::with_capacity(34);
    data.push(REGISTER_DISCRIMINATOR);
    push_all(&mut data, name.as_slice());
    data.push(name_len);
    assert(data@ =~= register_data(name@, name_len));
    data
}

} // verus!
