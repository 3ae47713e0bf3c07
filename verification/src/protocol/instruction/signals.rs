//! Instruction data of the signals program.
use vstd::prelude::*;
use vstd::bytes::spec_u64_to_le_bytes;
use crate::codec::{push_all, push_u64_le};
use crate::keys::Pubkey;

verus! {

pub const INITIALIZE_DISCRIMINATOR: u8 = 0;
pub const SIGNAL_DISCRIMINATOR: u8 = 1;

/// What a signal says of its target.
#[derive(Clone, Copy, Debug, PartialEq, Eq, Structural)]
pub enum SignalKind {
    Follow,
    Unfollow,
}

/// The byte that stands for each kind on the wire.
pub open spec fn kind_byte(kind: SignalKind) -> u8 {
    match kind {
        SignalKind::Follow => 0,
        SignalKind::Unfollow => 1,
    }
}

impl SignalKind {
    /// The byte that stands for this kind on the wire.
    pub fn as_u8(self) -> (b: u8)
        ensures
            b == kind_byte(self),
    {
        match self {
            SignalKind::Follow => 0,
            SignalKind::Unfollow => 1,
        }
    }
}

/// Tag byte, the token program address, then the minimum balance (little-endian).
pub open spec fn initialize_data(token_program: Seq<u8>, min_balance: u64) -> Seq<u8> {
    seq![INITIALIZE_DISCRIMINATOR] + token_program + spec_u64_to_le_bytes(min_balance)
}

/// Tag byte, the kind byte, then the target address.
pub open spec fn signal_data(kind: SignalKind, target: Seq<u8>) -> Seq<u8> {
    seq![SIGNAL_DISCRIMINATOR, kind_byte(kind)] + target
}

pub fn pack_initialize(token_program: &Pubkey, min_balance: u64) -> (data: Vec<u8>)
    ensures
        data@ == initialize_data(token_program@, min_balance),
        data@.len() == 41,
{
    let mut data: Vec<u8> = Vec::with_capacity(41);
    data.push(INITIALIZE_DISCRIMINATOR);
    push_all(&mut data, token_program.0.as_slice());
    push_u64_le(&mut data, min_balance);
    assert(data@ =~= initialize_data(token_program@, min_balance));
    proof { crate::codec::lemma_u64_le_roundtrip(min_balance, seq![]); }
    data
}

pub fn pack_signal(kind: SignalKind, target: &Pubkey) -> (data: Vec<u8>)
    ensures
        data@ == signal_data(kind, target@),
        data@.len() == 34,
{
    let mut data: Vec<u8> = Vec::with_capacity(34);
    data.push(SIGNAL_DISCRIMINATOR);
    data.push(kind.as_u8());
    push_all(&mut data, target.0.as_slice());
    assert(data@ =~= signal_data(kind, target@));
    data
}

} // verus!
