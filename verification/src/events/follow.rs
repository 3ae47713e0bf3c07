//! The fixed-size record of one follow.
use vstd::prelude::*;
use vstd::bytes::{spec_u64_from_le_bytes, spec_u64_to_le_bytes};
use crate::codec::{
    lemma_i64_le_roundtrip, lemma_u64_le_roundtrip, push_all, push_i64_le, push_u64_le, read_array64,
    read_i64_le, read_u64_le, spec_i64_from_le_bytes, spec_i64_to_le_bytes,
};

verus! {

/// Length of an encoded follow record.
pub const FOLLOW_RECORD_LEN: usize = 80;

/// Where the chain recorded a follow.
#[derive(Clone, Copy, Debug, PartialEq, Eq)]
pub struct FollowRecord {
    pub slot: u64,
    pub block_time: i64,
    pub signature: [u8; 64],
}

/// Bytes that are no follow record.
#[derive(Clone, Copy, Debug, PartialEq, Eq, Structural)]
pub struct InvalidFollowRecord;

impl InvalidFollowRecord {
    /// The message the error displays.
    pub fn message(&self) -> (s: String)
        ensures
            s@ == "Invalid follow record"@,
    {
        String::from_str("Invalid follow record")
    }
}

/// The encoding: slot and block time (little-endian), then the 64 signature bytes.
pub open spec fn follow_record_bytes(r: FollowRecord) -> Seq<u8> {
    spec_u64_to_le_bytes(r.slot) + spec_i64_to_le_bytes(r.block_time) + r.signature@
}

/// `data` is the encoding of a record with exactly the fields of `r`.
pub open spec fn follow_record_in(data: Seq<u8>, r: FollowRecord) -> bool {
    &&& data.len() == FOLLOW_RECORD_LEN
    &&& r.slot == spec_u64_from_le_bytes(data.subrange(0, 8))
    &&& r.block_time == spec_i64_from_le_bytes(data.subrange(8, 16))
    &&& r.signature@ == data.subrange(16, 80)
}

impl FollowRecord {
    pub fn encode(&self) -> (bytes: Vec<u8>)
        ensures
            bytes@ == follow_record_bytes(*self),
    {
        let mut bytes: Vec<u8> = Vec::with_capacity(FOLLOW_RECORD_LEN);
        push_u64_le(&mut bytes, self.slot);
        push_i64_le(&mut bytes, self.block_time);
        push_all(&mut bytes, self.signature.as_slice());
        assert(bytes@ =~= follow_record_bytes(*self));
        bytes
    }

    pub fn decode(data: &[u8]) -> (r: Result<FollowRecord, InvalidFollowRecord>)
        ensures
            match r {
                Ok(rec) => follow_record_in(data@, rec),
                Err(_) => data@.len() != FOLLOW_RECORD_LEN,
            },
    {
        if data.len() != FOLLOW_RECORD_LEN {
            return Err(InvalidFollowRecord);
        }
        Ok(FollowRecord { slot: read_u64_le(data, 0), block_time: read_i64_le(data, 8), signature: read_array64(data, 16) })
    }
}

/// Decoding gives back what was encoded, field by field, and encoding gives back the
/// bytes that were decoded.
pub proof fn follow_record_round_trip(r: FollowRecord, data: Seq<u8>, d: FollowRecord)
    ensures
        follow_record_bytes(r).len() == FOLLOW_RECORD_LEN,
        follow_record_in(follow_record_bytes(r), d) ==> {
            &&& d.slot == r.slot
            &&& d.block_time == r.block_time
            &&& d.signature@ == r.signature@
        },
        follow_record_in(data, d) ==> follow_record_bytes(d) == data,
{
    lemma_u64_le_roundtrip(r.slot, data.subrange(0, 8));
    lemma_i64_le_roundtrip(r.block_time, data.subrange(8, 16));
    let e = follow_record_bytes(r);
    assert(e.subrange(0, 8) =~= spec_u64_to_le_bytes(r.slot));
    assert(e.subrange(8, 16) =~= spec_i64_to_le_bytes(r.block_time));
    assert(e.subrange(16, 80) =~= r.signature@);
    if follow_record_in(data, d) {
        lemma_u64_le_roundtrip(d.slot, data.subrange(0, 8));
        lemma_i64_le_roundtrip(d.block_time, data.subrange(8, 16));
        assert(follow_record_bytes(d) =~= data);
    }
}

} // verus!
