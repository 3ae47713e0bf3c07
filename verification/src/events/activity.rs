//! What a user did, as one kind byte, and the fixed-size record of one such activity.
use vstd::prelude::*;
use vstd::bytes::{spec_u64_from_le_bytes, spec_u64_to_le_bytes};
use crate::codec::{
    lemma_i64_le_roundtrip, lemma_u64_le_roundtrip, push_all, push_i64_le, push_u64_le, read_array32,
    read_array64, read_i64_le, read_u64_le, spec_i64_from_le_bytes, spec_i64_to_le_bytes,
};
use crate::keys::Pubkey;

verus! {

/// The kinds of activity recorded for a user.
#[derive(Clone, Copy, Debug, PartialEq, Eq, Structural)]
pub enum ActivityKind {
    SolSent,
    SolReceived,
    SurfSent,
    SurfReceived,
    NameRegistered,
    Followed,
    Unfollowed,
}

/// A byte that stands for no activity kind.
#[derive(Clone, Copy, Debug, PartialEq, Eq, Structural)]
pub struct InvalidActivityKind;

impl InvalidActivityKind {
    /// The message the error displays.
    pub fn message(&self) -> (s: String)
        ensures
            s@ == "Invalid activity kind"@,
    {
        String::from_str("Invalid activity kind")
    }
}

/// The byte of each kind.
pub open spec fn kind_code(kind: ActivityKind) -> u8 {
    match kind {
        ActivityKind::SolSent => 0,
        ActivityKind::SolReceived => 1,
        ActivityKind::SurfSent => 2,
        ActivityKind::SurfReceived => 3,
        ActivityKind::NameRegistered => 4,
        ActivityKind::Followed => 5,
        ActivityKind::Unfollowed => 6,
    }
}

/// The kind a byte stands for, if any.
pub open spec fn kind_of_code(value: u8) -> Option<ActivityKind> {
    if value == 0 {
        Some(ActivityKind::SolSent)
    } else if value == 1 {
        Some(ActivityKind::SolReceived)
    } else if value == 2 {
        Some(ActivityKind::SurfSent)
    } else if value == 3 {
        Some(ActivityKind::SurfReceived)
    } else if value == 4 {
        Some(ActivityKind::NameRegistered)
    } else if value == 5 {
        Some(ActivityKind::Followed)
    } else if value == 6 {
        Some(ActivityKind::Unfollowed)
    } else {
        None
    }
}

impl ActivityKind {
    pub fn as_u8(self) -> (b: u8)
        ensures
            b == kind_code(self),
    {
        match self {
            ActivityKind::SolSent => 0,
            ActivityKind::SolReceived => 1,
            ActivityKind::SurfSent => 2,
            ActivityKind::SurfReceived => 3,
            ActivityKind::NameRegistered => 4,
            ActivityKind::Followed => 5,
            ActivityKind::Unfollowed => 6,
        }
    }

    pub fn from_u8(value: u8) -> (r: Result<ActivityKind, InvalidActivityKind>)
        ensures
            match r {
                Ok(kind) => kind_of_code(value) == Some(kind),
                Err(_) => kind_of_code(value) is None,
            },
    {
        match value {
            0 => Ok(ActivityKind::SolSent),
            1 => Ok(ActivityKind::SolReceived),
            2 => Ok(ActivityKind::SurfSent),
            3 => Ok(ActivityKind::SurfReceived),
            4 => Ok(ActivityKind::NameRegistered),
            5 => Ok(ActivityKind::Followed),
            6 => Ok(ActivityKind::Unfollowed),
            _ => Err(InvalidActivityKind),
        }
    }
}

/// Every kind's byte reads back as that kind, and every byte that reads as a kind is
/// that kind's byte; the bytes 7 to 255 stand for no kind.
pub proof fn activity_kind_codes_round_trip(kind: ActivityKind, value: u8)
    ensures
        kind_of_code(kind_code(kind)) == Some(kind),
        kind_of_code(value) == Some(kind) ==> kind_code(kind) == value,
        kind_of_code(value) is None <==> value > 6,
{
}

/// Length of an encoded activity record.
pub const ACTIVITY_RECORD_LEN: usize = 121;

/// One activity: its kind, the other party, the amount, and where the chain recorded it.
#[derive(Clone, Copy, Debug, PartialEq, Eq)]
pub struct ActivityRecord {
    pub kind: ActivityKind,
    pub counterparty: Pubkey,
    pub amount: u64,
    pub slot: u64,
    pub block_time: i64,
    pub signature: [u8; 64],
}

/// Bytes that are no activity record.
#[derive(Clone, Copy, Debug, PartialEq, Eq, Structural)]
pub struct InvalidActivityRecord;

impl InvalidActivityRecord {
    /// The message the error displays.
    pub fn message(&self) -> (s: String)
        ensures
            s@ == "Invalid activity record"@,
    {
        String::from_str("Invalid activity record")
    }
}

/// The encoding: kind byte, counterparty, amount, slot, block time (each little-endian),
/// then the 64 signature bytes.
pub open spec fn activity_record_bytes(r: ActivityRecord) -> Seq<u8> {
    seq![kind_code(r.kind)] + r.counterparty@ + spec_u64_to_le_bytes(r.amount) + spec_u64_to_le_bytes(r.slot)
        + spec_i64_to_le_bytes(r.block_time) + r.signature@
}

/// `data` is the encoding of a record with exactly the fields of `r`.
pub open spec fn activity_record_in(data: Seq<u8>, r: ActivityRecord) -> bool {
    &&& data.len() == ACTIVITY_RECORD_LEN
    &&& kind_of_code(data[0]) == Some(r.kind)
    &&& r.counterparty@ == data.subrange(1, 33)
    &&& r.amount == spec_u64_from_le_bytes(data.subrange(33, 41))
    &&& r.slot == spec_u64_from_le_bytes(data.subrange(41, 49))
    &&& r.block_time == spec_i64_from_le_bytes(data.subrange(49, 57))
    &&& r.signature@ == data.subrange(57, 121)
}

impl ActivityRecord {
    pub fn encode(&self) -> (bytes: Vec<u8>)
        ensures
            bytes@ == activity_record_bytes(*self),
    {
        let mut bytes: Vec<u8> = Vec::with_capacity(ACTIVITY_RECORD_LEN);
        bytes.push(self.kind.as_u8());
        push_all(&mut bytes, self.counterparty.0.as_slice());
        push_u64_le(&mut bytes, self.amount);
        push_u64_le(&mut bytes, self.slot);
        push_i64_le(&mut bytes, self.block_time);
        push_all(&mut bytes, self.signature.as_slice());
        assert(bytes@ =~= activity_record_bytes(*self));
        bytes
    }

    pub fn decode(data: &[u8]) -> (r: Result<ActivityRecord, InvalidActivityRecord>)
        ensures
            match r {
                Ok(rec) => activity_record_in(data@, rec),
                Err(_) => data@.len() != ACTIVITY_RECORD_LEN || kind_of_code(data@[0]) is None,
            },
    {
        if data.len() != ACTIVITY_RECORD_LEN {
            return Err(InvalidActivityRecord);
        }
        let kind = match ActivityKind::from_u8(data[0]) {
            Ok(k) => k,
            Err(_) => return Err(InvalidActivityRecord),
        };
        Ok(ActivityRecord {
            kind,
            counterparty: Pubkey(read_array32(data, 1)),
            amount: read_u64_le(data, 33),
            slot: read_u64_le(data, 41),
            block_time: read_i64_le(data, 49),
            signature: read_array64(data, 57),
        })
    }
}

/// Decoding gives back what was encoded, field by field, and encoding gives back the
/// bytes that were decoded.
pub proof fn activity_record_round_trip(r: ActivityRecord, data: Seq<u8>, d: ActivityRecord)
    ensures
        activity_record_bytes(r).len() == ACTIVITY_RECORD_LEN,
        activity_record_in(activity_record_bytes(r), d) ==> {
            &&& d.kind == r.kind
            &&& d.counterparty@ == r.counterparty@
            &&& d.amount == r.amount
            &&& d.slot == r.slot
            &&& d.block_time == r.block_time
            &&& d.signature@ == r.signature@
        },
        activity_record_in(data, d) ==> activity_record_bytes(d) == data,
{
    lemma_u64_le_roundtrip(r.amount, data.subrange(33, 41));
    lemma_u64_le_roundtrip(r.slot, data.subrange(41, 49));
    lemma_i64_le_roundtrip(r.block_time, data.subrange(49, 57));
    let e = activity_record_bytes(r);
    assert(e.subrange(1, 33) =~= r.counterparty@);
    assert(e.subrange(33, 41) =~= spec_u64_to_le_bytes(r.amount));
    assert(e.subrange(41, 49) =~= spec_u64_to_le_bytes(r.slot));
    assert(e.subrange(49, 57) =~= spec_i64_to_le_bytes(r.block_time));
    assert(e.subrange(57, 121) =~= r.signature@);
    if activity_record_in(data, d) {
        lemma_u64_le_roundtrip(d.amount, data.subrange(33, 41));
        lemma_u64_le_roundtrip(d.slot, data.subrange(41, 49));
        lemma_i64_le_roundtrip(d.block_time, data.subrange(49, 57));
        assert(activity_record_bytes(d) =~= data);
    }
}

} // verus!
