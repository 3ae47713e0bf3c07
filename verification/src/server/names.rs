//! Name events: each registration of the registry program becomes a name-registered
//! event and an activity event for the new owner.
use vstd::prelude::*;
use vstd::utf8::{decode_utf8, valid_utf8};
use crate::client::AccountInfo;
use crate::events::activity::kind_code;
use crate::events::{ActivityKind, ActivityRecorded, EventEnvelope, EventPayload, NameRegistered};
use crate::keys::{pda_matches, program_address, Pubkey, Signature};
use crate::protocol::{decode_name_record, name_seed_bytes};
use crate::protocol::state::name_record_in;
use crate::text::utf8_text;
use super::error::SyncError;

verus! {

/// What `parse_registered_name` gives: nothing unless the data is a registration (at
/// least 34 bytes, tag 1); an error when its length byte (byte 33) is above 32 or its
/// first that many name bytes are not UTF-8; else the name they encode.
pub open spec fn registered_name(data: Seq<u8>) -> Result<Option<Seq<char>>, SyncError> {
    if data.len() < 34 || data[0] != 1 {
        Ok(None)
    } else if data[33] > 32 {
        Err(SyncError::InvalidSignalInstruction)
    } else {
        let bytes = data.subrange(1, 1 + data[33] as int);
        if valid_utf8(bytes) {
            Ok(Some(decode_utf8(bytes)))
        } else {
            Err(SyncError::InvalidSignalInstruction)
        }
    }
}

/// The name a registration instruction registers.
pub fn parse_registered_name(data: &[u8]) -> (r: Result<Option<String>, SyncError>)
    ensures
        match r {
            Ok(Some(name)) => registered_name(data@) == Ok::<Option<Seq<char>>, SyncError>(Some(name@)),
            Ok(None) => registered_name(data@) == Ok::<Option<Seq<char>>, SyncError>(None),
            Err(e) => registered_name(data@) == Err::<Option<Seq<char>>, SyncError>(e),
        },
{
    if data.len() < 34 || data[0] != 1 {
        return Ok(None);
    }
    let name_len = data[33] as usize;
    if name_len > 32 {
        return Err(SyncError::InvalidSignalInstruction);
    }
    let mut bytes: Vec<u8> = Vec::new();
    let mut i: usize = 0;
    while i < name_len
        invariant
            i <= name_len <= 32,
            data@.len() >= 34,
            bytes@ == data@.subrange(1, 1 + i as int),
        decreases name_len - i,
    {
        bytes.push(data[1 + i]);
        i = i + 1;
        assert(bytes@ =~= data@.subrange(1, 1 + i as int));
    }
    match utf8_text(bytes.as_slice()) {
        Some(name) => Ok(Some(name)),
        None => Err(SyncError::InvalidSignalInstruction),
    }
}

/// The two events of a registered name, given the record account's bytes: the
/// registration (the owner the record holds, and the record's bytes) at `index`, and
/// the owner's name-registered activity at `index + 1`. Nothing when the bytes are too
/// short for a record.
pub fn name_registered_events(name: String, record_data: &Vec<u8>, slot: u64, signature: &Signature, index: u8,
    observed_at: i64) -> (r: Option<(EventEnvelope, EventEnvelope)>)
    requires
        index < 255,
    ensures
        match r {
            None => record_data@.len() < crate::protocol::NameRecord::LEN,
            Some((e1, e2)) => exists|rec: crate::protocol::NameRecord| {
                &&& #[trigger] name_record_in(record_data@, rec)
                &&& e1.payload matches EventPayload::NameRegistered(n)
                &&& n.name == name
                &&& n.owner == rec.owner
                &&& n.record@ == record_data@
                &&& super::helpers::envelope_at(e1, slot, signature@, index, observed_at)
                &&& e2.payload == EventPayload::ActivityRecorded(ActivityRecorded {
                    owner: rec.owner,
                    kind: kind_code(ActivityKind::NameRegistered),
                    counterparty: rec.owner,
                    amount: 0,
                })
                &&& super::helpers::envelope_at(e2, slot, signature@, (index + 1) as u8, observed_at)
            },
        },
{
    let record = match decode_name_record(record_data.as_slice()) {
        Some(rec) => rec,
        None => return None,
    };
    let name_event = EventPayload::NameRegistered(NameRegistered { name, owner: record.owner, record: record_data.clone() });
    let activity = EventPayload::ActivityRecorded(ActivityRecorded {
        owner: record.owner,
        kind: ActivityKind::NameRegistered.as_u8(),
        counterparty: record.owner,
        amount: 0,
    });
    let e1 = EventEnvelope::new(name_event, slot, signature, index, observed_at);
    let e2 = EventEnvelope::new(activity, slot, signature, index + 1, observed_at);
    assert(name_record_in(record_data@, record));
    Some((e1, e2))
}

/// The events a registry account yields when the indexer first starts: when it holds a
/// name record whose name is UTF-8 and whose address is the name's record address, the
/// name's two events (at slot 0, with the all-zero signature, indices 0 and 1, time 0).
/// Accounts that hold no record, or that sit at another address, yield nothing; a record
/// whose name is not UTF-8 is an error. When no record address exists for the name
/// (no bump gives an address off the curve), the account yields nothing.
pub fn bootstrap_account_events(registry_program: &Pubkey, account: &AccountInfo) -> (r: Result<Option<(EventEnvelope, EventEnvelope)>, SyncError>)
    requires
        account.account.data@.len() >= crate::protocol::NameRecord::LEN ==> account.account.data@[64] <= 32,
    ensures
        account.account.data@.len() < crate::protocol::NameRecord::LEN ==> r == Ok::<Option<(EventEnvelope, EventEnvelope)>, SyncError>(None),
        account.account.data@.len() >= crate::protocol::NameRecord::LEN ==> {
            let data = account.account.data@;
            let name_bytes = data.subrange(32, 32 + data[64] as int);
            &&& !valid_utf8(name_bytes) ==> r == Err::<Option<(EventEnvelope, EventEnvelope)>, SyncError>(SyncError::InvalidSignalInstruction)
            &&& valid_utf8(name_bytes) ==> match r {
                Err(_) => false,
                Ok(None) => !(program_address(seq![name_seed_bytes(), name_bytes], registry_program@) matches Some((k, _))
                    && k == account.pubkey@),
                Ok(Some((e1, e2))) => {
                    &&& program_address(seq![name_seed_bytes(), name_bytes], registry_program@) matches Some((k, _))
                    &&& k == account.pubkey@
                    &&& e1.payload matches EventPayload::NameRegistered(n)
                    &&& n.name@ == decode_utf8(name_bytes)
                    &&& n.owner@ == data.subrange(0, 32)
                    &&& n.record@ == data
                    &&& super::helpers::envelope_at(e1, 0, Seq::new(64, |i: int| 0u8), 0, 0)
                    &&& e2.payload matches EventPayload::ActivityRecorded(a)
                    &&& a.owner@ == data.subrange(0, 32)
                    &&& a.kind == kind_code(ActivityKind::NameRegistered)
                    &&& a.counterparty@ == data.subrange(0, 32)
                    &&& a.amount == 0
                    &&& super::helpers::envelope_at(e2, 0, Seq::new(64, |i: int| 0u8), 1, 0)
                },
            }
        },
{
    let data = &account.account.data;
    let record = match decode_name_record(data.as_slice()) {
        Some(rec) => rec,
        None => return Ok(None),
    };
    let len = record.len as usize;
    let mut bytes: Vec<u8> = Vec::new();
    let mut i: usize = 0;
    while i < len
        invariant
            i <= len <= 32,
            record.name@.len() == 32,
            bytes@ == record.name@.subrange(0, i as int),
        decreases len - i,
    {
        bytes.push(record.name[i]);
        i = i + 1;
        assert(bytes@ =~= record.name@.subrange(0, i as int));
    }
    assert(bytes@ =~= data@.subrange(32, 32 + data@[64] as int));
    let name = match utf8_text(bytes.as_slice()) {
        Some(n) => n,
        None => return Err(SyncError::InvalidSignalInstruction),
    };
    let expected = match crate::protocol::derive_name_record_pda(bytes.as_slice(), registry_program) {
        Some((k, _)) => k,
        None => return Ok(None),
    };
    if !expected.same(&account.pubkey) {
        return Ok(None);
    }
    let zero = Signature([0u8; 64]);
    assert(zero@ =~= Seq::new(64, |i: int| 0u8));
    let name_event = EventPayload::NameRegistered(NameRegistered { name, owner: record.owner, record: data.clone() });
    let activity = EventPayload::ActivityRecorded(ActivityRecorded {
        owner: record.owner,
        kind: ActivityKind::NameRegistered.as_u8(),
        counterparty: record.owner,
        amount: 0,
    });
    let e1 = EventEnvelope::new(name_event, 0, &zero, 0, 0);
    let e2 = EventEnvelope::new(activity, 0, &zero, 1, 0);
    Ok(Some((e1, e2)))
}

} // verus!
