//! The events the indexer publishes, and the envelope that carries each one.
use vstd::prelude::*;
use vstd::string::*;
use crate::keys::{signature_text, signature_to_string, Pubkey, Signature};
use crate::text::{decimal, u64_decimal};

verus! {

pub type SchemaVersion = u16;

/// The schema version the envelopes carry.
pub const SCHEMA_VERSION_V1: SchemaVersion = 1;

/// A follower started following a target.
#[derive(Clone, Copy, Debug, PartialEq, Eq)]
pub struct FollowCreated {
    pub follower: Pubkey,
    pub target: Pubkey,
}

/// A follower stopped following a target.
#[derive(Clone, Copy, Debug, PartialEq, Eq)]
pub struct FollowRemoved {
    pub follower: Pubkey,
    pub target: Pubkey,
}

/// A name was registered to an owner; `record` holds the record account's bytes.
#[derive(Clone, Debug, PartialEq, Eq)]
pub struct NameRegistered {
    pub name: String,
    pub owner: Pubkey,
    pub record: Vec<u8>,
}

/// An owner's token balance is now `amount`; `record` holds the balance account's bytes.
#[derive(Clone, Debug, PartialEq, Eq)]
pub struct BalanceUpdated {
    pub owner: Pubkey,
    pub amount: u64,
    pub record: Vec<u8>,
}

/// An owner's lamport balance is now `lamports`.
#[derive(Clone, Copy, Debug, PartialEq, Eq)]
pub struct LamportsUpdated {
    pub owner: Pubkey,
    pub lamports: u64,
}

/// An activity of the owner's, with its kind byte.
#[derive(Clone, Copy, Debug, PartialEq, Eq)]
pub struct ActivityRecorded {
    pub owner: Pubkey,
    pub kind: u8,
    pub counterparty: Pubkey,
    pub amount: u64,
}

/// What an event says.
#[derive(Clone, Debug, PartialEq, Eq)]
pub enum EventPayload {
    FollowCreated(FollowCreated),
    FollowRemoved(FollowRemoved),
    NameRegistered(NameRegistered),
    BalanceUpdated(BalanceUpdated),
    LamportsUpdated(LamportsUpdated),
    ActivityRecorded(ActivityRecorded),
}

/// The type name of each event.
pub open spec fn event_type_text(payload: EventPayload) -> Seq<char> {
    match payload {
        EventPayload::FollowCreated(_) => "follow.created"@,
        EventPayload::FollowRemoved(_) => "follow.removed"@,
        EventPayload::NameRegistered(_) => "name.registered"@,
        EventPayload::BalanceUpdated(_) => "balance.updated"@,
        EventPayload::LamportsUpdated(_) => "lamports.updated"@,
        EventPayload::ActivityRecorded(_) => "activity.recorded"@,
    }
}

impl EventPayload {
    pub fn event_type(&self) -> (t: &'static str)
        ensures
            t@ == event_type_text(*self),
    {
        match self {
            EventPayload::FollowCreated(_) => "follow.created",
            EventPayload::FollowRemoved(_) => "follow.removed",
            EventPayload::NameRegistered(_) => "name.registered",
            EventPayload::BalanceUpdated(_) => "balance.updated",
            EventPayload::LamportsUpdated(_) => "lamports.updated",
            EventPayload::ActivityRecorded(_) => "activity.recorded",
        }
    }
}

/// An event with where and when the chain recorded it.
#[derive(Clone, Debug, PartialEq, Eq)]
pub struct EventEnvelope {
    pub schema_version: SchemaVersion,
    pub event_id: String,
    pub slot: u64,
    pub signature: String,
    pub instruction_index: u8,
    pub observed_at: i64,
    pub payload: EventPayload,
}

/// The identifier of an event: `<type>:<signature>:<instruction index>`.
pub open spec fn event_id_text(event_type: Seq<char>, signature: Seq<char>, instruction_index: u8) -> Seq<char> {
    event_type + ":"@ + signature + ":"@ + decimal(instruction_index as nat)
}

/// The identifier of the event of the given type at the given instruction of the
/// transaction with the given signature.
pub fn event_id(event_type: &str, signature: &Signature, instruction_index: u8) -> (id: String)
    ensures
        id@ == event_id_text(event_type@, signature_text(signature@), instruction_index),
{
    let mut id = String::from_str(event_type);
    id.append(":");
    let sig = signature_to_string(signature);
    id.append(sig.as_str());
    id.append(":");
    let index = u64_decimal(instruction_index as u64);
    id.append(index.as_str());
    id
}

impl EventEnvelope {
    /// Wraps a payload: current schema version, the identifier from its type, the
    /// signature and the index, and the signature's base58 text.
    pub fn new(payload: EventPayload, slot: u64, signature: &Signature, instruction_index: u8, observed_at: i64) -> (e: EventEnvelope)
        ensures
            e.schema_version == SCHEMA_VERSION_V1,
            e.event_id@ == event_id_text(event_type_text(payload), signature_text(signature@), instruction_index),
            e.slot == slot,
            e.signature@ == signature_text(signature@),
            e.instruction_index == instruction_index,
            e.observed_at == observed_at,
            e.payload == payload,
    {
        let event_id = event_id(payload.event_type(), signature, instruction_index);
        EventEnvelope {
            schema_version: SCHEMA_VERSION_V1,
            event_id,
            slot,
            signature: signature_to_string(signature),
            instruction_index,
            observed_at,
            payload,
        }
    }
}

} // verus!
