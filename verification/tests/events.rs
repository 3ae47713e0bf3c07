use surf::events::activity::{ActivityKind, ActivityRecord, InvalidActivityKind};
use surf::events::{
    event_id, global_names_subject, subject_for_event, user_activity_subject, user_balance_subject,
    user_follows_subject, user_lamports_subject, ActivityRecorded, BalanceUpdated, EventEnvelope, EventPayload,
    FollowCreated, FollowRecord, FollowRemoved, NameRegistered, SCHEMA_VERSION_V1,
};
use surf::keys::{Pubkey, Signature};

fn unique_key() -> Pubkey {
    Pubkey(solana_pubkey::Pubkey::new_unique().to_bytes())
}

fn signature_with_byte(byte: u8) -> Signature {
    Signature([byte; 64])
}

fn text_of_signature(s: &Signature) -> String {
    solana_signature::Signature::from(s.0).to_string()
}

fn text_of_key(k: &Pubkey) -> String {
    solana_pubkey::Pubkey::new_from_array(k.0).to_string()
}

#[test]
fn event_id_uses_event_type_signature_and_instruction_index() {
    let signature = signature_with_byte(7);
    let id = event_id("follow.created", &signature, 3);
    assert_eq!(id, format!("follow.created:{}:3", text_of_signature(&signature)));
}

#[test]
fn event_id_writes_the_index_in_decimal() {
    let signature = signature_with_byte(1);
    assert!(event_id("name.registered", &signature, 255).ends_with(":255"));
    assert!(event_id("name.registered", &signature, 0).ends_with(":0"));
    assert!(event_id("x", &signature, 10).ends_with(":10"));
}

#[test]
fn envelope_serializes_payload_shape() {
    let follower = unique_key();
    let target = unique_key();
    let signature = signature_with_byte(9);
    let envelope = EventEnvelope::new(
        EventPayload::FollowCreated(FollowCreated { follower, target }),
        42,
        &signature,
        0,
        1_700_000_000,
    );
    assert_eq!(envelope.schema_version, SCHEMA_VERSION_V1);
    assert_eq!(envelope.payload.event_type(), "follow.created");
    match &envelope.payload {
        EventPayload::FollowCreated(p) => {
            assert_eq!(text_of_key(&p.follower), text_of_key(&follower));
            assert_eq!(text_of_key(&p.target), text_of_key(&target));
        }
        other => panic!("unexpected payload: {other:?}"),
    }
    assert_eq!(envelope.slot, 42);
    assert_eq!(envelope.signature, text_of_signature(&signature));
    assert_eq!(envelope.observed_at, 1_700_000_000);
    assert_eq!(envelope.event_id, format!("follow.created:{}:0", text_of_signature(&signature)));
}

#[test]
fn builds_follows_subject_from_pubkey() {
    let viewer = unique_key();
    assert_eq!(user_follows_subject(&viewer), format!("surf.user.{}.follows", text_of_key(&viewer)));
}

#[test]
fn derives_subject_from_follow_event() {
    let follower = unique_key();
    let target = unique_key();
    let event = EventEnvelope::new(
        EventPayload::FollowRemoved(FollowRemoved { follower, target }),
        7,
        &signature_with_byte(4),
        1,
        10,
    );
    assert_eq!(subject_for_event(&event), format!("surf.user.{}.follows", text_of_key(&follower)));
}

#[test]
fn subjects_of_every_event() {
    let owner = unique_key();
    let sig = signature_with_byte(2);
    let text = text_of_key(&owner);
    assert_eq!(user_activity_subject(&owner), format!("surf.user.{text}.activity"));
    assert_eq!(user_balance_subject(&owner), format!("surf.user.{text}.balance"));
    assert_eq!(user_lamports_subject(&owner), format!("surf.user.{text}.lamports"));
    assert_eq!(global_names_subject(), "surf.global.names");
    let name = EventEnvelope::new(
        EventPayload::NameRegistered(NameRegistered { name: "alice".to_string(), owner, record: vec![] }),
        1, &sig, 0, 0,
    );
    assert_eq!(subject_for_event(&name), "surf.global.names");
    assert_eq!(name.event_id, format!("name.registered:{}:0", text_of_signature(&sig)));
    let balance = EventEnvelope::new(
        EventPayload::BalanceUpdated(BalanceUpdated { owner, amount: 5, record: vec![] }),
        1, &sig, 0, 0,
    );
    assert_eq!(subject_for_event(&balance), format!("surf.user.{text}.balance"));
    let activity = EventEnvelope::new(
        EventPayload::ActivityRecorded(ActivityRecorded { owner, kind: 2, counterparty: owner, amount: 5 }),
        1, &sig, 0, 0,
    );
    assert_eq!(subject_for_event(&activity), format!("surf.user.{text}.activity"));
    assert_eq!(activity.payload.event_type(), "activity.recorded");
}

#[test]
fn activity_kinds_round_trip() {
    let kinds = [
        ActivityKind::SolSent,
        ActivityKind::SolReceived,
        ActivityKind::SurfSent,
        ActivityKind::SurfReceived,
        ActivityKind::NameRegistered,
        ActivityKind::Followed,
        ActivityKind::Unfollowed,
    ];
    for (i, kind) in kinds.iter().enumerate() {
        assert_eq!(kind.as_u8(), i as u8);
        assert_eq!(ActivityKind::from_u8(i as u8), Ok(*kind));
    }
    assert_eq!(ActivityKind::from_u8(7), Err(InvalidActivityKind));
    assert_eq!(InvalidActivityKind.message(), "Invalid activity kind");
}

#[test]
fn activity_record_round_trips() {
    let record = ActivityRecord {
        kind: ActivityKind::SurfSent,
        counterparty: unique_key(),
        amount: 1_234,
        slot: 99,
        block_time: -1,
        signature: [3u8; 64],
    };
    let bytes = record.encode();
    assert_eq!(bytes.len(), 121);
    assert_eq!(bytes[0], 2);
    assert_eq!(ActivityRecord::decode(&bytes).unwrap(), record);
    assert!(ActivityRecord::decode(&bytes[..120]).is_err());
    let mut bad = bytes.clone();
    bad[0] = 9;
    assert!(ActivityRecord::decode(&bad).is_err());
}

#[test]
fn follow_record_round_trips() {
    let record = FollowRecord { slot: 7, block_time: 1_700_000_000, signature: [8u8; 64] };
    let bytes = record.encode();
    assert_eq!(bytes.len(), 80);
    assert_eq!(u64::from_le_bytes(bytes[..8].try_into().unwrap()), 7);
    assert_eq!(FollowRecord::decode(&bytes).unwrap(), record);
    assert!(FollowRecord::decode(&bytes[..79]).is_err());
}
