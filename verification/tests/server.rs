use surf::client::{Account, AccountInfo, InstructionInfo, ParsedTransaction, SignatureInfo, TransactionMessage};
use surf::events::{EventPayload, EventEnvelope};
use surf::keys::{Pubkey, Signature};
use surf::protocol::{derive_name_record_pda, pack_register, pack_signal, SignalKind};
use surf::server::balances::balance_sync_events;
use surf::server::checkpoint::{default_checkpoint_path, pending_signatures};
use surf::server::follows::{parse_follow_event_payload, FollowEventMapper};
use surf::server::names::{bootstrap_account_events, name_registered_events, parse_registered_name};
use surf::server::tokens::transfer_events;
use surf::server::{BalanceSnapshot, ServerConfig, ServerError, SignatureCursor, SyncError};

fn unique_key() -> Pubkey {
    Pubkey(solana_pubkey::Pubkey::new_unique().to_bytes())
}

fn signature_with_byte(byte: u8) -> Signature {
    Signature([byte; 64])
}

fn follow_transaction(signals_program: Pubkey, kind: SignalKind) -> ParsedTransaction {
    let follower = unique_key();
    let target = unique_key();
    ParsedTransaction {
        slot: 99,
        block_time: Some(1_700_000_000),
        signatures: vec![signature_with_byte(kind as u8 + 1)],
        message: TransactionMessage {
            account_keys: vec![signals_program, follower, target],
            instructions: vec![InstructionInfo { program_id_index: 0, accounts: vec![1, 2], data: pack_signal(kind, &target) }],
        },
    }
}

#[test]
fn mapper_creates_follow_created_event() {
    let signals_program = unique_key();
    let transaction = follow_transaction(signals_program, SignalKind::Follow);
    let mapper = FollowEventMapper::new(signals_program);
    let events = mapper.map_transaction(&transaction).unwrap();
    assert_eq!(events.len(), 1);
    match &events[0].payload {
        EventPayload::FollowCreated(payload) => {
            assert_eq!(payload.follower, transaction.message.account_keys[1]);
            assert_eq!(payload.target, transaction.message.account_keys[2]);
        }
        other => panic!("unexpected payload: {other:?}"),
    }
}

#[test]
fn mapper_creates_follow_removed_event() {
    let signals_program = unique_key();
    let transaction = follow_transaction(signals_program, SignalKind::Unfollow);
    let mapper = FollowEventMapper::new(signals_program);
    let events = mapper.map_transaction(&transaction).unwrap();
    assert_eq!(events.len(), 1);
    match &events[0].payload {
        EventPayload::FollowRemoved(payload) => {
            assert_eq!(payload.follower, transaction.message.account_keys[1]);
            assert_eq!(payload.target, transaction.message.account_keys[2]);
        }
        other => panic!("unexpected payload: {other:?}"),
    }
}

#[test]
fn mapper_skips_other_programs_and_stamps_place() {
    let signals_program = unique_key();
    let mut tx = follow_transaction(signals_program, SignalKind::Follow);
    let other = tx.message.instructions[0].clone();
    tx.message.account_keys.push(unique_key());
    tx.message.instructions.insert(0, InstructionInfo { program_id_index: 3, accounts: vec![1], data: other.data.clone() });
    tx.block_time = None;
    let events = FollowEventMapper::new(signals_program).map_transaction(&tx).unwrap();
    assert_eq!(events.len(), 1);
    assert_eq!(events[0].instruction_index, 1);
    assert_eq!(events[0].slot, 99);
    assert_eq!(events[0].observed_at, -1);
    let no_sig = ParsedTransaction { signatures: vec![], ..tx };
    assert_eq!(FollowEventMapper::new(signals_program).map_transaction(&no_sig).unwrap_err(), SyncError::InvalidSignalInstruction);
}

#[test]
fn follow_parse_errors() {
    let signals_program = unique_key();
    let mut tx = follow_transaction(signals_program, SignalKind::Follow);
    tx.message.instructions[0].data[1] = 5;
    assert_eq!(parse_follow_event_payload(&tx, &tx.message.instructions[0]).unwrap_err(), SyncError::InvalidSignalInstruction);
    tx.message.instructions[0].accounts = vec![9];
    tx.message.instructions[0].data[1] = 0;
    assert_eq!(parse_follow_event_payload(&tx, &tx.message.instructions[0]).unwrap_err(), SyncError::InvalidSignalInstruction);
    tx.message.instructions[0].data.truncate(10);
    assert!(parse_follow_event_payload(&tx, &tx.message.instructions[0]).unwrap().is_none());
}

#[test]
fn cursor_processes_each_signature_once() {
    let mut cursor = SignatureCursor::default();
    let a = signature_with_byte(1);
    let b = signature_with_byte(2);
    assert!(cursor.should_process(&a, 0));
    cursor.advance(vec![(a, 5), (b, 5)]);
    assert_eq!(cursor.last_slot, 5);
    assert_eq!(cursor.signatures_at_slot.len(), 2);
    assert!(!cursor.should_process(&a, 5));
    assert!(!cursor.should_process(&b, 5));
    assert!(!cursor.should_process(&signature_with_byte(3), 4));
    assert!(cursor.should_process(&signature_with_byte(3), 5));
    cursor.advance(vec![(signature_with_byte(3), 6), (a, 5)]);
    assert_eq!(cursor.last_slot, 6);
    assert_eq!(cursor.signatures_at_slot.len(), 1);
    assert!(!cursor.should_process(&a, 5));
}

#[test]
fn pending_signatures_are_oldest_first_and_unseen() {
    let mut cursor = SignatureCursor::default();
    cursor.advance(vec![(signature_with_byte(1), 3)]);
    let infos = vec![
        SignatureInfo { signature: signature_with_byte(3), slot: 5, block_time: None },
        SignatureInfo { signature: signature_with_byte(2), slot: 4, block_time: None },
        SignatureInfo { signature: signature_with_byte(1), slot: 3, block_time: None },
    ];
    let pending = pending_signatures(&cursor, &infos);
    assert_eq!(pending, vec![(signature_with_byte(2), 4), (signature_with_byte(3), 5)]);
}

#[test]
fn registered_names_are_parsed_from_instruction_data() {
    let mut name = [0u8; 32];
    name[..5].copy_from_slice(b"alice");
    assert_eq!(parse_registered_name(&pack_register(&name, 5)).unwrap(), Some("alice".to_string()));
    assert_eq!(parse_registered_name(&[1, 2, 3]).unwrap(), None);
    assert_eq!(parse_registered_name(&pack_register(&name, 33)).unwrap_err(), SyncError::InvalidSignalInstruction);
    let mut bad = [0u8; 32];
    bad[0] = 0xff;
    assert_eq!(parse_registered_name(&pack_register(&bad, 1)).unwrap_err(), SyncError::InvalidSignalInstruction);
}

fn record_bytes(owner: &Pubkey, name: &[u8]) -> Vec<u8> {
    let mut d = vec![0u8; 72];
    d[..32].copy_from_slice(&owner.0);
    d[32..32 + name.len()].copy_from_slice(name);
    d[64] = name.len() as u8;
    d
}

#[test]
fn name_events_carry_owner_and_record() {
    let owner = unique_key();
    let data = record_bytes(&owner, b"alice");
    let (e1, e2) = name_registered_events("alice".to_string(), &data, 7, &signature_with_byte(1), 2, 9).unwrap();
    match &e1.payload {
        EventPayload::NameRegistered(n) => {
            assert_eq!(n.name, "alice");
            assert_eq!(n.owner, owner);
            assert_eq!(n.record, data);
        }
        other => panic!("unexpected payload: {other:?}"),
    }
    assert_eq!(e1.instruction_index, 2);
    assert_eq!(e2.instruction_index, 3);
    assert!(matches!(&e2.payload, EventPayload::ActivityRecorded(a) if a.kind == 4 && a.owner == owner && a.amount == 0));
    assert!(name_registered_events("alice".to_string(), &vec![0u8; 10], 7, &signature_with_byte(1), 2, 9).is_none());
}

#[test]
fn bootstrap_keeps_only_records_at_their_address() {
    let registry = unique_key();
    let owner = unique_key();
    let (address, _) = derive_name_record_pda(b"alice", &registry).unwrap();
    let data = record_bytes(&owner, b"alice");
    let account = |pubkey: Pubkey, data: Vec<u8>| AccountInfo {
        pubkey,
        account: Account { lamports: 1, data, owner: registry, executable: false, rent_epoch: 0 },
    };
    let (e1, e2) = bootstrap_account_events(&registry, &account(address, data.clone())).unwrap().unwrap();
    assert_eq!(e1.slot, 0);
    assert_eq!(e1.instruction_index, 0);
    assert_eq!(e2.instruction_index, 1);
    assert!(bootstrap_account_events(&registry, &account(unique_key(), data.clone())).unwrap().is_none());
    assert!(bootstrap_account_events(&registry, &account(address, vec![0u8; 3])).unwrap().is_none());
    let mut invalid = data.clone();
    invalid[32] = 0xff;
    assert_eq!(bootstrap_account_events(&registry, &account(address, invalid)).unwrap_err(), SyncError::InvalidSignalInstruction);
}

fn balance_account(owner: &Pubkey, amount: u64) -> Account {
    let mut d = vec![0u8; 48];
    d[..32].copy_from_slice(&owner.0);
    d[32..40].copy_from_slice(&amount.to_le_bytes());
    Account { lamports: 0, data: d, owner: unique_key(), executable: false, rent_epoch: 0 }
}

#[test]
fn balance_sync_publishes_only_changes() {
    let owner = unique_key();
    let account = Some(balance_account(&owner, 50));
    let (events, snapshot) = balance_sync_events(&owner, &BalanceSnapshot::default(), &account, Some(7));
    assert_eq!(events.len(), 2);
    assert!(matches!(&events[0].payload, EventPayload::BalanceUpdated(b) if b.amount == 50));
    assert!(matches!(&events[1].payload, EventPayload::LamportsUpdated(l) if l.lamports == 7));
    assert_eq!(events[1].instruction_index, 1);
    let (again, _) = balance_sync_events(&owner, &snapshot, &account, Some(7));
    assert!(again.is_empty());
    let (changed, next) = balance_sync_events(&owner, &snapshot, &None, Some(7));
    assert_eq!(changed.len(), 1);
    assert!(matches!(&changed[0].payload, EventPayload::BalanceUpdated(b) if b.amount == 0 && b.record.is_empty()));
    assert_eq!(next.amount, Some(0));
}

#[test]
fn transfer_events_come_in_account_order() {
    let sender = unique_key();
    let recipient = unique_key();
    let sig = signature_with_byte(5);
    let events: Vec<EventEnvelope> = transfer_events(
        Some(sender), Some(recipient), &Some(balance_account(&sender, 60)), &Some(balance_account(&recipient, 40)),
        40, 3, &sig, 0, 11,
    );
    assert_eq!(events.len(), 3);
    assert!(matches!(&events[0].payload, EventPayload::BalanceUpdated(b) if b.owner == sender && b.amount == 60));
    assert!(matches!(&events[1].payload, EventPayload::ActivityRecorded(a) if a.kind == 2 && a.counterparty == recipient && a.amount == 40));
    assert!(matches!(&events[2].payload, EventPayload::BalanceUpdated(b) if b.owner == recipient && b.amount == 40));
    let only_activity = transfer_events(Some(sender), Some(recipient), &None, &None, 40, 3, &sig, 0, 11);
    assert_eq!(only_activity.len(), 1);
}

#[test]
fn server_config_defaults_and_builders() {
    let config = ServerConfig::new(
        "http://rpc".to_string(), "nats://x".to_string(), "surf-events".to_string(), None,
        unique_key(), unique_key(), unique_key(),
    );
    assert_eq!(config.checkpoint_path, ".surf-events-server/checkpoints.json");
    assert_eq!(config.poll_interval_ms, 1_000);
    assert_eq!(config.signature_batch_limit, 100);
    let config = config.with_poll_interval_ms(5).with_signature_batch_limit(2).with_checkpoint_path("x.json".to_string());
    assert_eq!(config.poll_interval_ms, 5);
    assert_eq!(config.signature_batch_limit, 2);
    assert_eq!(config.checkpoint_path, "x.json");
    assert_eq!(default_checkpoint_path(), ".surf-events-server/checkpoints.json");
    assert_eq!(ServerError::Sync("boom".to_string()).message(), "sync loop failed: boom");
    assert_eq!(SyncError::InvalidSignalInstruction.message(), "invalid signal instruction");
}
