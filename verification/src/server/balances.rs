//! Balance events: an owner's token balance and lamports, published when they differ
//! from what the indexer last saw.
use vstd::prelude::*;
use crate::client::Account;
use crate::events::{BalanceUpdated, EventEnvelope, EventPayload, LamportsUpdated};
use crate::keys::{Pubkey, Signature};
use crate::protocol::decode_token_balance;
use crate::protocol::state::{token_balance_in, TokenBalance};
use super::checkpoint::BalanceSnapshot;
use super::helpers::envelope_at;

verus! {

/// The token amount an owner's balance account holds: the decoded amount, or 0 when the
/// account is missing or too short.
pub open spec fn held_amount(account: Option<Account>) -> u64 {
    match account {
        Some(a) => if a.data@.len() >= TokenBalance::LEN {
            spec_amount(a.data@)
        } else {
            0
        },
        None => 0,
    }
}

/// The amount field of a balance account's bytes.
pub open spec fn spec_amount(data: Seq<u8>) -> u64 {
    vstd::bytes::spec_u64_from_le_bytes(data.subrange(32, 40))
}

/// The bytes of an optional account (none when it is missing).
pub open spec fn record_of(account: Option<Account>) -> Seq<u8> {
    match account {
        Some(a) => a.data@,
        None => seq![],
    }
}

/// The all-zero signature the balance events carry.
pub open spec fn zero_signature() -> Seq<u8> {
    Seq::new(64, |i: int| 0u8)
}

/// The lamports a sync records (0 when unknown).
pub open spec fn lamports_seen(lamports: Option<u64>) -> u64 {
    match lamports {
        Some(l) => l,
        None => 0,
    }
}

/// The snapshot a sync of this account state returns.
pub open spec fn snapshot_after(account: Option<Account>, lamports: Option<u64>) -> BalanceSnapshot {
    BalanceSnapshot { amount: Some(held_amount(account)), lamports: Some(lamports_seen(lamports)) }
}

/// How many events a sync of this account state publishes against a snapshot: one per
/// value that differs from the snapshot's.
pub open spec fn balance_event_count(checkpoint: BalanceSnapshot, account: Option<Account>, lamports: Option<u64>) -> int {
    (if checkpoint.amount != Some(held_amount(account)) { 1int } else { 0 })
        + (if checkpoint.lamports != Some(lamports_seen(lamports)) { 1int } else { 0 })
}

/// The token amount a balance account holds (0 when it is missing or too short).
pub fn account_amount(account: &Option<Account>) -> (amount: u64)
    ensures
        amount == held_amount(*account),
{
    match account {
        Some(a) => match decode_token_balance(a.data.as_slice()) {
            Some(b) => b.amount,
            None => 0,
        },
        None => 0,
    }
}

/// The events for an owner's balances: a balance event (index 0) when the token amount
/// differs from the snapshot's, a lamports event (index 1) when the lamports (0 when
/// unknown) differ from the snapshot's, both at slot 0 with the all-zero signature and
/// time 0; and the snapshot of what was seen.
pub fn balance_sync_events(owner: &Pubkey, checkpoint: &BalanceSnapshot, account: &Option<Account>,
    lamports: Option<u64>) -> (r: (Vec<EventEnvelope>, BalanceSnapshot))
    ensures
        ({
            let amount = held_amount(*account);
            let seen = lamports_seen(lamports);
            let emit_amount = checkpoint.amount != Some(amount);
            let emit_lamports = checkpoint.lamports != Some(seen);
            let events = r.0@;
            &&& r.1 == snapshot_after(*account, lamports)
            &&& events.len() == balance_event_count(*checkpoint, *account, lamports)
            &&& emit_amount ==> {
                &&& events[0].payload matches EventPayload::BalanceUpdated(b)
                &&& b.owner == *owner
                &&& b.amount == amount
                &&& b.record@ == record_of(*account)
                &&& envelope_at(events[0], 0, zero_signature(), 0, 0)
            }
            &&& emit_lamports ==> {
                let e = events[events.len() - 1];
                &&& e.payload == EventPayload::LamportsUpdated(LamportsUpdated { owner: *owner, lamports: seen })
                &&& envelope_at(e, 0, zero_signature(), 1, 0)
            }
        }),
{
    let mut published: Vec<EventEnvelope> = Vec::new();
    let record: Vec<u8> = match account {
        Some(a) => a.data.clone(),
        None => Vec::new(),
    };
    let amount = account_amount(account);
    let lamports_seen: u64 = match lamports {
        Some(l) => l,
        None => 0,
    };
    let signature = Signature([0u8; 64]);
    assert(signature@ =~= zero_signature());
    let amount_changed = match checkpoint.amount {
        Some(a) => a != amount,
        None => true,
    };
    if amount_changed {
        let event = EventEnvelope::new(
            EventPayload::BalanceUpdated(BalanceUpdated { owner: *owner, amount, record }),
            0,
            &signature,
            0,
            0,
        );
        published.push(event);
    }
    let lamports_changed = match checkpoint.lamports {
        Some(l) => l != lamports_seen,
        None => true,
    };
    if lamports_changed {
        let event = EventEnvelope::new(
            EventPayload::LamportsUpdated(LamportsUpdated { owner: *owner, lamports: lamports_seen }),
            0,
            &signature,
            1,
            0,
        );
        published.push(event);
    }
    (published, BalanceSnapshot { amount: Some(amount), lamports: Some(lamports_seen) })
}

/// A snapshot suppresses repeats: syncing the same account state again, against the
/// snapshot the last sync returned, publishes nothing; and a first sync (against the
/// empty snapshot) publishes both events.
pub proof fn balance_sync_is_quiet_when_unchanged(account: Option<Account>, lamports: Option<u64>)
    ensures
        balance_event_count(snapshot_after(account, lamports), account, lamports) == 0,
        balance_event_count(BalanceSnapshot { amount: None, lamports: None }, account, lamports) == 2,
{
}

} // verus!
