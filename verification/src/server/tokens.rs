//! Token events: after a mint, transfer or burn of the token program, the balances it
//! touched are published again, and a transfer is recorded as the sender's activity.
//!
//! Which instructions are mints, transfers or burns, and their amounts, the caller reads
//! with the chain-sync parser; the accounts are fetched by the caller too.
use vstd::prelude::*;
use crate::client::Account;
use crate::events::activity::kind_code;
use crate::events::{ActivityKind, ActivityRecorded, BalanceUpdated, EventEnvelope, EventPayload};
use crate::keys::{Pubkey, Signature};
use super::balances::{account_amount, held_amount};
use super::helpers::envelope_at;

verus! {

/// `e` is the balance event of `owner` with this account state at this place.
pub open spec fn balance_event_at(e: EventEnvelope, owner: Pubkey, account: Account, slot: u64, signature: Seq<u8>,
    index: u8, observed_at: i64) -> bool {
    &&& e.payload matches EventPayload::BalanceUpdated(b)
    &&& b.owner == owner
    &&& b.amount == held_amount(Some(account))
    &&& b.record@ == account.data@
    &&& envelope_at(e, slot, signature, index, observed_at)
}

/// The balance event of an owner whose balance account was fetched; nothing when the
/// account does not exist.
pub fn balance_updated_event(owner: &Pubkey, account: &Option<Account>, slot: u64, signature: &Signature, index: u8,
    observed_at: i64) -> (r: Option<EventEnvelope>)
    ensures
        match *account {
            None => r is None,
            Some(a) => r matches Some(e) && balance_event_at(e, *owner, a, slot, signature@, index, observed_at),
        },
{
    match account {
        Some(a) => {
            let amount = account_amount(account);
            let event = EventEnvelope::new(
                EventPayload::BalanceUpdated(BalanceUpdated { owner: *owner, amount, record: a.data.clone() }),
                slot,
                signature,
                index,
                observed_at,
            );
            Some(event)
        },
        None => None,
    }
}

/// The events of a transfer of `amount` from `sender` (the instruction's first account)
/// to `recipient` (its third), given their fetched balance accounts: the sender's
/// balance, then the sender's sent activity (when there is a recipient), then the
/// recipient's balance; each balance only when its account exists, and all at the
/// instruction's place.
pub fn transfer_events(sender: Option<Pubkey>, recipient: Option<Pubkey>, sender_account: &Option<Account>,
    recipient_account: &Option<Account>, amount: u64, slot: u64, signature: &Signature, index: u8,
    observed_at: i64) -> (r: Vec<EventEnvelope>)
    ensures
        ({
            let s_bal = sender is Some && *sender_account is Some;
            let act = sender is Some && recipient is Some;
            let r_bal = recipient is Some && *recipient_account is Some;
            let n1: int = if s_bal { 1 } else { 0 };
            let n2: int = if act { 1 } else { 0 };
            let n3: int = if r_bal { 1 } else { 0 };
            &&& r@.len() == n1 + n2 + n3
            &&& s_bal ==> balance_event_at(r@[0], sender->Some_0, sender_account->Some_0, slot, signature@, index, observed_at)
            &&& act ==> {
                &&& r@[n1].payload == EventPayload::ActivityRecorded(ActivityRecorded {
                    owner: sender->Some_0,
                    kind: kind_code(ActivityKind::SurfSent),
                    counterparty: recipient->Some_0,
                    amount,
                })
                &&& envelope_at(r@[n1], slot, signature@, index, observed_at)
            }
            &&& r_bal ==> balance_event_at(r@[n1 + n2], recipient->Some_0, recipient_account->Some_0, slot, signature@, index, observed_at)
        }),
{
    let mut events: Vec<EventEnvelope> = Vec::new();
    if let Some(from) = sender {
        if let Some(e) = balance_updated_event(&from, sender_account, slot, signature, index, observed_at) {
            events.push(e);
        }
        if let Some(to) = recipient {
            let activity = EventEnvelope::new(
                EventPayload::ActivityRecorded(ActivityRecorded {
                    owner: from,
                    kind: ActivityKind::SurfSent.as_u8(),
                    counterparty: to,
                    amount,
                }),
                slot,
                signature,
                index,
                observed_at,
            );
            events.push(activity);
        }
    }
    if let Some(to) = recipient {
        if let Some(e) = balance_updated_event(&to, recipient_account, slot, signature, index, observed_at) {
            events.push(e);
        }
    }
    events
}

} // verus!
