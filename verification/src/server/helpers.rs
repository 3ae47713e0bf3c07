//! Reading a parsed transaction's instructions: the program each one runs and the
//! accounts it names.
use vstd::prelude::*;
use crate::client::{InstructionInfo, ParsedTransaction};
use crate::events::event::{event_id_text, event_type_text};
use crate::events::EventEnvelope;
use crate::keys::{signature_text, Pubkey};

verus! {

/// The key at an index of the transaction's key list, if the index is in range.
pub open spec fn key_at(keys: Seq<Pubkey>, index: u8) -> Option<Pubkey> {
    if (index as int) < keys.len() { Some(keys[index as int]) } else { None }
}

/// The keys an instruction's account indices name, in order, skipping indices out of
/// range.
pub open spec fn resolved_keys(keys: Seq<Pubkey>, indices: Seq<u8>) -> Seq<Pubkey>
    decreases indices.len(),
{
    if indices.len() == 0 {
        seq![]
    } else {
        let rest = resolved_keys(keys, indices.drop_last());
        match key_at(keys, indices.last()) {
            Some(k) => rest.push(k),
            None => rest,
        }
    }
}

/// The block time an event is stamped with: the transaction's, or -1 when it has none.
pub open spec fn observed_time(tx: ParsedTransaction) -> i64 {
    match tx.block_time {
        Some(t) => t,
        None => -1i64,
    }
}

/// `e` is what `EventEnvelope::new` builds from its payload and the given place.
pub open spec fn envelope_at(e: EventEnvelope, slot: u64, signature: Seq<u8>, index: u8, observed_at: i64) -> bool {
    &&& e.schema_version == 1
    &&& e.event_id@ == event_id_text(event_type_text(e.payload), signature_text(signature), index)
    &&& e.slot == slot
    &&& e.signature@ == signature_text(signature)
    &&& e.instruction_index == index
    &&& e.observed_at == observed_at
}

/// Whether the instruction runs the given program.
pub fn instruction_matches_program(tx: &ParsedTransaction, instruction: &InstructionInfo, program_id: &Pubkey) -> (r: bool)
    ensures
        r == (key_at(tx.message.account_keys@, instruction.program_id_index) matches Some(k) && k@ == program_id@),
{
    let index = instruction.program_id_index as usize;
    if index < tx.message.account_keys.len() {
        tx.message.account_keys[index].same(program_id)
    } else {
        false
    }
}

/// The keys the instruction's account indices name (indices out of range are skipped).
pub fn instruction_accounts(keys: &Vec<Pubkey>, instruction: &InstructionInfo) -> (r: Vec<Pubkey>)
    ensures
        r@ == resolved_keys(keys@, instruction.accounts@),
{
    let mut r: Vec<Pubkey> = Vec::new();
    let mut i: usize = 0;
    while i < instruction.accounts.len()
        invariant
            i <= instruction.accounts@.len(),
            r@ == resolved_keys(keys@, instruction.accounts@.take(i as int)),
        decreases instruction.accounts@.len() - i,
    {
        let index = instruction.accounts[i];
        proof {
            let next = instruction.accounts@.take(i as int + 1);
            assert(next.drop_last() =~= instruction.accounts@.take(i as int));
            assert(next.last() == index);
        }
        if (index as usize) < keys.len() {
            r.push(keys[index as usize]);
        }
        i = i + 1;
    }
    assert(instruction.accounts@.take(i as int) =~= instruction.accounts@);
    r
}

/// The block time of the transaction, or -1.
pub fn observed_at(tx: &ParsedTransaction) -> (t: i64)
    ensures
        t == observed_time(*tx),
{
    match tx.block_time {
        Some(t) => t,
        None => -1,
    }
}

} // verus!
