//! Follow events: each signal instruction of the signals program in a transaction
//! becomes a follow-created or follow-removed event.
use vstd::prelude::*;
use crate::client::{InstructionInfo, ParsedTransaction};
use crate::codec::read_array32;
use crate::events::{EventEnvelope, EventPayload, FollowCreated, FollowRemoved};
use crate::keys::Pubkey;
use crate::protocol::instruction::signals::SIGNAL_DISCRIMINATOR;
use super::error::SyncError;
use super::helpers::{envelope_at, instruction_accounts, key_at, observed_at, observed_time, resolved_keys};

verus! {

/// What a follow event says: (whether it is a follow rather than an unfollow, the
/// follower, the target).
pub open spec fn follow_view(p: EventPayload) -> Option<(bool, Seq<u8>, Seq<u8>)> {
    match p {
        EventPayload::FollowCreated(f) => Some((true, f.follower@, f.target@)),
        EventPayload::FollowRemoved(f) => Some((false, f.follower@, f.target@)),
        _ => None,
    }
}

/// What a signals-program instruction says about a follow: nothing unless its data is a
/// signal (at least 34 bytes, tag 1); then the first account it names (which must exist)
/// follows or unfollows (kind byte 0 or 1; any other byte is an error) the target in
/// bytes 2..34.
pub open spec fn follow_parse(keys: Seq<Pubkey>, ix: InstructionInfo) -> Result<Option<(bool, Seq<u8>, Seq<u8>)>, SyncError> {
    let d = ix.data@;
    if d.len() < 34 || d[0] != SIGNAL_DISCRIMINATOR {
        Ok(None)
    } else {
        let accounts = resolved_keys(keys, ix.accounts@);
        if accounts.len() == 0 {
            Err(SyncError::InvalidSignalInstruction)
        } else if d[1] == 0 {
            Ok(Some((true, accounts[0]@, d.subrange(2, 34))))
        } else if d[1] == 1 {
            Ok(Some((false, accounts[0]@, d.subrange(2, 34))))
        } else {
            Err(SyncError::InvalidSignalInstruction)
        }
    }
}

/// Reads the follow event a signal instruction carries, if any.
pub fn parse_follow_event_payload(transaction: &ParsedTransaction, instruction: &InstructionInfo) -> (r: Result<Option<EventPayload>, SyncError>)
    ensures
        match r {
            Ok(Some(p)) => follow_view(p) is Some
                && follow_parse(transaction.message.account_keys@, *instruction) == Ok::<Option<(bool, Seq<u8>, Seq<u8>)>, SyncError>(follow_view(p)),
            Ok(None) => follow_parse(transaction.message.account_keys@, *instruction) == Ok::<Option<(bool, Seq<u8>, Seq<u8>)>, SyncError>(None),
            Err(e) => follow_parse(transaction.message.account_keys@, *instruction) == Err::<Option<(bool, Seq<u8>, Seq<u8>)>, SyncError>(e),
        },
{
    let data = &instruction.data;
    if data.len() < 34 || data[0] != SIGNAL_DISCRIMINATOR {
        return Ok(None);
    }
    let accounts = instruction_accounts(&transaction.message.account_keys, instruction);
    if accounts.len() == 0 {
        return Err(SyncError::InvalidSignalInstruction);
    }
    let follower = accounts[0];
    let target = Pubkey(read_array32(data.as_slice(), 2));
    match data[1] {
        0 => Ok(Some(EventPayload::FollowCreated(FollowCreated { follower, target }))),
        1 => Ok(Some(EventPayload::FollowRemoved(FollowRemoved { follower, target }))),
        _ => Err(SyncError::InvalidSignalInstruction),
    }
}

/// The follow events of the first `n` instructions that run `program`, each with its
/// instruction index, or the first error.
pub open spec fn follow_events(tx: ParsedTransaction, program: Seq<u8>, n: int) -> Result<Seq<((bool, Seq<u8>, Seq<u8>), int)>, SyncError>
    decreases n,
{
    if n <= 0 {
        Ok(seq![])
    } else {
        match follow_events(tx, program, n - 1) {
            Err(e) => Err(e),
            Ok(prev) => {
                let keys = tx.message.account_keys@;
                let ix = tx.message.instructions@[n - 1];
                if !(key_at(keys, ix.program_id_index) matches Some(k) && k@ == program) {
                    Ok(prev)
                } else {
                    match follow_parse(keys, ix) {
                        Err(e) => Err(e),
                        Ok(None) => Ok(prev),
                        Ok(Some(v)) => Ok(prev.push((v, n - 1))),
                    }
                }
            },
        }
    }
}

/// Once the instructions so far give an error, more instructions give the same error.
proof fn lemma_follow_error_sticks(tx: ParsedTransaction, program: Seq<u8>, n: int, m: int)
    requires
        0 <= n <= m,
        follow_events(tx, program, n) is Err,
    ensures
        follow_events(tx, program, m) == follow_events(tx, program, n),
    decreases m - n,
{
    if m > n {
        lemma_follow_error_sticks(tx, program, n, m - 1);
    }
}

/// What a transaction maps to: an error when it has no signature, else its follow events.
pub open spec fn mapped_follows(tx: ParsedTransaction, program: Seq<u8>) -> Result<Seq<((bool, Seq<u8>, Seq<u8>), int)>, SyncError> {
    if tx.signatures@.len() == 0 {
        Err(SyncError::InvalidSignalInstruction)
    } else {
        follow_events(tx, program, tx.message.instructions@.len() as int)
    }
}

/// Turns the signals program's signal instructions into follow events.
#[derive(Clone, Copy, Debug)]
pub struct FollowEventMapper {
    pub signals_program: Pubkey,
}

impl FollowEventMapper {
    pub fn new(signals_program: Pubkey) -> (m: FollowEventMapper)
        ensures
            m.signals_program == signals_program,
    {
        FollowEventMapper { signals_program }
    }

    /// The follow events of a transaction, in instruction order, each stamped with the
    /// transaction's slot, first signature, instruction index and block time.
    pub fn map_transaction(&self, transaction: &ParsedTransaction) -> (r: Result<Vec<EventEnvelope>, SyncError>)
        ensures
            match r {
                Ok(events) => mapped_follows(*transaction, self.signals_program@) matches Ok(xs) && {
                    &&& events@.len() == xs.len()
                    &&& forall|k: int| 0 <= k < xs.len() ==> {
                        &&& follow_view(#[trigger] events@[k].payload) == Some(xs[k].0)
                        &&& envelope_at(events@[k], transaction.slot, transaction.signatures@[0]@, xs[k].1 as u8,
                            observed_time(*transaction))
                    }
                },
                Err(e) => mapped_follows(*transaction, self.signals_program@) == Err::<Seq<((bool, Seq<u8>, Seq<u8>), int)>, SyncError>(e),
            },
    {
        if transaction.signatures.len() == 0 {
            return Err(SyncError::InvalidSignalInstruction);
        }
        let signature = transaction.signatures[0];
        let observed = observed_at(transaction);
        let mut events: Vec<EventEnvelope> = Vec::new();
        let ghost tx = *transaction;
        let ghost program = self.signals_program@;
        let mut i: usize = 0;
        while i < transaction.message.instructions.len()
            invariant
                tx == *transaction,
                program == self.signals_program@,
                signature == transaction.signatures@[0],
                observed == observed_time(tx),
                i <= tx.message.instructions@.len(),
                follow_events(tx, program, i as int) matches Ok(xs) && {
                    &&& events@.len() == xs.len()
                    &&& forall|k: int| 0 <= k < xs.len() ==> {
                        &&& follow_view(#[trigger] events@[k].payload) == Some(xs[k].0)
                        &&& envelope_at(events@[k], tx.slot, signature@, xs[k].1 as u8, observed)
                    }
                },
            decreases tx.message.instructions@.len() - i,
        {
            let instruction = &transaction.message.instructions[i];
            let ghost prev = follow_events(tx, program, i as int)->Ok_0;
            if super::helpers::instruction_matches_program(transaction, instruction, &self.signals_program) {
                match parse_follow_event_payload(transaction, instruction) {
                    Err(e) => {
                        proof {
                            lemma_follow_error_sticks(tx, program, i as int + 1, tx.message.instructions@.len() as int);
                        }
                        return Err(e);
                    },
                    Ok(None) => {},
                    Ok(Some(payload)) => {
                        let envelope = EventEnvelope::new(payload, transaction.slot, &signature, i as u8, observed);
                        let ghost before = events@;
                        events.push(envelope);
                        proof {
                            let xs = follow_events(tx, program, i as int + 1)->Ok_0;
                            assert(xs == prev.push((follow_view(payload)->Some_0, i as int)));
                            assert forall|k: int| 0 <= k < xs.len() implies {
                                &&& follow_view(#[trigger] events@[k].payload) == Some(xs[k].0)
                                &&& envelope_at(events@[k], tx.slot, signature@, xs[k].1 as u8, observed)
                            } by {
                                if k < prev.len() {
                                    assert(events@[k] == before[k]);
                                }
                            }
                        }
                    },
                }
            }
            i = i + 1;
        }
        Ok(events)
    }
}

} // verus!

verus! {

/// The follow event of a signal names the signal's own target: for an instruction whose
/// data is a signal of `kind` towards `target` (as `pack_signal` writes it), whatever
/// accounts it names, the event is a follow exactly when the kind is `Follow`, its
/// follower is the first account the instruction names, and its target is `target`
/// itself; with no account named it is an error.
pub proof fn a_follow_event_names_the_signalled_target(keys: Seq<Pubkey>, ix: InstructionInfo,
    kind: crate::protocol::SignalKind, target: Seq<u8>)
    requires
        target.len() == 32,
        ix.data@ == crate::protocol::instruction::signals::signal_data(kind, target),
    ensures
        resolved_keys(keys, ix.accounts@).len() > 0 ==> follow_parse(keys, ix)
            == Ok::<Option<(bool, Seq<u8>, Seq<u8>)>, SyncError>(Some((kind == crate::protocol::SignalKind::Follow,
                resolved_keys(keys, ix.accounts@)[0]@, target))),
        resolved_keys(keys, ix.accounts@).len() == 0 ==> follow_parse(keys, ix)
            == Err::<Option<(bool, Seq<u8>, Seq<u8>)>, SyncError>(SyncError::InvalidSignalInstruction),
{
    let d = ix.data@;
    assert(d.len() == 34);
    assert(d[0] == SIGNAL_DISCRIMINATOR);
    assert(d.subrange(2, 34) =~= target);
}

} // verus!
