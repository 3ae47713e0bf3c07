//! How far the indexer has read each address's signatures, and its saved state.
//!
//! A cursor remembers the highest slot it has seen and the signatures it has seen at
//! that slot; a signature is processed when its slot is later, or when it is at that
//! slot and not yet seen.
use vstd::prelude::*;
use vstd::string::*;
use crate::client::SignatureInfo;
use crate::keys::{signature_text, signature_to_string, Signature};

verus! {

#[derive(Clone, Debug)]
pub struct SignatureCursor {
    pub last_slot: u64,
    pub signatures_at_slot: Vec<String>,
}

/// The texts of a list of strings.
pub open spec fn texts(v: Seq<String>) -> Seq<Seq<char>> {
    v.map_values(|s: String| s@)
}

/// A cursor as a slot and the signature texts seen at it.
pub struct CursorView {
    pub last_slot: u64,
    pub seen: Seq<Seq<char>>,
}

impl View for SignatureCursor {
    type V = CursorView;

    open spec fn view(&self) -> CursorView {
        CursorView { last_slot: self.last_slot, seen: texts(self.signatures_at_slot@) }
    }
}

/// Whether a cursor lets the signature with the given text at the given slot through.
pub open spec fn admits(c: CursorView, text: Seq<char>, slot: u64) -> bool {
    slot > c.last_slot || (slot == c.last_slot && !c.seen.contains(text))
}

/// The cursor after one processed signature.
pub open spec fn step(c: CursorView, text: Seq<char>, slot: u64) -> CursorView {
    if slot > c.last_slot {
        CursorView { last_slot: slot, seen: seq![text] }
    } else if slot == c.last_slot && !c.seen.contains(text) {
        CursorView { last_slot: c.last_slot, seen: c.seen.push(text) }
    } else {
        c
    }
}

/// The cursor after the given processed signatures, in order.
pub open spec fn advanced(c: CursorView, entries: Seq<(Seq<char>, u64)>) -> CursorView
    decreases entries.len(),
{
    if entries.len() == 0 {
        c
    } else {
        let before = advanced(c, entries.drop_last());
        step(before, entries.last().0, entries.last().1)
    }
}

/// The texts and slots of processed signatures.
pub open spec fn entry_texts(entries: Seq<(Signature, u64)>) -> Seq<(Seq<char>, u64)> {
    entries.map_values(|e: (Signature, u64)| (signature_text(e.0@), e.1))
}

fn contains_text(values: &Vec<String>, text: &String) -> (r: bool)
    ensures
        r == texts(values@).contains(text@),
{
    let mut i: usize = 0;
    while i < values.len()
        invariant
            i <= values@.len(),
            forall|j: int| 0 <= j < i ==> values@[j]@ != text@,
        decreases values@.len() - i,
    {
        if values[i] == *text {
            assert(texts(values@)[i as int] == text@);
            return true;
        }
        i = i + 1;
    }
    assert forall|j: int| 0 <= j < texts(values@).len() implies texts(values@)[j] != text@ by {
        assert(values@[j]@ != text@);
    }
    false
}

impl Default for SignatureCursor {
    fn default() -> (c: SignatureCursor)
        ensures
            c.last_slot == 0,
            c.signatures_at_slot@.len() == 0,
    {
        SignatureCursor { last_slot: 0, signatures_at_slot: Vec::new() }
    }
}

impl SignatureCursor {
    /// Whether the signature at the given slot is still to be processed.
    pub fn should_process(&self, signature: &Signature, slot: u64) -> (r: bool)
        ensures
            r == admits(self@, signature_text(signature@), slot),
    {
        if slot > self.last_slot {
            return true;
        }
        if slot < self.last_slot {
            return false;
        }
        let text = signature_to_string(signature);
        !contains_text(&self.signatures_at_slot, &text)
    }

    /// Records the given signatures, in order, as processed.
    pub fn advance(&mut self, entries: Vec<(Signature, u64)>)
        ensures
            final(self)@ == advanced(old(self)@, entry_texts(entries@)),
    {
        let ghost start = self@;
        let mut i: usize = 0;
        while i < entries.len()
            invariant
                i <= entries@.len(),
                self@ == advanced(start, entry_texts(entries@).take(i as int)),
            decreases entries@.len() - i,
        {
            let (signature, slot) = entries[i];
            let encoded = signature_to_string(&signature);
            let ghost before = self@;
            proof {
                let prefix = entry_texts(entries@).take(i as int + 1);
                assert(prefix.drop_last() =~= entry_texts(entries@).take(i as int));
                assert(prefix.last() == (encoded@, slot));
            }
            if slot > self.last_slot {
                self.last_slot = slot;
                self.signatures_at_slot = vec![encoded];
                assert(self@.seen =~= seq![signature_text(signature@)]);
            } else if slot == self.last_slot && !contains_text(&self.signatures_at_slot, &encoded) {
                self.signatures_at_slot.push(encoded);
                assert(self@.seen =~= before.seen.push(signature_text(signature@)));
            }
            i = i + 1;
        }
        assert(entry_texts(entries@).take(i as int) =~= entry_texts(entries@));
    }
}

/// The largest of `start` and the slots of the entries.
pub open spec fn max_slot(start: u64, entries: Seq<(Seq<char>, u64)>) -> u64
    decreases entries.len(),
{
    if entries.len() == 0 {
        start
    } else {
        let m = max_slot(start, entries.drop_last());
        if entries.last().1 > m { entries.last().1 } else { m }
    }
}

/// A cursor keeps the largest slot it has seen, keeps each signature text at that slot
/// at most once, and lets through any signature at a later slot.
pub proof fn cursor_keeps_largest_slot(c: CursorView, entries: Seq<(Seq<char>, u64)>)
    ensures
        advanced(c, entries).last_slot == max_slot(c.last_slot, entries),
        c.seen.no_duplicates() ==> advanced(c, entries).seen.no_duplicates(),
        forall|text: Seq<char>, slot: u64| slot > advanced(c, entries).last_slot ==> admits(advanced(c, entries), text, slot),
    decreases entries.len(),
{
    if entries.len() > 0 {
        cursor_keeps_largest_slot(c, entries.drop_last());
        let before = advanced(c, entries.drop_last());
        let (t, sl) = entries.last();
        if sl > before.last_slot {
            assert(seq![t].no_duplicates());
        } else if sl == before.last_slot && !before.seen.contains(t) {
            if before.seen.no_duplicates() {
                let after = before.seen.push(t);
                assert forall|i: int, j: int| 0 <= i < after.len() && 0 <= j < after.len() && i != j
                    implies after[i] != after[j] by {
                    if i < before.seen.len() && j < before.seen.len() {
                        assert(after[i] == before.seen[i] && after[j] == before.seen[j]);
                    } else if i == before.seen.len() {
                        assert(after[j] == before.seen[j]);
                    } else {
                        assert(after[i] == before.seen[i]);
                    }
                }
            }
        }
    }
}

/// A cursor only moves forward: its slot never decreases, and a signature it no longer
/// admits is never admitted again, whatever is processed after.
pub proof fn cursor_never_readmits(c: CursorView, entries: Seq<(Seq<char>, u64)>, text: Seq<char>, slot: u64)
    ensures
        advanced(c, entries).last_slot >= c.last_slot,
        !admits(c, text, slot) ==> !admits(advanced(c, entries), text, slot),
    decreases entries.len(),
{
    if entries.len() > 0 {
        cursor_never_readmits(c, entries.drop_last(), text, slot);
        let before = advanced(c, entries.drop_last());
        let (t, s) = entries.last();
        if s == before.last_slot && !before.seen.contains(t) {
            if !admits(before, text, slot) && slot == before.last_slot {
                assert(before.seen.contains(text));
                let k = choose|k: int| 0 <= k < before.seen.len() && before.seen[k] == text;
                assert(before.seen.push(t)[k] == text);
            }
        }
    }
}

/// Once processed, a signature is not processed again: after advancing over a list of
/// signatures, the cursor admits none of them.
pub proof fn cursor_skips_processed(c: CursorView, entries: Seq<(Seq<char>, u64)>, k: int)
    requires
        0 <= k < entries.len(),
    ensures
        !admits(advanced(c, entries), entries[k].0, entries[k].1),
    decreases entries.len(),
{
    let before = advanced(c, entries.drop_last());
    let (t, s) = entries.last();
    if k == entries.len() - 1 {
        let after = step(before, t, s);
        if s > before.last_slot {
            assert(after.seen[0] == t);
        } else if s == before.last_slot && !before.seen.contains(t) {
            assert(after.seen[after.seen.len() - 1] == t);
        }
    } else {
        cursor_skips_processed(c, entries.drop_last(), k);
        assert(entries.drop_last()[k] == entries[k]);
        let one = seq![(t, s)];
        assert(one.drop_last() =~= Seq::<(Seq<char>, u64)>::empty());
        assert(advanced(before, one.drop_last()) == before);
        assert(advanced(before, one) == step(before, t, s));
        cursor_never_readmits(before, one, entries[k].0, entries[k].1);
    }
}

/// The signatures from index `i` on that a checkpoint admits, oldest first (the backend
/// lists newest first).
pub open spec fn pending_from(c: CursorView, infos: Seq<SignatureInfo>, i: int) -> Seq<(Signature, u64)>
    decreases infos.len() - i,
{
    if i < 0 || i >= infos.len() {
        seq![]
    } else {
        let rest = pending_from(c, infos, i + 1);
        if admits(c, signature_text(infos[i].signature@), infos[i].slot) {
            rest.push((infos[i].signature, infos[i].slot))
        } else {
            rest
        }
    }
}

/// The signatures a sync pass processes: those the checkpoint admits, oldest first.
pub open spec fn pending(c: CursorView, infos: Seq<SignatureInfo>) -> Seq<(Signature, u64)> {
    pending_from(c, infos, 0)
}

/// What advancing a cursor over processed signatures gives, as one law (`advance` makes
/// the cursor `advanced(c, entry_texts(entries))`, and `should_process` answers `admits`):
/// the slot becomes the largest of the old slot and the entries' slots; the texts kept at
/// that slot stay free of repeats; no processed entry is taken up again; and every
/// signature at a later slot still is.
pub proof fn advancing_takes_up_nothing_twice(c: CursorView, entries: Seq<(Seq<char>, u64)>)
    ensures
        advanced(c, entries).last_slot == max_slot(c.last_slot, entries),
        c.seen.no_duplicates() ==> advanced(c, entries).seen.no_duplicates(),
        forall|k: int| 0 <= k < entries.len() ==> !admits(advanced(c, entries), (#[trigger] entries[k]).0, entries[k].1),
        forall|text: Seq<char>, slot: u64| slot > advanced(c, entries).last_slot ==> admits(advanced(c, entries), text, slot),
{
    cursor_keeps_largest_slot(c, entries);
    assert forall|k: int| 0 <= k < entries.len() implies !admits(advanced(c, entries), (#[trigger] entries[k]).0, entries[k].1) by {
        cursor_skips_processed(c, entries, k);
    }
}

/// Picks, oldest first, the listed signatures the checkpoint has not processed yet.
pub fn pending_signatures(checkpoint: &SignatureCursor, infos: &Vec<SignatureInfo>) -> (r: Vec<(Signature, u64)>)
    ensures
        r@ == pending(checkpoint@, infos@),
{
    let mut r: Vec<(Signature, u64)> = Vec::new();
    let mut i: usize = infos.len();
    while i > 0
        invariant
            i <= infos@.len(),
            r@ == pending_from(checkpoint@, infos@, i as int),
        decreases i,
    {
        i = i - 1;
        let info = infos[i];
        if checkpoint.should_process(&info.signature, info.slot) {
            r.push((info.signature, info.slot));
        }
    }
    r
}

/// What a pass over an address remembers about one owner's balances.
#[derive(Clone, Copy, Debug)]
pub struct BalanceSnapshot {
    pub amount: Option<u64>,
    pub lamports: Option<u64>,
}

impl Default for BalanceSnapshot {
    fn default() -> (s: BalanceSnapshot)
        ensures
            s.amount is None,
            s.lamports is None,
    {
        BalanceSnapshot { amount: None, lamports: None }
    }
}

/// The indexer's saved state: whether names were bootstrapped, and one cursor per stream.
#[derive(Clone, Debug)]
pub struct ServerCheckpointState {
    pub bootstrapped: bool,
    pub follow: SignatureCursor,
    pub names: SignatureCursor,
    pub tokens: SignatureCursor,
    pub activity: SignatureCursor,
}

impl Default for ServerCheckpointState {
    fn default() -> (s: ServerCheckpointState)
        ensures
            !s.bootstrapped,
            s.follow@ == (CursorView { last_slot: 0, seen: seq![] }),
            s.names@ == (CursorView { last_slot: 0, seen: seq![] }),
            s.tokens@ == (CursorView { last_slot: 0, seen: seq![] }),
            s.activity@ == (CursorView { last_slot: 0, seen: seq![] }),
    {
        let s = ServerCheckpointState {
            bootstrapped: false,
            follow: SignatureCursor::default(),
            names: SignatureCursor::default(),
            tokens: SignatureCursor::default(),
            activity: SignatureCursor::default(),
        };
        assert(s.follow@.seen =~= seq![]);
        assert(s.names@.seen =~= seq![]);
        assert(s.tokens@.seen =~= seq![]);
        assert(s.activity@.seen =~= seq![]);
        s
    }
}

/// Where the checkpoint is kept unless configured otherwise.
pub fn default_checkpoint_path() -> (p: String)
    ensures
        p@ == ".surf-events-server/checkpoints.json"@,
{
    String::from_str(".surf-events-server/checkpoints.json")
}

} // verus!
