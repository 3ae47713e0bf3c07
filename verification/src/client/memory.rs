//! The state of the in-memory test chain: its accounts, loaded programs and the
//! transactions it has confirmed, and the bookkeeping the chain does around running
//! programs (plain lamport transfers, lookups, slots).
use vstd::prelude::*;
use vstd::bytes::{spec_u32_from_le_bytes, spec_u64_from_le_bytes};
use crate::keys::{system_program_id, zero_key, Pubkey, Signature};
use crate::tx::{meta_view, AccountMeta, Instruction, InstructionView};
use super::backend::{
    Account, AccountInfo, AccountView, InstructionInfo, ParsedTransaction, ProgramAccountsFilter, SignatureInfo,
    SignaturesForAddressOptions, TransactionMessage,
};
use super::error::Error;

verus! {

/// An instruction as a transaction message stores it: indices into the message's keys.
#[derive(Clone, Debug)]
pub struct CompiledInstruction {
    pub program_id_index: u8,
    pub accounts: Vec<u8>,
    pub data: Vec<u8>,
}

/// How many of a message's keys sign, and how many signing and non-signing keys are
/// read-only (signers come first, read-only ones last in each group).
#[derive(Clone, Copy, Debug)]
pub struct MessageHeader {
    pub num_required_signatures: u8,
    pub num_readonly_signed_accounts: u8,
    pub num_readonly_unsigned_accounts: u8,
}

/// A confirmed transaction, at the slot it was confirmed in.
#[derive(Clone, Debug)]
pub struct StoredTransaction {
    pub slot: u64,
    pub signatures: Vec<Signature>,
    pub header: MessageHeader,
    pub account_keys: Vec<Pubkey>,
    pub instructions: Vec<CompiledInstruction>,
}

/// The tag of the system program's transfer instruction.
pub const SYSTEM_TRANSFER_TAG: u32 = 2;

// ---------------------------------------------------------------- decompiling

/// The account meta of key `index`: signer when among the first
/// `num_required_signatures`, writable unless among the read-only ones of its group.
pub open spec fn meta_at(index: int, keys: Seq<Pubkey>, h: MessageHeader) -> (Seq<u8>, bool, bool) {
    let is_signer = index < h.num_required_signatures;
    let is_writable = if is_signer {
        index < h.num_required_signatures - h.num_readonly_signed_accounts
    } else {
        index < keys.len() - h.num_readonly_unsigned_accounts
    };
    (keys[index]@, is_signer, is_writable)
}

/// The instruction a compiled instruction stands for.
pub open spec fn decompiled(c: CompiledInstruction, keys: Seq<Pubkey>, h: MessageHeader) -> InstructionView {
    InstructionView {
        program_id: keys[c.program_id_index as int]@,
        accounts: c.accounts@.map_values(|i: u8| meta_at(i as int, keys, h)),
        data: c.data@,
    }
}

/// A compiled instruction whose indices are in range, under a header whose counts fit
/// the keys (where an account of the instruction needs them).
pub open spec fn decompilable(c: CompiledInstruction, keys: Seq<Pubkey>, h: MessageHeader) -> bool {
    &&& (c.program_id_index as int) < keys.len()
    &&& forall|k: int| 0 <= k < c.accounts@.len() ==> {
        let i = #[trigger] c.accounts@[k] as int;
        &&& i < keys.len()
        &&& i < h.num_required_signatures ==> h.num_readonly_signed_accounts <= h.num_required_signatures
        &&& i >= h.num_required_signatures ==> h.num_readonly_unsigned_accounts <= keys.len()
    }
}

/// The instruction a compiled instruction of a message stands for.
pub fn decompile_instruction(compiled: &CompiledInstruction, account_keys: &Vec<Pubkey>, header: &MessageHeader) -> (ix: Instruction)
    requires
        decompilable(*compiled, account_keys@, *header),
    ensures
        ix@ == decompiled(*compiled, account_keys@, *header),
{
    let program_id = account_keys[compiled.program_id_index as usize];
    let num_signers = header.num_required_signatures as usize;
    let num_readonly_signed = header.num_readonly_signed_accounts as usize;
    let num_readonly_unsigned = header.num_readonly_unsigned_accounts as usize;
    let num_accounts = account_keys.len();
    let mut accounts: Vec<AccountMeta> = Vec::new();
    let mut k: usize = 0;
    while k < compiled.accounts.len()
        invariant
            k <= compiled.accounts@.len(),
            decompilable(*compiled, account_keys@, *header),
            num_signers == header.num_required_signatures,
            num_readonly_signed == header.num_readonly_signed_accounts,
            num_readonly_unsigned == header.num_readonly_unsigned_accounts,
            num_accounts == account_keys@.len(),
            accounts@.len() == k,
            forall|j: int| 0 <= j < k ==> meta_view(#[trigger] accounts@[j]) == meta_at(compiled.accounts@[j] as int, account_keys@, *header),
        decreases compiled.accounts@.len() - k,
    {
        let index = compiled.accounts[k] as usize;
        assert(compiled.accounts@[k as int] as int == index);
        let pubkey = account_keys[index];
        let is_signer = index < num_signers;
        let is_writable = if is_signer {
            index < num_signers - num_readonly_signed
        } else {
            index < num_accounts - num_readonly_unsigned
        };
        accounts.push(AccountMeta { pubkey, is_signer, is_writable });
        k = k + 1;
    }
    let data = compiled.data.clone();
    assert(data@ =~= compiled.data@);
    let ix = Instruction { program_id, accounts, data };
    assert(ix@.accounts =~= decompiled(*compiled, account_keys@, *header).accounts);
    ix
}

/// What a system instruction transfers: its first four bytes are the transfer tag and the
/// next eight the lamports (both little-endian).
pub open spec fn system_transfer_lamports(data: Seq<u8>) -> Option<u64> {
    if data.len() < 12 {
        None
    } else if spec_u32_from_le_bytes(data.subrange(0, 4)) != SYSTEM_TRANSFER_TAG {
        None
    } else {
        Some(spec_u64_from_le_bytes(data.subrange(4, 12)))
    }
}

/// The lamports a system transfer instruction moves, if it is one.
pub fn decode_system_transfer_lamports(data: &[u8]) -> (r: Option<u64>)
    ensures
        r == system_transfer_lamports(data@),
{
    if data.len() < 12 {
        return None;
    }
    let mut tag_bytes: Vec<u8> = Vec::new();
    let mut amount_bytes: Vec<u8> = Vec::new();
    let mut i: usize = 0;
    while i < 12
        invariant
            i <= 12,
            data@.len() >= 12,
            tag_bytes@ == data@.subrange(0, if i < 4 { i as int } else { 4 }),
            amount_bytes@ == data@.subrange(4, if i < 4 { 4 } else { i as int }),
        decreases 12 - i,
    {
        if i < 4 {
            tag_bytes.push(data[i]);
        } else {
            amount_bytes.push(data[i]);
        }
        i = i + 1;
        assert(tag_bytes@ =~= data@.subrange(0, if i < 4 { i as int } else { 4 }));
        assert(amount_bytes@ =~= data@.subrange(4, if i < 4 { 4 } else { i as int }));
    }
    let tag = vstd::bytes::u32_from_le_bytes(tag_bytes.as_slice());
    if tag != SYSTEM_TRANSFER_TAG {
        return None;
    }
    Some(vstd::bytes::u64_from_le_bytes(amount_bytes.as_slice()))
}

// ---------------------------------------------------------------- accounts

/// The accounts as a list of (address, account) in insertion order.
pub open spec fn store_view(entries: Seq<(Pubkey, Account)>) -> Seq<(Seq<u8>, AccountView)> {
    entries.map_values(|e: (Pubkey, Account)| (e.0@, e.1@))
}

/// No address occurs twice.
pub open spec fn distinct_keys(s: Seq<(Seq<u8>, AccountView)>) -> bool {
    forall|i: int, j: int| 0 <= i < j < s.len() ==> s[i].0 != s[j].0
}

/// The position of the address in the list, or -1.
pub open spec fn index_of(s: Seq<(Seq<u8>, AccountView)>, key: Seq<u8>) -> int
    decreases s.len(),
{
    if s.len() == 0 {
        -1
    } else {
        let p = index_of(s.drop_last(), key);
        if p >= 0 {
            p
        } else if s.last().0 == key {
            s.len() - 1
        } else {
            -1
        }
    }
}

/// The lamports of all accounts together.
pub open spec fn total_lamports(s: Seq<(Seq<u8>, AccountView)>) -> int
    decreases s.len(),
{
    if s.len() == 0 {
        0
    } else {
        total_lamports(s.drop_last()) + s.last().1.lamports
    }
}

/// The account with its lamports replaced.
pub open spec fn with_lamports(a: AccountView, lamports: u64) -> AccountView {
    AccountView { lamports, ..a }
}

proof fn lemma_index_of(s: Seq<(Seq<u8>, AccountView)>, key: Seq<u8>)
    ensures
        -1 <= index_of(s, key) < s.len(),
        index_of(s, key) >= 0 ==> s[index_of(s, key)].0 == key,
        index_of(s, key) >= 0 ==> forall|j: int| 0 <= j < index_of(s, key) ==> s[j].0 != key,
        index_of(s, key) < 0 ==> forall|j: int| 0 <= j < s.len() ==> s[j].0 != key,
    decreases s.len(),
{
    if s.len() > 0 {
        lemma_index_of(s.drop_last(), key);
        assert forall|j: int| 0 <= j < s.len() - 1 implies s.drop_last()[j] == s[j] by {}
    }
}

proof fn lemma_total_update(s: Seq<(Seq<u8>, AccountView)>, i: int, x: (Seq<u8>, AccountView))
    requires
        0 <= i < s.len(),
    ensures
        total_lamports(s.update(i, x)) == total_lamports(s) - s[i].1.lamports + x.1.lamports,
    decreases s.len(),
{
    let t = s.update(i, x);
    if i == s.len() - 1 {
        assert(t.drop_last() =~= s.drop_last());
    } else {
        lemma_total_update(s.drop_last(), i, x);
        assert(t.drop_last() =~= s.drop_last().update(i, x));
    }
}

/// Finds the position of an address among the accounts.
pub fn position(entries: &Vec<(Pubkey, Account)>, key: &Pubkey) -> (r: Option<usize>)
    ensures
        match r {
            Some(i) => i as int == index_of(store_view(entries@), key@) && i < entries@.len(),
            None => index_of(store_view(entries@), key@) == -1,
        },
{
    proof {
        lemma_index_of(store_view(entries@), key@);
    }
    let mut i: usize = 0;
    while i < entries.len()
        invariant
            i <= entries@.len(),
            forall|j: int| 0 <= j < i ==> store_view(entries@)[j].0 != key@,
        decreases entries@.len() - i,
    {
        if entries[i].0.same(key) {
            proof {
                let s = store_view(entries@);
                lemma_index_of(s, key@);
                let p = index_of(s, key@);
                assert(s[i as int].0 == key@);
                if p < 0 {
                    assert(s[i as int].0 != key@);
                }
                if p >= 0 && p != i {
                    if p < i {
                        assert(s[p].0 != key@);
                    } else {
                        assert(s[i as int].0 != key@);
                    }
                }
            }
            return Some(i);
        }
        i = i + 1;
    }
    proof {
        let s = store_view(entries@);
        lemma_index_of(s, key@);
        if index_of(s, key@) >= 0 {
            assert(s[index_of(s, key@)].0 != key@);
        }
    }
    None
}

/// The lamports `system_transfer` would give the recipient do not fit in a `u64`.
pub open spec fn transfer_overflows(s: Seq<(Seq<u8>, AccountView)>, from: Seq<u8>, to: Seq<u8>, lamports: u64) -> bool {
    let i = index_of(s, from);
    let mid = s.update(i, (s[i].0, with_lamports(s[i].1, (s[i].1.lamports - lamports) as u64)));
    let j = index_of(mid, to);
    &&& i >= 0
    &&& s[i].1.lamports >= lamports
    &&& j >= 0
    &&& mid[j].1.lamports + lamports > u64::MAX
}

/// A new system account holding `lamports`, as a view.
pub open spec fn fresh_view(lamports: u64) -> AccountView {
    AccountView { lamports, data: seq![], owner: zero_key(), executable: false, rent_epoch: 0 }
}

/// The accounts after moving `lamports` from the account at `from` (which must exist and
/// hold them) to the one at `to`, created as a fresh system account when missing.
pub open spec fn after_transfer(s: Seq<(Seq<u8>, AccountView)>, from: Seq<u8>, to: Seq<u8>, lamports: u64) -> Seq<(Seq<u8>, AccountView)> {
    let i = index_of(s, from);
    let mid = s.update(i, (s[i].0, with_lamports(s[i].1, (s[i].1.lamports - lamports) as u64)));
    let j = index_of(mid, to);
    if j >= 0 {
        mid.update(j, (mid[j].0, with_lamports(mid[j].1, (mid[j].1.lamports + lamports) as u64)))
    } else {
        mid.push((to, fresh_view(lamports)))
    }
}

/// What a system transfer instruction does to the accounts, or the message it fails with.
pub open spec fn system_transfer_result(s: Seq<(Seq<u8>, AccountView)>, ix: InstructionView) -> Result<Seq<(Seq<u8>, AccountView)>, Seq<char>> {
    if ix.accounts.len() < 2 {
        Err("System transfer requires source and destination"@)
    } else {
        let from = ix.accounts[0].0;
        let to = ix.accounts[1].0;
        match system_transfer_lamports(ix.data) {
            None => Err("Unsupported system instruction for Mollusk backend"@),
            Some(l) => if index_of(s, from) < 0 {
                Err("Source account not found"@)
            } else if s[index_of(s, from)].1.lamports < l {
                Err("Insufficient funds"@)
            } else {
                Ok(after_transfer(s, from, to, l))
            },
        }
    }
}

/// The instruction would credit a recipient past `u64::MAX` (the chain aborts there).
pub open spec fn system_transfer_overflows(s: Seq<(Seq<u8>, AccountView)>, ix: InstructionView) -> bool {
    &&& ix.accounts.len() >= 2
    &&& system_transfer_lamports(ix.data) matches Some(l)
    &&& transfer_overflows(s, ix.accounts[0].0, ix.accounts[1].0, l)
}

fn backend(message: &str) -> (e: Error)
    ensures
        super::rpc::backend_error(e, message@),
{
    Error::Backend(String::from_str(message))
}

/// Runs a system transfer on the accounts: the source must exist and hold the lamports;
/// the destination is created as a system account when missing. On failure the accounts
/// are unchanged.
pub fn process_system_transfer(instruction: &Instruction, accounts: &mut Vec<(Pubkey, Account)>) -> (r: Result<(), Error>)
    requires
        !system_transfer_overflows(store_view(old(accounts)@), instruction@),
    ensures
        match system_transfer_result(store_view(old(accounts)@), instruction@) {
            Ok(t) => r is Ok && store_view(final(accounts)@) == t,
            Err(m) => (r matches Err(e) && super::rpc::backend_error(e, m)) && final(accounts)@ == old(accounts)@,
        },
{
    if instruction.accounts.len() < 2 {
        return Err(backend("System transfer requires source and destination"));
    }
    let lamports = match decode_system_transfer_lamports(instruction.data.as_slice()) {
        Some(l) => l,
        None => return Err(backend("Unsupported system instruction for Mollusk backend")),
    };
    let from = instruction.accounts[0].pubkey;
    let to = instruction.accounts[1].pubkey;
    let i = match position(accounts, &from) {
        Some(i) => i,
        None => return Err(backend("Source account not found")),
    };
    if accounts[i].1.lamports < lamports {
        return Err(backend("Insufficient funds"));
    }
    let ghost s = store_view(accounts@);
    let key_i = accounts[i].0;
    let acc_i = accounts[i].1.copy();
    let debited = Account { lamports: acc_i.lamports - lamports, ..acc_i };
    accounts.set(i, (key_i, debited));
    proof {
        assert(store_view(accounts@) =~= s.update(i as int, (s[i as int].0, with_lamports(s[i as int].1, (s[i as int].1.lamports - lamports) as u64))));
    }
    let ghost mid = store_view(accounts@);
    match position(accounts, &to) {
        Some(j) => {
            let key_j = accounts[j].0;
            let acc_j = accounts[j].1.copy();
            let credited = Account { lamports: acc_j.lamports + lamports, ..acc_j };
            accounts.set(j, (key_j, credited));
            assert(store_view(accounts@) =~= mid.update(j as int, (mid[j as int].0, with_lamports(mid[j as int].1, (mid[j as int].1.lamports + lamports) as u64))));
        },
        None => {
            let fresh = Account { lamports, data: Vec::new(), owner: system_program_id(), executable: false, rent_epoch: 0 };
            accounts.push((to, fresh));
            assert(fresh@.data =~= seq![]);
            assert(store_view(accounts@) =~= mid.push((to@, fresh_view(lamports))));
        },
    }
    Ok(())
}

/// A transfer between accounts creates and destroys no lamports, and keeps every
/// address at most once.
pub proof fn system_transfer_conserves_lamports(s: Seq<(Seq<u8>, AccountView)>, ix: InstructionView)
    requires
        distinct_keys(s),
        !system_transfer_overflows(s, ix),
    ensures
        system_transfer_result(s, ix) matches Ok(t) ==> total_lamports(t) == total_lamports(s) && distinct_keys(t),
{
    if system_transfer_result(s, ix) is Ok {
        let from = ix.accounts[0].0;
        let to = ix.accounts[1].0;
        let lamports = system_transfer_lamports(ix.data)->Some_0;
        let t = after_transfer(s, from, to, lamports);
        let i = index_of(s, from);
        lemma_index_of(s, from);
        let mid = s.update(i, (s[i].0, with_lamports(s[i].1, (s[i].1.lamports - lamports) as u64)));
        lemma_total_update(s, i, mid[i]);
        let j = index_of(mid, to);
        lemma_index_of(mid, to);
        if j >= 0 {
            lemma_total_update(mid, j, t[j]);
            assert forall|a: int, b: int| 0 <= a < b < t.len() implies t[a].0 != t[b].0 by {
                assert(t[a].0 == s[a].0 && t[b].0 == s[b].0);
            }
        } else {
            assert(t.drop_last() =~= mid);
            assert forall|a: int, b: int| 0 <= a < b < t.len() implies t[a].0 != t[b].0 by {
                assert(t[a] == t.drop_last()[a]);
                assert(mid[a].0 == s[a].0);
                if b == t.len() - 1 {
                    assert(t[a] == mid[a]);
                } else {
                    assert(t[b] == t.drop_last()[b]);
                    assert(mid[b].0 == s[b].0);
                }
            }
        }
    }
}

/// What running the system transfers in order does to the accounts, or the message of
/// the first that fails.
pub open spec fn run_transfers(s: Seq<(Seq<u8>, AccountView)>, ixs: Seq<InstructionView>) -> Result<Seq<(Seq<u8>, AccountView)>, Seq<char>>
    decreases ixs.len(),
{
    if ixs.len() == 0 {
        Ok(s)
    } else {
        match run_transfers(s, ixs.drop_last()) {
            Err(m) => Err(m),
            Ok(t) => system_transfer_result(t, ixs.last()),
        }
    }
}

/// Some transfer of the run, reached with the accounts the earlier ones left, would
/// credit past `u64::MAX`.
pub open spec fn run_overflows(s: Seq<(Seq<u8>, AccountView)>, ixs: Seq<InstructionView>) -> bool {
    exists|k: int| 0 <= k < ixs.len() && ((#[trigger] run_transfers(s, ixs.take(k))) matches Ok(t)
        && system_transfer_overflows(t, ixs[k]))
}

/// The views of a list of instructions.
pub open spec fn instruction_views(ixs: Seq<Instruction>) -> Seq<InstructionView> {
    ixs.map_values(|ix: Instruction| ix@)
}

/// Runs system transfers in order on a copy of the accounts; the first failure stops
/// the run.
pub fn run_system_transfers(accounts: &Vec<(Pubkey, Account)>, instructions: &Vec<Instruction>) -> (r: Result<Vec<(Pubkey, Account)>, Error>)
    requires
        !run_overflows(store_view(accounts@), instruction_views(instructions@)),
    ensures
        match run_transfers(store_view(accounts@), instruction_views(instructions@)) {
            Ok(t) => r matches Ok(v) && store_view(v@) == t,
            Err(m) => r matches Err(e) && super::rpc::backend_error(e, m),
        },
{
    let mut work: Vec<(Pubkey, Account)> = Vec::new();
    let mut c: usize = 0;
    while c < accounts.len()
        invariant
            c <= accounts@.len(),
            work@.len() == c,
            store_view(work@) == store_view(accounts@).take(c as int),
        decreases accounts@.len() - c,
    {
        let key = accounts[c].0;
        let acc = accounts[c].1.copy();
        let ghost prev = work@;
        work.push((key, acc));
        proof {
            let w = prev.push((key, acc));
            assert(work@ == w);
            let want = store_view(accounts@).take(c as int + 1);
            assert(prev.len() == c);
            assert forall|j: int| 0 <= j < c + 1 implies #[trigger] store_view(w)[j] == want[j] by {
                if j < c {
                    assert(w[j] == prev[j]);
                    assert(store_view(prev)[j] == store_view(accounts@).take(c as int)[j]);
                } else {
                    assert(w[j] == (key, acc));
                    assert(accounts@[j].1@ == acc@);
                }
            }
            assert(store_view(w) =~= want);
        }
        c = c + 1;
        assert(store_view(work@) =~= store_view(accounts@).take(c as int));
    }
    assert(store_view(accounts@).take(c as int) =~= store_view(accounts@));
    let ghost s = store_view(accounts@);
    let ghost views = instruction_views(instructions@);
    let mut i: usize = 0;
    while i < instructions.len()
        invariant
            i <= instructions@.len(),
            s == store_view(accounts@),
            views == instruction_views(instructions@),
            !run_overflows(s, views),
            run_transfers(s, views.take(i as int)) == Ok::<Seq<(Seq<u8>, AccountView)>, Seq<char>>(store_view(work@)),
        decreases instructions@.len() - i,
    {
        proof {
            assert(views.take(i as int + 1).drop_last() =~= views.take(i as int));
            assert(views.take(i as int + 1).last() == instructions@[i as int]@);
            if system_transfer_overflows(store_view(work@), views[i as int]) {
                assert(run_transfers(s, views.take(i as int)) matches Ok(t) && system_transfer_overflows(t, views[i as int]));
            }
        }
        match process_system_transfer(&instructions[i], &mut work) {
            Ok(()) => {},
            Err(e) => {
                proof {
                    lemma_run_error_sticks(s, views, i as int + 1);
                }
                return Err(e);
            },
        }
        i = i + 1;
    }
    assert(views.take(i as int) =~= views);
    Ok(work)
}

/// A run of system transfers between accounts creates and destroys no lamports, and
/// keeps every address at most once.
pub proof fn run_conserves_lamports(s: Seq<(Seq<u8>, AccountView)>, ixs: Seq<InstructionView>)
    requires
        distinct_keys(s),
        !run_overflows(s, ixs),
    ensures
        run_transfers(s, ixs) matches Ok(t) ==> total_lamports(t) == total_lamports(s) && distinct_keys(t),
    decreases ixs.len(),
{
    if ixs.len() > 0 {
        let front = ixs.drop_last();
        assert forall|k: int| 0 <= k < front.len() implies !((#[trigger] run_transfers(s, front.take(k))) matches Ok(t)
            && system_transfer_overflows(t, front[k])) by {
            assert(front.take(k) =~= ixs.take(k));
            assert(front[k] == ixs[k]);
            if run_transfers(s, front.take(k)) matches Ok(t) && system_transfer_overflows(t, front[k]) {
                assert(run_transfers(s, ixs.take(k)) matches Ok(t) && system_transfer_overflows(t, ixs[k]));
            }
        }
        run_conserves_lamports(s, front);
        if run_transfers(s, front) is Ok {
            let t0 = run_transfers(s, front)->Ok_0;
            let k = ixs.len() - 1;
            assert(ixs.take(k) =~= front);
            if system_transfer_overflows(t0, ixs[k]) {
                assert(run_transfers(s, ixs.take(k)) matches Ok(t) && system_transfer_overflows(t, ixs[k]));
            }
            system_transfer_conserves_lamports(t0, ixs.last());
        }
    }
}

/// A copy of the accounts.
fn copy_accounts(accounts: &Vec<(Pubkey, Account)>) -> (r: Vec<(Pubkey, Account)>)
    ensures
        store_view(r@) == store_view(accounts@),
{
    let mut work: Vec<(Pubkey, Account)> = Vec::new();
    let mut c: usize = 0;
    while c < accounts.len()
        invariant
            c <= accounts@.len(),
            work@.len() == c,
            store_view(work@) == store_view(accounts@).take(c as int),
        decreases accounts@.len() - c,
    {
        let key = accounts[c].0;
        let acc = accounts[c].1.copy();
        let ghost prev = work@;
        work.push((key, acc));
        proof {
            let w = prev.push((key, acc));
            assert(work@ == w);
            let want = store_view(accounts@).take(c as int + 1);
            assert forall|j: int| 0 <= j < c + 1 implies #[trigger] store_view(w)[j] == want[j] by {
                if j < c {
                    assert(w[j] == prev[j]);
                    assert(store_view(prev)[j] == store_view(accounts@).take(c as int)[j]);
                } else {
                    assert(accounts@[j].1@ == acc@);
                }
            }
            assert(store_view(w) =~= want);
        }
        c = c + 1;
    }
    assert(store_view(accounts@).take(c as int) =~= store_view(accounts@));
    work
}

/// Whether running the instruction as a system transfer on the accounts would credit a
/// recipient past `u64::MAX`.
pub fn system_transfer_would_overflow(instruction: &Instruction, accounts: &Vec<(Pubkey, Account)>) -> (r: bool)
    ensures
        r == system_transfer_overflows(store_view(accounts@), instruction@),
{
    if instruction.accounts.len() < 2 {
        return false;
    }
    let lamports = match decode_system_transfer_lamports(instruction.data.as_slice()) {
        Some(l) => l,
        None => return false,
    };
    let from = instruction.accounts[0].pubkey;
    let to = instruction.accounts[1].pubkey;
    let i = match position(accounts, &from) {
        Some(i) => i,
        None => return false,
    };
    if accounts[i].1.lamports < lamports {
        return false;
    }
    let ghost s = store_view(accounts@);
    let mut work = copy_accounts(accounts);
    let key_i = work[i].0;
    let acc_i = work[i].1.copy();
    let debited = Account { lamports: acc_i.lamports - lamports, ..acc_i };
    work.set(i, (key_i, debited));
    proof {
        assert(store_view(work@) =~= s.update(i as int, (s[i as int].0, with_lamports(s[i as int].1, (s[i as int].1.lamports - lamports) as u64))));
    }
    match position(&work, &to) {
        Some(j) => work[j].1.lamports > u64::MAX - lamports,
        None => false,
    }
}

/// Whether some transfer of the run, reached with the accounts the earlier ones left,
/// would credit a recipient past `u64::MAX`.
pub fn run_would_overflow(accounts: &Vec<(Pubkey, Account)>, instructions: &Vec<Instruction>) -> (r: bool)
    ensures
        r == run_overflows(store_view(accounts@), instruction_views(instructions@)),
{
    let ghost s = store_view(accounts@);
    let ghost views = instruction_views(instructions@);
    let mut work = copy_accounts(accounts);
    let mut i: usize = 0;
    while i < instructions.len()
        invariant
            i <= instructions@.len(),
            s == store_view(accounts@),
            views == instruction_views(instructions@),
            run_transfers(s, views.take(i as int)) == Ok::<Seq<(Seq<u8>, AccountView)>, Seq<char>>(store_view(work@)),
            forall|k: int| 0 <= k < i ==> !((#[trigger] run_transfers(s, views.take(k))) matches Ok(t)
                && system_transfer_overflows(t, views[k])),
        decreases instructions@.len() - i,
    {
        assert(views[i as int] == instructions@[i as int]@);
        if system_transfer_would_overflow(&instructions[i], &work) {
            assert(run_transfers(s, views.take(i as int)) matches Ok(t) && system_transfer_overflows(t, views[i as int]));
            return true;
        }
        proof {
            assert(views.take(i as int + 1).drop_last() =~= views.take(i as int));
            assert(views.take(i as int + 1).last() == instructions@[i as int]@);
        }
        match process_system_transfer(&instructions[i], &mut work) {
            Ok(()) => {},
            Err(_) => {
                proof {
                    assert(run_transfers(s, views.take(i as int + 1)) is Err);
                    assert forall|k: int| 0 <= k < views.len() implies !((#[trigger] run_transfers(s, views.take(k))) matches Ok(t)
                        && system_transfer_overflows(t, views[k])) by {
                        if k > i {
                            assert(views.take(k).take(i as int + 1) =~= views.take(i as int + 1));
                            lemma_run_error_sticks(s, views.take(k), i as int + 1);
                        }
                    }
                }
                return false;
            },
        }
        i = i + 1;
    }
    assert(views.len() == i);
    false
}

proof fn lemma_run_error_sticks(s: Seq<(Seq<u8>, AccountView)>, ixs: Seq<InstructionView>, n: int)
    requires
        0 <= n <= ixs.len(),
        run_transfers(s, ixs.take(n)) is Err,
    ensures
        run_transfers(s, ixs) == run_transfers(s, ixs.take(n)),
    decreases ixs.len() - n,
{
    if n == ixs.len() {
        assert(ixs.take(n) =~= ixs);
    } else {
        let m = n + 1;
        assert(ixs.take(m).drop_last() =~= ixs.take(n));
        lemma_run_error_sticks(s, ixs, m);
    }
}

/// Every instruction of the list can be decompiled against the message.
pub open spec fn all_decompilable(cs: Seq<CompiledInstruction>, keys: Seq<Pubkey>, h: MessageHeader) -> bool {
    forall|k: int| 0 <= k < cs.len() ==> decompilable(#[trigger] cs[k], keys, h)
}

/// The instructions of a message, decompiled; `None` when one names a key the message
/// does not have (or a header count the keys cannot hold).
pub fn decompile_transaction(instructions: &Vec<CompiledInstruction>, account_keys: &Vec<Pubkey>, header: &MessageHeader) -> (r: Option<Vec<Instruction>>)
    ensures
        match r {
            Some(ixs) => all_decompilable(instructions@, account_keys@, *header) && ixs@.len() == instructions@.len()
                && forall|k: int| 0 <= k < ixs@.len() ==> (#[trigger] ixs@[k])@ == decompiled(instructions@[k], account_keys@, *header),
            None => !all_decompilable(instructions@, account_keys@, *header),
        },
{
    let mut out: Vec<Instruction> = Vec::new();
    let mut k: usize = 0;
    while k < instructions.len()
        invariant
            k <= instructions@.len(),
            out@.len() == k,
            forall|j: int| 0 <= j < k ==> decompilable(#[trigger] instructions@[j], account_keys@, *header),
            forall|j: int| 0 <= j < k ==> (#[trigger] out@[j])@ == decompiled(instructions@[j], account_keys@, *header),
        decreases instructions@.len() - k,
    {
        let c = &instructions[k];
        if !check_decompilable(c, account_keys, header) {
            return None;
        }
        out.push(decompile_instruction(c, account_keys, header));
        k = k + 1;
    }
    Some(out)
}

fn check_decompilable(c: &CompiledInstruction, keys: &Vec<Pubkey>, h: &MessageHeader) -> (r: bool)
    ensures
        r == decompilable(*c, keys@, *h),
{
    if (c.program_id_index as usize) >= keys.len() {
        return false;
    }
    let mut k: usize = 0;
    while k < c.accounts.len()
        invariant
            k <= c.accounts@.len(),
            (c.program_id_index as int) < keys@.len(),
            forall|j: int| 0 <= j < k ==> {
                let i = #[trigger] c.accounts@[j] as int;
                &&& i < keys@.len()
                &&& i < h.num_required_signatures ==> h.num_readonly_signed_accounts <= h.num_required_signatures
                &&& i >= h.num_required_signatures ==> h.num_readonly_unsigned_accounts <= keys@.len()
            },
        decreases c.accounts@.len() - k,
    {
        let i = c.accounts[k] as usize;
        if i >= keys.len() {
            return false;
        }
        if i < h.num_required_signatures as usize {
            if h.num_readonly_signed_accounts > h.num_required_signatures {
                return false;
            }
        } else if (h.num_readonly_unsigned_accounts as usize) > keys.len() {
            return false;
        }
        k = k + 1;
    }
    true
}

/// Whether every instruction runs the system program.
pub fn system_only(instructions: &Vec<Instruction>) -> (r: bool)
    ensures
        r == forall|k: int| 0 <= k < instructions@.len() ==> (#[trigger] instructions@[k]).program_id@ == zero_key(),
{
    let system = system_program_id();
    let mut k: usize = 0;
    while k < instructions.len()
        invariant
            k <= instructions@.len(),
            system@ == zero_key(),
            forall|j: int| 0 <= j < k ==> (#[trigger] instructions@[j]).program_id@ == zero_key(),
        decreases instructions@.len() - k,
    {
        if !instructions[k].program_id.same(&system) {
            return false;
        }
        k = k + 1;
    }
    true
}

// ---------------------------------------------------------------- the chain's state

/// The in-memory chain: accounts, loaded programs (address and code), confirmed
/// transactions, and the slot the next transaction gets.
#[derive(Debug)]
pub struct MolluskState {
    pub accounts: Vec<(Pubkey, Account)>,
    pub programs: Vec<(Pubkey, Vec<u8>)>,
    pub transactions: Vec<StoredTransaction>,
    pub next_slot: u64,
}

/// Whether a confirmed transaction names the address among its keys.
pub open spec fn touches(tx: StoredTransaction, address: Seq<u8>) -> bool {
    exists|k: int| 0 <= k < tx.account_keys@.len() && #[trigger] tx.account_keys@[k]@ == address
}

/// The signatures (first signature and slot) of the transactions that touch the address,
/// newest first; transactions without a signature are left out.
pub open spec fn signatures_touching(txs: Seq<StoredTransaction>, address: Seq<u8>) -> Seq<(Seq<u8>, u64)>
    decreases txs.len(),
{
    if txs.len() == 0 {
        seq![]
    } else {
        let newest = txs.last();
        let rest = signatures_touching(txs.drop_last(), address);
        if touches(newest, address) && newest.signatures@.len() > 0 {
            seq![(newest.signatures@[0]@, newest.slot)] + rest
        } else {
            rest
        }
    }
}

/// The position of the first transaction whose first signature is the given one, or -1.
pub open spec fn transaction_index(txs: Seq<StoredTransaction>, signature: Seq<u8>) -> int
    decreases txs.len(),
{
    if txs.len() == 0 {
        -1
    } else {
        let p = transaction_index(txs.drop_last(), signature);
        if p >= 0 {
            p
        } else if txs.last().signatures@.len() > 0 && txs.last().signatures@[0]@ == signature {
            txs.len() - 1
        } else {
            -1
        }
    }
}

/// The accounts a program owns whose data has the filter's size (any size without one),
/// in the order they are kept.
pub open spec fn owned_by(s: Seq<(Seq<u8>, AccountView)>, program: Seq<u8>, size: Option<usize>) -> Seq<(Seq<u8>, AccountView)>
    decreases s.len(),
{
    if s.len() == 0 {
        seq![]
    } else {
        let rest = owned_by(s.drop_last(), program, size);
        let e = s.last();
        if e.1.owner == program && (match size { Some(n) => e.1.data.len() == n, None => true }) {
            rest.push(e)
        } else {
            rest
        }
    }
}

fn touches_address(tx: &StoredTransaction, address: &Pubkey) -> (r: bool)
    ensures
        r == touches(*tx, address@),
{
    let mut k: usize = 0;
    while k < tx.account_keys.len()
        invariant
            k <= tx.account_keys@.len(),
            forall|j: int| 0 <= j < k ==> tx.account_keys@[j]@ != address@,
        decreases tx.account_keys@.len() - k,
    {
        if tx.account_keys[k].same(address) {
            return true;
        }
        k = k + 1;
    }
    false
}

/// The loaded programs as (address, code) pairs.
pub open spec fn programs_view(p: Seq<(Pubkey, Vec<u8>)>) -> Seq<(Seq<u8>, Seq<u8>)> {
    p.map_values(|e: (Pubkey, Vec<u8>)| (e.0@, e.1@))
}

/// The programs after loading `code` at `id`: the first entry for `id` gets the new code,
/// or, when there is none, the pair is added at the end.
pub open spec fn programs_after_load(p: Seq<(Seq<u8>, Seq<u8>)>, id: Seq<u8>, code: Seq<u8>) -> Seq<(Seq<u8>, Seq<u8>)>
    decreases p.len(),
{
    if p.len() == 0 {
        seq![(id, code)]
    } else if p[0].0 == id {
        p.update(0, (id, code))
    } else {
        seq![p[0]] + programs_after_load(p.drop_first(), id, code)
    }
}

proof fn lemma_distinct_update(s: Seq<(Seq<u8>, AccountView)>, i: int, x: (Seq<u8>, AccountView))
    requires
        distinct_keys(s),
        0 <= i < s.len(),
        x.0 == s[i].0,
    ensures
        distinct_keys(s.update(i, x)),
{
    let t = s.update(i, x);
    assert forall|a: int, b: int| 0 <= a < b < t.len() implies t[a].0 != t[b].0 by {
        assert(t[a].0 == s[a].0 && t[b].0 == s[b].0);
    }
}

proof fn lemma_distinct_push(s: Seq<(Seq<u8>, AccountView)>, x: (Seq<u8>, AccountView))
    requires
        distinct_keys(s),
        index_of(s, x.0) < 0,
    ensures
        distinct_keys(s.push(x)),
{
    lemma_index_of(s, x.0);
    let t = s.push(x);
    assert forall|a: int, b: int| 0 <= a < b < t.len() implies t[a].0 != t[b].0 by {
        assert(t[a] == s[a]);
        if b < s.len() {
            assert(t[b] == s[b]);
        }
    }
}

proof fn lemma_programs_after_load(p: Seq<(Seq<u8>, Seq<u8>)>, id: Seq<u8>, code: Seq<u8>, k: int)
    requires
        0 <= k <= p.len(),
        forall|j: int| 0 <= j < k ==> (#[trigger] p[j]).0 != id,
        k < p.len() ==> p[k].0 == id,
    ensures
        k < p.len() ==> programs_after_load(p, id, code) == p.update(k, (id, code)),
        k == p.len() ==> programs_after_load(p, id, code) == p.push((id, code)),
    decreases p.len(),
{
    if p.len() == 0 {
        assert(seq![(id, code)] =~= p.push((id, code)));
    } else if p[0].0 == id {
        assert(k == 0);
    } else {
        let q = p.drop_first();
        assert forall|j: int| 0 <= j < k - 1 implies (#[trigger] q[j]).0 != id by {
            assert(q[j] == p[j + 1]);
        }
        lemma_programs_after_load(q, id, code, k - 1);
        if k < p.len() {
            assert(seq![p[0]] + q.update(k - 1, (id, code)) =~= p.update(k, (id, code)));
        } else {
            assert(seq![p[0]] + q.push((id, code)) =~= p.push((id, code)));
        }
    }
}

impl MolluskState {
    /// The chain's well-formedness: no address holds two accounts, and the confirmed
    /// transactions have strictly increasing slots, all below the next slot. A new chain
    /// has it and every operation keeps it, so every state the chain reaches has it.
    pub open spec fn well_formed(&self) -> bool {
        &&& distinct_keys(store_view(self.accounts@))
        &&& slots_below(self.transactions@, self.next_slot)
    }

    /// An empty chain whose first transaction gets slot 1.
    pub fn new() -> (s: MolluskState)
        ensures
            s.accounts@.len() == 0,
            s.programs@.len() == 0,
            s.transactions@.len() == 0,
            s.next_slot == 1,
            s.well_formed(),
    {
        MolluskState { accounts: Vec::new(), programs: Vec::new(), transactions: Vec::new(), next_slot: 1 }
    }

    /// The account at the address, if any.
    pub fn get_account(&self, pubkey: &Pubkey) -> (r: Option<Account>)
        ensures
            ({
                let s = store_view(self.accounts@);
                let i = index_of(s, pubkey@);
                match r {
                    Some(a) => i >= 0 && a@ == s[i].1,
                    None => i < 0,
                }
            }),
    {
        match position(&self.accounts, pubkey) {
            Some(i) => Some(self.accounts[i].1.copy()),
            None => None,
        }
    }

    /// The lamports of the account at the address, if any.
    pub fn get_balance(&self, pubkey: &Pubkey) -> (r: Option<u64>)
        ensures
            ({
                let s = store_view(self.accounts@);
                let i = index_of(s, pubkey@);
                match r {
                    Some(l) => i >= 0 && l == s[i].1.lamports,
                    None => i < 0,
                }
            }),
    {
        match position(&self.accounts, pubkey) {
            Some(i) => Some(self.accounts[i].1.lamports),
            None => None,
        }
    }

    /// The blockhash the chain hands out: the next slot's little-endian bytes, then zeros.
    pub fn latest_blockhash(&self) -> (h: [u8; 32])
        ensures
            h@ == vstd::bytes::spec_u64_to_le_bytes(self.next_slot) + Seq::new(24, |i: int| 0u8),
    {
        let seed = vstd::bytes::u64_to_le_bytes(self.next_slot);
        proof {
            crate::codec::lemma_u64_le_roundtrip(self.next_slot, seq![]);
        }
        let mut h = [0u8; 32];
        let mut i: usize = 0;
        while i < 8
            invariant
                i <= 8,
                seed@ == vstd::bytes::spec_u64_to_le_bytes(self.next_slot),
                seed@.len() == 8,
                h@.len() == 32,
                forall|j: int| 0 <= j < i ==> h@[j] == seed@[j],
                forall|j: int| i <= j < 32 ==> h@[j] == 0u8,
            decreases 8 - i,
        {
            h[i] = seed[i];
            i = i + 1;
        }
        assert(h@ =~= vstd::bytes::spec_u64_to_le_bytes(self.next_slot) + Seq::new(24, |i: int| 0u8));
        h
    }

    /// The accounts the program owns (of the filter's data size, when given).
    pub fn get_program_accounts(&self, program_id: &Pubkey, filters: Option<ProgramAccountsFilter>) -> (r: Vec<AccountInfo>)
        ensures
            ({
                let size = match filters { Some(f) => f.data_size, None => None };
                let want = owned_by(store_view(self.accounts@), program_id@, size);
                &&& r@.len() == want.len()
                &&& forall|k: int| 0 <= k < want.len() ==> (#[trigger] r@[k]).pubkey@ == want[k].0 && r@[k].account@ == want[k].1
            }),
    {
        let size = match filters {
            Some(f) => f.data_size,
            None => None,
        };
        let mut r: Vec<AccountInfo> = Vec::new();
        let mut i: usize = 0;
        while i < self.accounts.len()
            invariant
                i <= self.accounts@.len(),
                size == (match filters { Some(f) => f.data_size, None => None }),
                ({
                    let want = owned_by(store_view(self.accounts@).take(i as int), program_id@, size);
                    &&& r@.len() == want.len()
                    &&& forall|k: int| 0 <= k < want.len() ==> (#[trigger] r@[k]).pubkey@ == want[k].0 && r@[k].account@ == want[k].1
                }),
            decreases self.accounts@.len() - i,
        {
            let ghost s = store_view(self.accounts@);
            proof {
                assert(s.take(i as int + 1).drop_last() =~= s.take(i as int));
                assert(s.take(i as int + 1).last() == s[i as int]);
            }
            let account = &self.accounts[i].1;
            let size_ok = match size {
                Some(n) => account.data.len() == n,
                None => true,
            };
            if account.owner.same(program_id) && size_ok {
                r.push(AccountInfo { pubkey: self.accounts[i].0, account: account.copy() });
            }
            i = i + 1;
        }
        assert(store_view(self.accounts@).take(i as int) =~= store_view(self.accounts@));
        r
    }

    /// The signatures of the transactions that touch the address, newest first, at most
    /// the options' limit.
    pub fn get_signatures_for_address(&self, address: &Pubkey, options: Option<SignaturesForAddressOptions>) -> (r: Vec<SignatureInfo>)
        ensures
            ({
                let all = signatures_touching(self.transactions@, address@);
                let n = match options {
                    Some(o) => match o.limit {
                        Some(l) => if (l as int) < all.len() { l as int } else { all.len() as int },
                        None => all.len() as int,
                    },
                    None => all.len() as int,
                };
                &&& r@.len() == n
                &&& forall|k: int| 0 <= k < n ==> (#[trigger] r@[k]).signature@ == all[k].0 && r@[k].slot == all[k].1
                    && r@[k].block_time is None
            }),
    {
        let mut r: Vec<SignatureInfo> = Vec::new();
        let mut i: usize = self.transactions.len();
        proof {
            assert(self.transactions@.take(i as int) =~= self.transactions@);
            let done = signatures_touching(self.transactions@, address@);
            assert(done.take(0) + done =~= done);
        }
        while i > 0
            invariant
                i <= self.transactions@.len(),
                ({
                    let done = signatures_touching(self.transactions@, address@);
                    let left = signatures_touching(self.transactions@.take(i as int), address@);
                    &&& r@.len() + left.len() == done.len()
                    &&& forall|k: int| 0 <= k < r@.len() ==> (#[trigger] r@[k]).signature@ == done[k].0 && r@[k].slot == done[k].1
                        && r@[k].block_time is None
                    &&& done == done.take(r@.len() as int) + left
                }),
            decreases i,
        {
            let ghost t = self.transactions@.take(i as int);
            proof {
                assert(self.transactions@.take(i as int - 1) =~= t.drop_last());
                assert(t.last() == self.transactions@[i as int - 1]);
            }
            i = i - 1;
            let tx = &self.transactions[i];
            if touches_address(tx, address) && tx.signatures.len() > 0 {
                let ghost before = r@;
                r.push(SignatureInfo { signature: tx.signatures[0], slot: tx.slot, block_time: None });
                proof {
                    let done = signatures_touching(self.transactions@, address@);
                    let left = signatures_touching(self.transactions@.take(i as int), address@);
                    assert(done.take(r@.len() as int) =~= done.take(before.len() as int).push(done[before.len() as int]));
                    assert(done == done.take(r@.len() as int) + left);
                }
            }
        }
        assert(self.transactions@.take(0) =~= Seq::<StoredTransaction>::empty());
        let limit = match options {
            Some(o) => o.limit,
            None => None,
        };
        match limit {
            Some(l) => {
                if l < r.len() {
                    r.truncate(l);
                }
            },
            None => {},
        }
        r
    }

    /// The first confirmed transaction whose first signature is the given one.
    pub fn get_transaction(&self, signature: &Signature) -> (r: Option<ParsedTransaction>)
        ensures
            ({
                let i = transaction_index(self.transactions@, signature@);
                match r {
                    None => i < 0,
                    Some(p) => i >= 0 && {
                        let tx = self.transactions@[i];
                        &&& p.slot == tx.slot
                        &&& p.block_time is None
                        &&& p.signatures@ == tx.signatures@
                        &&& p.message.account_keys@ == tx.account_keys@
                        &&& p.message.instructions@.len() == tx.instructions@.len()
                        &&& forall|k: int| 0 <= k < tx.instructions@.len() ==> {
                            &&& (#[trigger] p.message.instructions@[k]).program_id_index == tx.instructions@[k].program_id_index
                            &&& p.message.instructions@[k].accounts@ == tx.instructions@[k].accounts@
                            &&& p.message.instructions@[k].data@ == tx.instructions@[k].data@
                        }
                    },
                }
            }),
    {
        let mut i: usize = 0;
        while i < self.transactions.len()
            invariant
                i <= self.transactions@.len(),
                transaction_index(self.transactions@.take(i as int), signature@) == -1,
            decreases self.transactions@.len() - i,
        {
            proof {
                let t = self.transactions@.take(i as int + 1);
                assert(t.drop_last() =~= self.transactions@.take(i as int));
            }
            let tx = &self.transactions[i];
            if tx.signatures.len() > 0 && tx.signatures[0].same(signature) {
                proof {
                    lemma_transaction_index_prefix(self.transactions@, signature@, i as int + 1);
                }
                let mut instructions: Vec<InstructionInfo> = Vec::new();
                let mut k: usize = 0;
                while k < tx.instructions.len()
                    invariant
                        k <= tx.instructions@.len(),
                        instructions@.len() == k,
                        forall|j: int| 0 <= j < k ==> {
                            &&& (#[trigger] instructions@[j]).program_id_index == tx.instructions@[j].program_id_index
                            &&& instructions@[j].accounts@ == tx.instructions@[j].accounts@
                            &&& instructions@[j].data@ == tx.instructions@[j].data@
                        },
                    decreases tx.instructions@.len() - k,
                {
                    let c = &tx.instructions[k];
                    let accounts = c.accounts.clone();
                    let data = c.data.clone();
                    assert(accounts@ =~= c.accounts@);
                    assert(data@ =~= c.data@);
                    instructions.push(InstructionInfo { program_id_index: c.program_id_index, accounts, data });
                    k = k + 1;
                }
                let signatures = tx.signatures.clone();
                let account_keys = tx.account_keys.clone();
                assert(signatures@ =~= tx.signatures@);
                assert(account_keys@ =~= tx.account_keys@);
                return Some(ParsedTransaction {
                    slot: tx.slot,
                    block_time: None,
                    signatures,
                    message: TransactionMessage { account_keys, instructions },
                });
            }
            i = i + 1;
        }
        assert(self.transactions@.take(i as int) =~= self.transactions@);
        None
    }

    /// Gives the address `lamports` more, creating a system account for it when missing.
    pub fn airdrop(&mut self, pubkey: &Pubkey, lamports: u64)
        requires
            ({
                let s = store_view(old(self).accounts@);
                index_of(s, pubkey@) >= 0 ==> s[index_of(s, pubkey@)].1.lamports + lamports <= u64::MAX
            }),
        ensures
            ({
                let s = store_view(old(self).accounts@);
                let t = store_view(final(self).accounts@);
                let i = index_of(s, pubkey@);
                &&& i >= 0 ==> t == s.update(i, (s[i].0, with_lamports(s[i].1, (s[i].1.lamports + lamports) as u64)))
                &&& i < 0 ==> t == s.push((pubkey@, fresh_view(lamports)))
                &&& old(self).well_formed() ==> final(self).well_formed()
                &&& final(self).programs@ == old(self).programs@
                &&& final(self).transactions@ == old(self).transactions@
                &&& final(self).next_slot == old(self).next_slot
            }),
    {
        let ghost s = store_view(self.accounts@);
        match position(&self.accounts, pubkey) {
            Some(i) => {
                let key = self.accounts[i].0;
                let acc = self.accounts[i].1.copy();
                let credited = Account { lamports: acc.lamports + lamports, ..acc };
                self.accounts.set(i, (key, credited));
                assert(store_view(self.accounts@) =~= s.update(i as int, (s[i as int].0, with_lamports(s[i as int].1, (s[i as int].1.lamports + lamports) as u64))));
                proof {
                    if distinct_keys(s) {
                        lemma_distinct_update(s, i as int, (s[i as int].0, with_lamports(s[i as int].1, (s[i as int].1.lamports + lamports) as u64)));
                    }
                }
            },
            None => {
                let fresh = Account { lamports, data: Vec::new(), owner: system_program_id(), executable: false, rent_epoch: 0 };
                self.accounts.push((*pubkey, fresh));
                assert(fresh@.data =~= seq![]);
                assert(store_view(self.accounts@) =~= s.push((pubkey@, fresh_view(lamports))));
                proof {
                    if distinct_keys(s) {
                        lemma_distinct_push(s, (pubkey@, fresh_view(lamports)));
                    }
                }
            },
        }
    }

    /// Loads a program: keeps its code (replacing any kept for that address) and puts its
    /// program account at its address (replacing any account there).
    pub fn add_program(&mut self, program_id: &Pubkey, bytes: Vec<u8>, program_account: Account)
        ensures
            ({
                let s = store_view(old(self).accounts@);
                let t = store_view(final(self).accounts@);
                let i = index_of(s, program_id@);
                &&& i >= 0 ==> t == s.update(i, (program_id@, program_account@))
                &&& i < 0 ==> t == s.push((program_id@, program_account@))
                &&& old(self).well_formed() ==> final(self).well_formed()
                &&& programs_view(final(self).programs@) == programs_after_load(programs_view(old(self).programs@), program_id@, bytes@)
                &&& final(self).transactions@ == old(self).transactions@
                &&& final(self).next_slot == old(self).next_slot
            }),
    {
        let ghost pv = programs_view(self.programs@);
        let mut found = false;
        let mut k: usize = 0;
        while k < self.programs.len()
            invariant_except_break
                k <= self.programs@.len(),
                !found,
                pv == programs_view(self.programs@),
                forall|j: int| 0 <= j < k ==> (#[trigger] pv[j]).0 != program_id@,
            ensures
                k <= self.programs@.len(),
                pv == programs_view(self.programs@),
                forall|j: int| 0 <= j < k ==> (#[trigger] pv[j]).0 != program_id@,
                found ==> k < self.programs@.len() && pv[k as int].0 == program_id@,
                !found ==> k == self.programs@.len(),
            decreases self.programs@.len() - k,
        {
            if self.programs[k].0.same(program_id) {
                found = true;
                break;
            }
            k = k + 1;
        }
        let ghost code = bytes@;
        proof { lemma_programs_after_load(pv, program_id@, code, k as int); }
        if found {
            self.programs.set(k, (*program_id, bytes));
            assert(programs_view(self.programs@) =~= pv.update(k as int, (program_id@, code)));
        } else {
            self.programs.push((*program_id, bytes));
            assert(programs_view(self.programs@) =~= pv.push((program_id@, code)));
        }
        let ghost s = store_view(self.accounts@);
        match position(&self.accounts, program_id) {
            Some(i) => {
                self.accounts.set(i, (*program_id, program_account));
                assert(store_view(self.accounts@) =~= s.update(i as int, (program_id@, program_account@)));
                proof {
                    if distinct_keys(s) {
                        lemma_index_of(s, program_id@);
                        lemma_distinct_update(s, i as int, (program_id@, program_account@));
                    }
                }
            },
            None => {
                self.accounts.push((*program_id, program_account));
                assert(store_view(self.accounts@) =~= s.push((program_id@, program_account@)));
                proof {
                    if distinct_keys(s) {
                        lemma_distinct_push(s, (program_id@, program_account@));
                    }
                }
            },
        }
    }

    /// Confirms a transaction whose programs have run: the accounts become those given,
    /// the transaction is kept at the next slot, and the slot advances. Returns the
    /// transaction's first signature (all zeros when it has none).
    pub fn record_transaction(&mut self, accounts: Vec<(Pubkey, Account)>, signatures: Vec<Signature>, header: MessageHeader,
        account_keys: Vec<Pubkey>, instructions: Vec<CompiledInstruction>) -> (r: Signature)
        requires
            old(self).next_slot < u64::MAX,
        ensures
            final(self).accounts@ == accounts@,
            final(self).programs@ == old(self).programs@,
            final(self).transactions@.len() == old(self).transactions@.len() + 1,
            final(self).transactions@.drop_last() == old(self).transactions@,
            final(self).transactions@.last().slot == old(self).next_slot,
            final(self).transactions@.last().signatures@ == signatures@,
            final(self).transactions@.last().account_keys@ == account_keys@,
            final(self).transactions@.last().header == header,
            final(self).transactions@.last().instructions@ == instructions@,
            distinct_keys(store_view(accounts@)) && slots_below(old(self).transactions@, old(self).next_slot)
                ==> final(self).well_formed(),
            final(self).next_slot == old(self).next_slot + 1,
            r@ == (if signatures@.len() > 0 { signatures@[0]@ } else { Seq::new(64, |i: int| 0u8) }),
    {
        let first = if signatures.len() > 0 {
            signatures[0]
        } else {
            let z = Signature([0u8; 64]);
            assert(z@ =~= Seq::new(64, |i: int| 0u8));
            z
        };
        let slot = self.next_slot;
        self.accounts = accounts;
        let ghost before = self.transactions@;
        self.transactions.push(StoredTransaction { slot, signatures, header, account_keys, instructions });
        assert(self.transactions@.drop_last() =~= old(self).transactions@);
        self.next_slot = slot + 1;
        proof {
            if slots_below(before, slot) {
                signature_listing_is_newest_first(before, slot, seq![]);
                assert(self.transactions@ == before.push(self.transactions@.last()));
            }
        }
        first
    }
}

impl MolluskState {
    /// Sends a transaction whose instructions are system transfers: the transfers run in
    /// order on the chain's accounts; when all succeed the transaction is recorded at the
    /// next slot (see `record_transaction`) and its first signature comes back, and when
    /// one fails nothing changes and its error comes back; a transaction without
    /// instructions is refused and changes nothing. Lamports are conserved, the
    /// transaction is listed first for each address it names, and the blockhash moves on.
    pub fn send_system_transaction(&mut self, instructions: &Vec<Instruction>, signatures: Vec<Signature>,
        header: MessageHeader, account_keys: Vec<Pubkey>, compiled: Vec<CompiledInstruction>) -> (r: Result<Signature, Error>)
        requires
            !run_overflows(store_view(old(self).accounts@), instruction_views(instructions@)),
            old(self).next_slot < u64::MAX,
        ensures
            old(self).well_formed() ==> final(self).well_formed(),
            instructions@.len() == 0 ==> {
                &&& r matches Err(e) && super::rpc::backend_error(e, "No instructions in transaction"@)
                &&& final(self).accounts@ == old(self).accounts@
                &&& final(self).programs@ == old(self).programs@
                &&& final(self).transactions@ == old(self).transactions@
                &&& final(self).next_slot == old(self).next_slot
            },
            instructions@.len() > 0 ==> match run_transfers(store_view(old(self).accounts@), instruction_views(instructions@)) {
                Err(m) => {
                    &&& r matches Err(e) && super::rpc::backend_error(e, m)
                    &&& final(self).accounts@ == old(self).accounts@
                    &&& final(self).programs@ == old(self).programs@
                    &&& final(self).transactions@ == old(self).transactions@
                    &&& final(self).next_slot == old(self).next_slot
                },
                Ok(t) => {
                    let n = old(self).next_slot;
                    let tx = final(self).transactions@.last();
                    let before = store_view(old(self).accounts@);
                    &&& r matches Ok(sig) && sig@ == (if signatures@.len() > 0 { signatures@[0]@ } else { Seq::new(64, |i: int| 0u8) })
                    &&& store_view(final(self).accounts@) == t
                    &&& distinct_keys(before) ==> total_lamports(t) == total_lamports(before) && distinct_keys(t)
                    &&& final(self).programs@ == old(self).programs@
                    &&& final(self).transactions@.len() == old(self).transactions@.len() + 1
                    &&& final(self).transactions@.drop_last() == old(self).transactions@
                    &&& tx.slot == n
                    &&& tx.signatures@ == signatures@
                    &&& tx.header == header
                    &&& tx.account_keys@ == account_keys@
                    &&& tx.instructions@ == compiled@
                    &&& final(self).next_slot == n + 1
                    &&& forall|a: Seq<u8>| #[trigger] signatures_touching(final(self).transactions@, a)
                        == if touches(tx, a) && signatures@.len() > 0 {
                            seq![(signatures@[0]@, n)] + signatures_touching(old(self).transactions@, a)
                        } else {
                            signatures_touching(old(self).transactions@, a)
                        }
                },
            },
    {
        if instructions.len() == 0 {
            return Err(backend("No instructions in transaction"));
        }
        proof {
            if distinct_keys(store_view(self.accounts@)) {
                run_conserves_lamports(store_view(self.accounts@), instruction_views(instructions@));
            }
        }
        match run_system_transfers(&self.accounts, instructions) {
            Err(e) => Err(e),
            Ok(accounts) => {
                let r = self.record_transaction(accounts, signatures, header, account_keys, compiled);
                proof {
                    assert forall|a: Seq<u8>| #[trigger] signatures_touching(self.transactions@, a)
                        == if touches(self.transactions@.last(), a) && self.transactions@.last().signatures@.len() > 0 {
                            seq![(self.transactions@.last().signatures@[0]@, self.transactions@.last().slot)]
                                + signatures_touching(self.transactions@.drop_last(), a)
                        } else {
                            signatures_touching(self.transactions@.drop_last(), a)
                        } by {}
                }
                Ok(r)
            },
        }
    }
}

/// In every state the chain reaches (each is well-formed: `new` starts well-formed and
/// `airdrop`, `add_program`, `record_transaction` on distinct accounts and
/// `send_system_transaction` keep it), no address holds two accounts, and a run of system
/// transfers that succeeds creates and destroys no lamports and leaves the addresses
/// distinct.
pub proof fn reachable_states_conserve_lamports(chain: MolluskState, ixs: Seq<InstructionView>)
    requires
        chain.well_formed(),
        !run_overflows(store_view(chain.accounts@), ixs),
    ensures
        distinct_keys(store_view(chain.accounts@)),
        run_transfers(store_view(chain.accounts@), ixs) matches Ok(t) ==>
            total_lamports(t) == total_lamports(store_view(chain.accounts@)) && distinct_keys(t),
{
    run_conserves_lamports(store_view(chain.accounts@), ixs);
}

/// The confirmed transactions have strictly increasing slots, all below `next`.
pub open spec fn slots_below(txs: Seq<StoredTransaction>, next: u64) -> bool {
    &&& forall|i: int, j: int| 0 <= i < j < txs.len() ==> txs[i].slot < txs[j].slot
    &&& forall|i: int| 0 <= i < txs.len() ==> (#[trigger] txs[i]).slot < next
}

/// The entry is the first signature and slot of a confirmed transaction naming the address.
pub open spec fn listed_from(txs: Seq<StoredTransaction>, address: Seq<u8>, e: (Seq<u8>, u64)) -> bool {
    exists|i: int| 0 <= i < txs.len() && #[trigger] touches(txs[i], address) && txs[i].signatures@.len() > 0
        && txs[i].signatures@[0]@ == e.0 && txs[i].slot == e.1
}

/// The signature listing of an address stays newest first over any run of confirmed
/// transactions: when the slots increase (as recording at the next slot keeps them),
/// each listed entry is the first signature and slot of a transaction naming the
/// address, and the listed slots strictly decrease. Recording one more transaction at
/// `next` keeps the slots increasing and below `next + 1`.
pub proof fn signature_listing_is_newest_first(txs: Seq<StoredTransaction>, next: u64, address: Seq<u8>)
    requires
        slots_below(txs, next),
    ensures
        ({
            let list = signatures_touching(txs, address);
            &&& forall|k: int| 0 <= k < list.len() ==> listed_from(txs, address, #[trigger] list[k])
            &&& forall|k: int, l: int| 0 <= k < l < list.len() ==> list[k].1 > list[l].1
            &&& forall|k: int| 0 <= k < list.len() ==> list[k].1 < next
        }),
        forall|tx: StoredTransaction| tx.slot == next && next < u64::MAX ==> slots_below(#[trigger] txs.push(tx), (next + 1) as u64),
    decreases txs.len(),
{
    let list = signatures_touching(txs, address);
    if txs.len() > 0 {
        let front = txs.drop_last();
        let newest = txs.last();
        assert(slots_below(front, newest.slot)) by {
            assert forall|i: int| 0 <= i < front.len() implies (#[trigger] front[i]).slot < newest.slot by {
                assert(front[i] == txs[i]);
            }
            assert forall|i: int, j: int| 0 <= i < j < front.len() implies front[i].slot < front[j].slot by {
                assert(front[i] == txs[i] && front[j] == txs[j]);
            }
        }
        signature_listing_is_newest_first(front, newest.slot, address);
        let rest = signatures_touching(front, address);
        assert forall|k: int| 0 <= k < rest.len() implies listed_from(txs, address, #[trigger] rest[k]) by {
            assert(listed_from(front, address, rest[k]));
            let i = choose|i: int| 0 <= i < front.len()
                && #[trigger] touches(front[i], address) && front[i].signatures@.len() > 0
                && front[i].signatures@[0]@ == rest[k].0 && front[i].slot == rest[k].1;
            assert(front[i] == txs[i]);
        }
        assert forall|k: int| 0 <= k < rest.len() implies (#[trigger] rest[k]).1 < newest.slot by {
            let i = choose|i: int| 0 <= i < front.len()
                && #[trigger] touches(front[i], address) && front[i].signatures@.len() > 0
                && front[i].signatures@[0]@ == rest[k].0 && front[i].slot == rest[k].1;
            assert(front[i] == txs[i]);
        }
        if touches(newest, address) && newest.signatures@.len() > 0 {
            let head = seq![(newest.signatures@[0]@, newest.slot)];
            assert(list == head + rest);
            assert forall|k: int| 0 <= k < list.len() implies listed_from(txs, address, #[trigger] list[k]) by {
                if k == 0 {
                    assert(touches(txs[txs.len() - 1], address));
                } else {
                    assert(list[k] == rest[k - 1]);
                }
            }
            assert forall|k: int, l: int| 0 <= k < l < list.len() implies list[k].1 > list[l].1 by {
                assert(list[l] == rest[l - 1]);
                if k > 0 {
                    assert(list[k] == rest[k - 1]);
                }
            }
        }
    }
    assert forall|tx: StoredTransaction| tx.slot == next && next < u64::MAX implies slots_below(#[trigger] txs.push(tx), (next + 1) as u64) by {
        let t = txs.push(tx);
        assert forall|i: int, j: int| 0 <= i < j < t.len() implies t[i].slot < t[j].slot by {
            assert(t[i] == txs[i]);
            if j < txs.len() {
                assert(t[j] == txs[j]);
            }
        }
        assert forall|i: int| 0 <= i < t.len() implies (#[trigger] t[i]).slot < next + 1 by {
            if i < txs.len() {
                assert(t[i] == txs[i]);
            }
        }
    }
}

proof fn lemma_transaction_index_prefix(txs: Seq<StoredTransaction>, signature: Seq<u8>, n: int)
    requires
        0 < n <= txs.len(),
        transaction_index(txs.take(n - 1), signature) == -1,
        txs[n - 1].signatures@.len() > 0,
        txs[n - 1].signatures@[0]@ == signature,
    ensures
        transaction_index(txs, signature) == n - 1,
    decreases txs.len(),
{
    if txs.len() == n {
        assert(txs.drop_last() =~= txs.take(n - 1));
    } else {
        assert(txs.drop_last().take(n - 1) =~= txs.take(n - 1));
        lemma_transaction_index_prefix(txs.drop_last(), signature, n);
    }
}

} // verus!
