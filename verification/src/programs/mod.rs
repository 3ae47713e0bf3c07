//! The decisions of the three on-chain programs, taken as functions from the accounts
//! an instruction is given and its data to what the instruction does.
//!
//! An instruction's work interleaves decisions with calls into the chain's runtime
//! (creating accounts through the system program). Here an [`Invocation`] lists those
//! calls in the order the program makes them and, after them, the instruction's
//! result: the accounts it writes and their new bytes, or the error it fails with.
//! Whoever runs an invocation performs its creations in order, stops with the first
//! one that fails, and otherwise applies its result; on any failure the chain keeps
//! none of the instruction's effects.
pub mod registry;
pub mod signals;
pub mod token;

use vstd::prelude::*;
use crate::keys::Pubkey;
use crate::tx::{Instruction, InstructionView};

verus! {

/// The errors the programs return.
#[derive(Clone, Copy, Debug, PartialEq, Eq, Structural)]
pub enum ProgramError {
    InvalidArgument,
    InvalidInstructionData,
    InvalidAccountData,
    InsufficientFunds,
    NotEnoughAccountKeys,
    AccountAlreadyInitialized,
    MissingRequiredSignature,
    InvalidSeeds,
    InvalidAccountOwner,
    /// No bump seed gives an address off the curve; the programs abort there.
    NoViableBump,
}

/// An account as an instruction sees it: its address, whether it signed, and its data.
#[derive(Clone, Debug)]
pub struct AccountInput {
    pub key: Pubkey,
    pub is_signer: bool,
    pub data: Vec<u8>,
}

/// A system-program account creation that a program asks for, signed with `seeds`.
#[derive(Clone, Debug)]
pub struct CreateAccount {
    /// Index of the paying account among the instruction's accounts.
    pub from: usize,
    /// Index of the account to create.
    pub to: usize,
    pub space: u64,
    pub owner: Pubkey,
    /// The signer seeds, the bump last.
    pub seeds: Vec<Vec<u8>>,
}

/// New bytes for one of the instruction's accounts.
#[derive(Clone, Debug)]
pub struct AccountWrite {
    pub index: usize,
    pub data: Vec<u8>,
}

/// An instruction a program passes on to another program, with the indices (among its
/// own accounts) of the accounts it hands over.
#[derive(Clone, Debug)]
pub struct CrossInvoke {
    pub instruction: Instruction,
    pub accounts: Vec<usize>,
}

/// A call into the runtime.
#[derive(Clone, Debug)]
pub enum Call {
    Create(CreateAccount),
    Invoke(CrossInvoke),
}

/// What an instruction does; see the module documentation.
#[derive(Debug)]
pub struct Invocation {
    pub calls: Vec<Call>,
    pub result: Result<Vec<AccountWrite>, ProgramError>,
}

/// The mathematical content of an account creation.
pub struct CreateView {
    pub from: int,
    pub to: int,
    pub space: nat,
    pub owner: Seq<u8>,
    pub seeds: Seq<Seq<u8>>,
}

/// The mathematical content of a call.
pub enum CallView {
    Create(CreateView),
    Invoke(InstructionView, Seq<int>),
}

/// The mathematical content of an invocation.
pub struct InvocationView {
    pub calls: Seq<CallView>,
    pub result: Result<Seq<(int, Seq<u8>)>, ProgramError>,
}

impl View for CreateAccount {
    type V = CreateView;

    open spec fn view(&self) -> CreateView {
        CreateView {
            from: self.from as int,
            to: self.to as int,
            space: self.space as nat,
            owner: self.owner@,
            seeds: crate::keys::seeds_view(self.seeds@),
        }
    }
}

impl View for Call {
    type V = CallView;

    open spec fn view(&self) -> CallView {
        match self {
            Call::Create(c) => CallView::Create(c@),
            Call::Invoke(i) => CallView::Invoke(i.instruction@, i.accounts@.map_values(|k: usize| k as int)),
        }
    }
}

impl View for Invocation {
    type V = InvocationView;

    open spec fn view(&self) -> InvocationView {
        InvocationView {
            calls: self.calls@.map_values(|c: Call| c@),
            result: match self.result {
                Ok(ws) => Ok(ws@.map_values(|w: AccountWrite| (w.index as int, w.data@))),
                Err(e) => Err(e),
            },
        }
    }
}

/// An invocation that fails before asking for anything.
pub open spec fn failed(e: ProgramError) -> InvocationView {
    InvocationView { calls: seq![], result: Err(e) }
}

/// Builds a failed invocation.
pub fn fail(e: ProgramError) -> (r: Invocation)
    ensures
        r@ == failed(e),
{
    let r = Invocation { calls: Vec::new(), result: Err(e) };
    assert(r@.calls =~= seq![]);
    r
}

/// The view of an account list.
pub open spec fn keys_of(accounts: Seq<AccountInput>) -> Seq<Seq<u8>> {
    accounts.map_values(|a: AccountInput| a.key@)
}

/// A zero-filled buffer of `n` bytes (what a freshly created account holds).
pub open spec fn zeros(n: nat) -> Seq<u8> {
    Seq::new(n, |i: int| 0u8)
}

/// `n` zero bytes.
pub fn zero_bytes(n: usize) -> (r: Vec<u8>)
    ensures
        r@ == zeros(n as nat),
{
    let mut r: Vec<u8> = Vec::with_capacity(n);
    let mut i: usize = 0;
    while i < n
        invariant
            i <= n,
            r@ == zeros(i as nat),
        decreases n - i,
    {
        r.push(0u8);
        i = i + 1;
        assert(r@ =~= zeros(i as nat));
    }
    r
}

/// A copy of a byte slice.
pub fn to_vec(s: &[u8]) -> (v: Vec<u8>)
    ensures
        v@ == s@,
{
    let mut v: Vec<u8> = Vec::new();
    crate::codec::push_all(&mut v, s);
    v
}

/// The bytes after the first `from` ones, as `&data[from..]` gives them.
pub(crate) fn tail(data: &[u8], from: usize) -> (r: &[u8])
    requires
        from <= data@.len(),
    ensures
        r@ == data@.subrange(from as int, data@.len() as int),
{
    vstd::slice::slice_subrange(data, from, data.len())
}

} // verus!
