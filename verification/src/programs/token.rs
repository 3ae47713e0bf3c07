//! The token program: a fixed-supply token with an authority that may mint, balances
//! held in one account per owner, transfers between owners and burns.
use vstd::prelude::*;
use vstd::bytes::{spec_u64_from_le_bytes, spec_u64_to_le_bytes};
use crate::codec::{push_all, push_u64_le, read_array32, read_u64_le};
use crate::keys::{find_program_address, program_address, Pubkey};
use crate::protocol::{balance_seed, balance_seed_bytes, config_seed, config_seed_bytes};
use super::{
    fail, failed, tail, to_vec, zero_bytes, zeros, AccountInput, AccountWrite, Call, CallView, CreateAccount,
    CreateView, Invocation, InvocationView, ProgramError,
};

verus! {

// ---------------------------------------------------------------- instruction data

#[derive(Clone, Copy, Debug, PartialEq, Eq, Structural)]
pub enum TokenInstruction {
    Initialize,
    Transfer,
    Burn,
    Mint,
}

pub struct InitializeParams {
    pub total_supply: u64,
    pub decimals: u8,
}

pub struct TransferParams {
    pub amount: u64,
}

pub struct BurnParams {
    pub amount: u64,
}

pub struct MintParams {
    pub amount: u64,
}

/// The instruction a tag byte selects.
pub open spec fn instruction_of_tag(tag: u8) -> Option<TokenInstruction> {
    if tag == 0 {
        Some(TokenInstruction::Initialize)
    } else if tag == 1 {
        Some(TokenInstruction::Transfer)
    } else if tag == 2 {
        Some(TokenInstruction::Burn)
    } else if tag == 3 {
        Some(TokenInstruction::Mint)
    } else {
        None
    }
}

/// What `TokenInstruction::unpack` gives: the instruction of the first byte and the rest.
pub open spec fn unpack_spec(data: Seq<u8>) -> Result<(TokenInstruction, Seq<u8>), ProgramError> {
    if data.len() == 0 {
        Err(ProgramError::InvalidInstructionData)
    } else {
        match instruction_of_tag(data[0]) {
            Some(ix) => Ok((ix, data.subrange(1, data.len() as int))),
            None => Err(ProgramError::InvalidInstructionData),
        }
    }
}

/// What the amount parameters of transfer, burn and mint unpack to.
pub open spec fn amount_spec(data: Seq<u8>) -> Result<u64, ProgramError> {
    if data.len() < 8 {
        Err(ProgramError::InvalidInstructionData)
    } else {
        Ok(spec_u64_from_le_bytes(data.subrange(0, 8)))
    }
}

/// What the initialize parameters unpack to: (supply, decimals).
pub open spec fn initialize_params_spec(data: Seq<u8>) -> Result<(u64, u8), ProgramError> {
    if data.len() < 9 {
        Err(ProgramError::InvalidInstructionData)
    } else {
        Ok((spec_u64_from_le_bytes(data.subrange(0, 8)), data[8]))
    }
}

impl TokenInstruction {
    pub fn unpack(data: &[u8]) -> (r: Result<(TokenInstruction, &[u8]), ProgramError>)
        ensures
            match r {
                Ok((ix, rest)) => unpack_spec(data@) == Ok::<(TokenInstruction, Seq<u8>), ProgramError>((ix, rest@)),
                Err(e) => unpack_spec(data@) == Err::<(TokenInstruction, Seq<u8>), ProgramError>(e),
            },
    {
        if data.len() == 0 {
            return Err(ProgramError::InvalidInstructionData);
        }
        let ix = match data[0] {
            0 => TokenInstruction::Initialize,
            1 => TokenInstruction::Transfer,
            2 => TokenInstruction::Burn,
            3 => TokenInstruction::Mint,
            _ => return Err(ProgramError::InvalidInstructionData),
        };
        Ok((ix, tail(data, 1)))
    }
}

impl InitializeParams {
    pub fn unpack(data: &[u8]) -> (r: Result<InitializeParams, ProgramError>)
        ensures
            match r {
                Ok(p) => initialize_params_spec(data@) == Ok::<(u64, u8), ProgramError>((p.total_supply, p.decimals)),
                Err(e) => initialize_params_spec(data@) == Err::<(u64, u8), ProgramError>(e),
            },
    {
        if data.len() < 9 {
            return Err(ProgramError::InvalidInstructionData);
        }
        Ok(InitializeParams { total_supply: read_u64_le(data, 0), decimals: data[8] })
    }
}

fn unpack_amount(data: &[u8]) -> (r: Result<u64, ProgramError>)
    ensures
        r == amount_spec(data@),
{
    if data.len() < 8 {
        return Err(ProgramError::InvalidInstructionData);
    }
    Ok(read_u64_le(data, 0))
}

impl TransferParams {
    pub fn unpack(data: &[u8]) -> (r: Result<TransferParams, ProgramError>)
        ensures
            match r {
                Ok(p) => amount_spec(data@) == Ok::<u64, ProgramError>(p.amount),
                Err(e) => amount_spec(data@) == Err::<u64, ProgramError>(e),
            },
    {
        match unpack_amount(data) {
            Ok(amount) => Ok(TransferParams { amount }),
            Err(e) => Err(e),
        }
    }
}

impl BurnParams {
    pub fn unpack(data: &[u8]) -> (r: Result<BurnParams, ProgramError>)
        ensures
            match r {
                Ok(p) => amount_spec(data@) == Ok::<u64, ProgramError>(p.amount),
                Err(e) => amount_spec(data@) == Err::<u64, ProgramError>(e),
            },
    {
        match unpack_amount(data) {
            Ok(amount) => Ok(BurnParams { amount }),
            Err(e) => Err(e),
        }
    }
}

impl MintParams {
    pub fn unpack(data: &[u8]) -> (r: Result<MintParams, ProgramError>)
        ensures
            match r {
                Ok(p) => amount_spec(data@) == Ok::<u64, ProgramError>(p.amount),
                Err(e) => amount_spec(data@) == Err::<u64, ProgramError>(e),
            },
    {
        match unpack_amount(data) {
            Ok(amount) => Ok(MintParams { amount }),
            Err(e) => Err(e),
        }
    }
}

} // verus!

verus! {

// ---------------------------------------------------------------- account layouts

/// The token's configuration account (48 bytes): authority at 0..32, supply at 32..40,
/// decimals at 40, bump at 41, padding after.
pub struct Config {
    pub authority: Pubkey,
    pub total_supply: u64,
    pub decimals: u8,
    pub bump: u8,
}

/// A balance account (48 bytes): owner at 0..32, amount at 32..40, bump at 40, padding after.
pub struct Balance {
    pub owner: Pubkey,
    pub amount: u64,
    pub bump: u8,
}

pub open spec fn config_len() -> nat {
    48
}

/// `old` with the configuration fields overwritten (the padding keeps its bytes).
pub open spec fn config_bytes(old: Seq<u8>, authority: Seq<u8>, supply: u64, decimals: u8, bump: u8) -> Seq<u8> {
    authority + spec_u64_to_le_bytes(supply) + seq![decimals, bump] + old.subrange(42, 48)
}

/// `old` with the balance fields overwritten (the padding keeps its bytes).
pub open spec fn balance_bytes(old: Seq<u8>, owner: Seq<u8>, amount: u64, bump: u8) -> Seq<u8> {
    owner + spec_u64_to_le_bytes(amount) + seq![bump] + old.subrange(41, 48)
}

pub open spec fn field_key(data: Seq<u8>) -> Seq<u8> {
    data.subrange(0, 32)
}

pub open spec fn field_u64(data: Seq<u8>) -> u64 {
    spec_u64_from_le_bytes(data.subrange(32, 40))
}

impl Config {
    pub const LEN: usize = 48;

    /// Reads the configuration from an account's data, which must be exactly `LEN` bytes.
    pub fn from_account_data(data: &[u8]) -> (r: Result<Config, ProgramError>)
        ensures
            match r {
                Ok(c) => data@.len() == Self::LEN && c.authority@ == field_key(data@)
                    && c.total_supply == field_u64(data@) && c.decimals == data@[40]
                    && c.bump == data@[41],
                Err(e) => data@.len() != Self::LEN && e == ProgramError::InvalidAccountData,
            },
    {
        if data.len() != Self::LEN {
            return Err(ProgramError::InvalidAccountData);
        }
        Ok(Config {
            authority: Pubkey(read_array32(data, 0)),
            total_supply: read_u64_le(data, 32),
            decimals: data[40],
            bump: data[41],
        })
    }

    /// `old` with this configuration written over its fields.
    pub fn write_over(&self, old: &[u8]) -> (r: Vec<u8>)
        requires
            old@.len() == Self::LEN,
        ensures
            r@ == config_bytes(old@, self.authority@, self.total_supply, self.decimals, self.bump),
    {
        let mut r: Vec<u8> = Vec::with_capacity(48);
        push_all(&mut r, self.authority.0.as_slice());
        push_u64_le(&mut r, self.total_supply);
        r.push(self.decimals);
        r.push(self.bump);
        let mut i: usize = 42;
        while i < 48
            invariant
                42 <= i <= 48,
                old@.len() == 48,
                r@ == self.authority@ + spec_u64_to_le_bytes(self.total_supply)
                    + seq![self.decimals, self.bump] + old@.subrange(42, i as int),
            decreases 48 - i,
        {
            r.push(old[i]);
            i = i + 1;
            assert(r@ =~= self.authority@ + spec_u64_to_le_bytes(self.total_supply)
                + seq![self.decimals, self.bump] + old@.subrange(42, i as int));
        }
        r
    }
}

impl Balance {
    pub const LEN: usize = 48;

    /// Reads a balance from an account's data, which must be exactly `LEN` bytes.
    pub fn from_account_data(data: &[u8]) -> (r: Result<Balance, ProgramError>)
        ensures
            match r {
                Ok(b) => data@.len() == Self::LEN && b.owner@ == field_key(data@)
                    && b.amount == field_u64(data@) && b.bump == data@[40],
                Err(e) => data@.len() != Self::LEN && e == ProgramError::InvalidAccountData,
            },
    {
        if data.len() != Self::LEN {
            return Err(ProgramError::InvalidAccountData);
        }
        Ok(Balance { owner: Pubkey(read_array32(data, 0)), amount: read_u64_le(data, 32), bump: data[40] })
    }

    /// `old` with this balance written over its fields.
    pub fn write_over(&self, old: &[u8]) -> (r: Vec<u8>)
        requires
            old@.len() == Self::LEN,
        ensures
            r@ == balance_bytes(old@, self.owner@, self.amount, self.bump),
    {
        let mut r: Vec<u8> = Vec::with_capacity(48);
        push_all(&mut r, self.owner.0.as_slice());
        push_u64_le(&mut r, self.amount);
        r.push(self.bump);
        let mut i: usize = 41;
        while i < 48
            invariant
                41 <= i <= 48,
                old@.len() == 48,
                r@ == self.owner@ + spec_u64_to_le_bytes(self.amount) + seq![self.bump]
                    + old@.subrange(41, i as int),
            decreases 48 - i,
        {
            r.push(old[i]);
            i = i + 1;
            assert(r@ =~= self.owner@ + spec_u64_to_le_bytes(self.amount) + seq![self.bump]
                + old@.subrange(41, i as int));
        }
        r
    }
}

} // verus!

verus! {

// ---------------------------------------------------------------- processing

/// The configuration account of the token program.
pub open spec fn config_address(program_id: Seq<u8>) -> Option<(Seq<u8>, u8)> {
    program_address(seq![config_seed_bytes()], program_id)
}

/// The balance account of `owner` under the token program.
pub open spec fn balance_address(owner: Seq<u8>, program_id: Seq<u8>) -> Option<(Seq<u8>, u8)> {
    program_address(seq![balance_seed_bytes(), owner], program_id)
}

/// A creation of a 48-byte account owned by the program, paid by account `from`.
pub open spec fn create48(from: int, to: int, program_id: Seq<u8>, seeds: Seq<Seq<u8>>) -> CreateView {
    CreateView { from, to, space: 48, owner: program_id, seeds }
}

pub open spec fn key_of(a: AccountInput) -> Seq<u8> {
    a.key@
}

pub open spec fn data_of(a: AccountInput) -> Seq<u8> {
    a.data@
}

/// What `initialize` does with accounts `[authority, distribution, config, system]`.
pub open spec fn initialize_outcome(program_id: Seq<u8>, a: Seq<AccountInput>, supply: u64, decimals: u8) -> InvocationView {
    if a.len() != 4 {
        failed(ProgramError::NotEnoughAccountKeys)
    } else if !a[0].is_signer {
        failed(ProgramError::MissingRequiredSignature)
    } else {
        match config_address(program_id) {
            None => failed(ProgramError::NoViableBump),
            Some((ck, cb)) => if key_of(a[2]) != ck {
                failed(ProgramError::InvalidSeeds)
            } else {
                let c1 = create48(0, 2, program_id, seq![config_seed_bytes(), seq![cb]]);
                match balance_address(key_of(a[0]), program_id) {
                    None => InvocationView { calls: seq![CallView::Create(c1)], result: Err(ProgramError::NoViableBump) },
                    Some((bk, bb)) => if key_of(a[1]) != bk {
                        InvocationView { calls: seq![CallView::Create(c1)], result: Err(ProgramError::InvalidSeeds) }
                    } else {
                        let c2 = create48(0, 1, program_id, seq![balance_seed_bytes(), key_of(a[0]), seq![bb]]);
                        InvocationView {
                            calls: seq![CallView::Create(c1), CallView::Create(c2)],
                            result: Ok(seq![
                                (2int, config_bytes(zeros(48), key_of(a[0]), supply, decimals, cb)),
                                (1int, balance_bytes(zeros(48), key_of(a[0]), 0, bb)),
                            ]),
                        }
                    },
                }
            },
        }
    }
}

/// The signer seeds of the configuration account: `["config", [bump]]`.
pub(crate) fn config_signer_seeds(bump: u8) -> (r: Vec<Vec<u8>>)
    ensures
        crate::keys::seeds_view(r@) == seq![config_seed_bytes(), seq![bump]],
{
    let a = config_seed();
    let b = vec![bump];
    let r = vec![a, b];
    proof {
        assert(b@ =~= seq![bump]);
        assert(crate::keys::seeds_view(r@) =~= seq![config_seed_bytes(), seq![bump]]);
    }
    r
}

/// The signer seeds of a balance account: `["balance", owner, [bump]]`.
pub(crate) fn balance_signer_seeds(owner: &Pubkey, bump: u8) -> (r: Vec<Vec<u8>>)
    ensures
        crate::keys::seeds_view(r@) == seq![balance_seed_bytes(), owner@, seq![bump]],
{
    let a = balance_seed();
    let o = to_vec(owner.0.as_slice());
    let b = vec![bump];
    let r = vec![a, o, b];
    proof {
        assert(b@ =~= seq![bump]);
        assert(crate::keys::seeds_view(r@) =~= seq![balance_seed_bytes(), owner@, seq![bump]]);
    }
    r
}

fn create48_exec(from: usize, to: usize, program_id: &Pubkey, seeds: Vec<Vec<u8>>) -> (c: CreateAccount)
    ensures
        c@ == create48(from as int, to as int, program_id@, crate::keys::seeds_view(seeds@)),
{
    CreateAccount { from, to, space: 48, owner: *program_id, seeds }
}

/// Creates the token's configuration (authority = signer, the declared supply and
/// decimals) and the authority's balance account, which starts empty: the declared
/// supply is handed out by `mint`.
pub fn initialize(program_id: &Pubkey, accounts: &[AccountInput], params: InitializeParams) -> (r: Invocation)
    ensures
        r@ == initialize_outcome(program_id@, accounts@, params.total_supply, params.decimals),
{
    if accounts.len() != 4 {
        return fail(ProgramError::NotEnoughAccountKeys);
    }
    let authority = &accounts[0];
    if !authority.is_signer {
        return fail(ProgramError::MissingRequiredSignature);
    }
    let (config_key, config_bump) = match crate::protocol::derive_token_config_pda(program_id) {
        Some(found) => found,
        None => return fail(ProgramError::NoViableBump),
    };
    if !accounts[2].key.same(&config_key) {
        return fail(ProgramError::InvalidSeeds);
    }
    let c1 = create48_exec(0, 2, program_id, config_signer_seeds(config_bump));
    let ghost c1v = c1@;
    let mut calls: Vec<Call> = Vec::new();
    calls.push(Call::Create(c1));
    let zero = zero_bytes(48);
    let config = Config { authority: authority.key, total_supply: params.total_supply, decimals: params.decimals, bump: config_bump };
    let config_data = config.write_over(zero.as_slice());
    let (balance_key, balance_bump) = match crate::protocol::derive_token_balance_pda(&authority.key, program_id) {
        Some(found) => found,
        None => {
            let r = Invocation { calls, result: Err(ProgramError::NoViableBump) };
            assert(r@.calls =~= seq![CallView::Create(c1v)]);
            return r;
        },
    };
    if !accounts[1].key.same(&balance_key) {
        let r = Invocation { calls, result: Err(ProgramError::InvalidSeeds) };
        assert(r@.calls =~= seq![CallView::Create(c1v)]);
        return r;
    }
    let c2 = create48_exec(0, 1, program_id, balance_signer_seeds(&authority.key, balance_bump));
    let ghost c2v = c2@;
    calls.push(Call::Create(c2));
    let balance = Balance { owner: authority.key, amount: 0, bump: balance_bump };
    let balance_data = balance.write_over(zero.as_slice());
    let mut writes: Vec<AccountWrite> = Vec::new();
    writes.push(AccountWrite { index: 2, data: config_data });
    writes.push(AccountWrite { index: 1, data: balance_data });
    let r = Invocation { calls, result: Ok(writes) };
    assert(r@.calls =~= seq![CallView::Create(c1v), CallView::Create(c2v)]);
    assert(r@.result->Ok_0 =~= seq![
        (2int, config_bytes(zeros(48), authority.key@, params.total_supply, params.decimals, config_bump)),
        (1int, balance_bytes(zeros(48), authority.key@, 0, balance_bump)),
    ]);
    r
}

} // verus!

verus! {

/// What `transfer` does with accounts `[sender, sender_balance, recipient,
/// recipient_balance, system]`, when the credit does not overflow.
pub open spec fn transfer_outcome(program_id: Seq<u8>, a: Seq<AccountInput>, amount: u64) -> InvocationView {
    if a.len() != 5 {
        failed(ProgramError::NotEnoughAccountKeys)
    } else if !a[0].is_signer {
        failed(ProgramError::MissingRequiredSignature)
    } else {
        match balance_address(key_of(a[0]), program_id) {
            None => failed(ProgramError::NoViableBump),
            Some((sk, _)) => {
                let sd = data_of(a[1]);
                if key_of(a[1]) != sk {
                    failed(ProgramError::InvalidSeeds)
                } else if sd.len() != 48 {
                    failed(ProgramError::InvalidAccountData)
                } else if field_key(sd) != key_of(a[0]) {
                    failed(ProgramError::InvalidAccountOwner)
                } else if field_u64(sd) < amount {
                    failed(ProgramError::InsufficientFunds)
                } else if key_of(a[0]) == key_of(a[2]) {
                    failed(ProgramError::InvalidArgument)
                } else {
                    let new_sender = balance_bytes(sd, field_key(sd), (field_u64(sd) - amount) as u64, sd[40]);
                    match balance_address(key_of(a[2]), program_id) {
                        None => failed(ProgramError::NoViableBump),
                        Some((rk, rb)) => {
                            let rd = data_of(a[3]);
                            if key_of(a[3]) != rk {
                                failed(ProgramError::InvalidSeeds)
                            } else if rd.len() == 0 {
                                InvocationView {
                                    calls: seq![CallView::Create(create48(0, 3, program_id, seq![balance_seed_bytes(), key_of(a[2]), seq![rb]]))],
                                    result: Ok(seq![(1int, new_sender), (3int, balance_bytes(zeros(48), key_of(a[2]), amount, rb))]),
                                }
                            } else if rd.len() != 48 {
                                failed(ProgramError::InvalidAccountData)
                            } else if field_key(rd) != key_of(a[2]) {
                                failed(ProgramError::InvalidAccountOwner)
                            } else {
                                InvocationView {
                                    calls: seq![],
                                    result: Ok(seq![
                                        (1int, new_sender),
                                        (3int, balance_bytes(rd, field_key(rd), (field_u64(rd) + amount) as u64, rd[40])),
                                    ]),
                                }
                            }
                        },
                    }
                }
            },
        }
    }
}

/// `transfer` reaches the credit of an existing recipient balance, and the credit would
/// not fit in a `u64` (the program aborts there).
pub open spec fn transfer_overflows(program_id: Seq<u8>, a: Seq<AccountInput>, amount: u64) -> bool {
    &&& a.len() == 5
    &&& a[0].is_signer
    &&& balance_address(key_of(a[0]), program_id) matches Some((sk, _))
    &&& key_of(a[1]) == sk
    &&& data_of(a[1]).len() == 48
    &&& field_key(data_of(a[1])) == key_of(a[0])
    &&& field_u64(data_of(a[1])) >= amount
    &&& key_of(a[0]) != key_of(a[2])
    &&& balance_address(key_of(a[2]), program_id) matches Some((rk, _))
    &&& key_of(a[3]) == rk
    &&& data_of(a[3]).len() == 48
    &&& field_key(data_of(a[3])) == key_of(a[2])
    &&& field_u64(data_of(a[3])) + amount > u64::MAX
}

/// Moves `amount` from the signer's balance to the recipient's, creating the
/// recipient's balance account (paid by the sender) when it does not exist yet.
pub fn transfer(program_id: &Pubkey, accounts: &[AccountInput], params: TransferParams) -> (r: Invocation)
    requires
        !transfer_overflows(program_id@, accounts@, params.amount),
    ensures
        r@ == transfer_outcome(program_id@, accounts@, params.amount),
{
    if accounts.len() != 5 {
        return fail(ProgramError::NotEnoughAccountKeys);
    }
    let sender = &accounts[0];
    let recipient = &accounts[2];
    if !sender.is_signer {
        return fail(ProgramError::MissingRequiredSignature);
    }
    let (expected_sender_balance, _) = match crate::protocol::derive_token_balance_pda(&sender.key, program_id) {
        Some(found) => found,
        None => return fail(ProgramError::NoViableBump),
    };
    if !accounts[1].key.same(&expected_sender_balance) {
        return fail(ProgramError::InvalidSeeds);
    }
    let sender_bal = match Balance::from_account_data(accounts[1].data.as_slice()) {
        Ok(b) => b,
        Err(e) => return fail(e),
    };
    if !sender_bal.owner.same(&sender.key) {
        return fail(ProgramError::InvalidAccountOwner);
    }
    if sender_bal.amount < params.amount {
        return fail(ProgramError::InsufficientFunds);
    }
    if sender.key.same(&recipient.key) {
        return fail(ProgramError::InvalidArgument);
    }
    let new_sender = Balance { owner: sender_bal.owner, amount: sender_bal.amount - params.amount, bump: sender_bal.bump };
    let sender_data = new_sender.write_over(accounts[1].data.as_slice());
    let (expected_recipient_balance, recipient_bump) = match crate::protocol::derive_token_balance_pda(&recipient.key, program_id) {
        Some(found) => found,
        None => return fail(ProgramError::NoViableBump),
    };
    if !accounts[3].key.same(&expected_recipient_balance) {
        return fail(ProgramError::InvalidSeeds);
    }
    let mut writes: Vec<AccountWrite> = Vec::new();
    writes.push(AccountWrite { index: 1, data: sender_data });
    let mut calls: Vec<Call> = Vec::new();
    if accounts[3].data.len() == 0 {
        let c = create48_exec(0, 3, program_id, balance_signer_seeds(&recipient.key, recipient_bump));
        let ghost cv = c@;
        calls.push(Call::Create(c));
        let zero = zero_bytes(48);
        let fresh = Balance { owner: recipient.key, amount: params.amount, bump: recipient_bump };
        writes.push(AccountWrite { index: 3, data: fresh.write_over(zero.as_slice()) });
        let r = Invocation { calls, result: Ok(writes) };
        assert(r@.calls =~= seq![CallView::Create(cv)]);
        assert(r@.result->Ok_0 =~= transfer_outcome(program_id@, accounts@, params.amount).result->Ok_0);
        return r;
    }
    let recipient_bal = match Balance::from_account_data(accounts[3].data.as_slice()) {
        Ok(b) => b,
        Err(e) => return fail(e),
    };
    if !recipient_bal.owner.same(&recipient.key) {
        return fail(ProgramError::InvalidAccountOwner);
    }
    let credited = Balance { owner: recipient_bal.owner, amount: recipient_bal.amount + params.amount, bump: recipient_bal.bump };
    writes.push(AccountWrite { index: 3, data: credited.write_over(accounts[3].data.as_slice()) });
    let r = Invocation { calls, result: Ok(writes) };
    assert(r@.calls =~= seq![]);
    assert(r@.result->Ok_0 =~= transfer_outcome(program_id@, accounts@, params.amount).result->Ok_0);
    r
}

} // verus!

verus! {

/// What `burn` does with accounts `[holder, holder_balance, config, system]`, when the
/// supply covers the amount.
pub open spec fn burn_outcome(program_id: Seq<u8>, a: Seq<AccountInput>, amount: u64) -> InvocationView {
    if a.len() != 4 {
        failed(ProgramError::NotEnoughAccountKeys)
    } else if !a[0].is_signer {
        failed(ProgramError::MissingRequiredSignature)
    } else {
        match balance_address(key_of(a[0]), program_id) {
            None => failed(ProgramError::NoViableBump),
            Some((bk, _)) => if key_of(a[1]) != bk {
                failed(ProgramError::InvalidSeeds)
            } else {
                match config_address(program_id) {
                    None => failed(ProgramError::NoViableBump),
                    Some((ck, _)) => {
                        let bd = data_of(a[1]);
                        let cd = data_of(a[2]);
                        if key_of(a[2]) != ck {
                            failed(ProgramError::InvalidSeeds)
                        } else if bd.len() != 48 {
                            failed(ProgramError::InvalidAccountData)
                        } else if field_key(bd) != key_of(a[0]) {
                            failed(ProgramError::InvalidAccountOwner)
                        } else if field_u64(bd) < amount {
                            failed(ProgramError::InsufficientFunds)
                        } else if cd.len() != 48 {
                            failed(ProgramError::InvalidAccountData)
                        } else {
                            InvocationView {
                                calls: seq![],
                                result: Ok(seq![
                                    (1int, balance_bytes(bd, field_key(bd), (field_u64(bd) - amount) as u64, bd[40])),
                                    (2int, config_bytes(cd, field_key(cd), (field_u64(cd) - amount) as u64, cd[40], cd[41])),
                                ]),
                            }
                        }
                    },
                }
            },
        }
    }
}

/// `burn` reaches the supply decrease and the supply is below the amount (the program
/// aborts there).
pub open spec fn burn_underflows(program_id: Seq<u8>, a: Seq<AccountInput>, amount: u64) -> bool {
    &&& a.len() == 4
    &&& a[0].is_signer
    &&& balance_address(key_of(a[0]), program_id) matches Some((bk, _))
    &&& key_of(a[1]) == bk
    &&& config_address(program_id) matches Some((ck, _))
    &&& key_of(a[2]) == ck
    &&& data_of(a[1]).len() == 48
    &&& field_key(data_of(a[1])) == key_of(a[0])
    &&& field_u64(data_of(a[1])) >= amount
    &&& data_of(a[2]).len() == 48
    &&& field_u64(data_of(a[2])) < amount
}

/// Destroys `amount` of the signer's tokens, lowering the supply by the same amount.
pub fn burn(program_id: &Pubkey, accounts: &[AccountInput], params: BurnParams) -> (r: Invocation)
    requires
        !burn_underflows(program_id@, accounts@, params.amount),
    ensures
        r@ == burn_outcome(program_id@, accounts@, params.amount),
{
    if accounts.len() != 4 {
        return fail(ProgramError::NotEnoughAccountKeys);
    }
    let holder = &accounts[0];
    if !holder.is_signer {
        return fail(ProgramError::MissingRequiredSignature);
    }
    let (expected_balance, _) = match crate::protocol::derive_token_balance_pda(&holder.key, program_id) {
        Some(found) => found,
        None => return fail(ProgramError::NoViableBump),
    };
    if !accounts[1].key.same(&expected_balance) {
        return fail(ProgramError::InvalidSeeds);
    }
    let (expected_config, _) = match crate::protocol::derive_token_config_pda(program_id) {
        Some(found) => found,
        None => return fail(ProgramError::NoViableBump),
    };
    if !accounts[2].key.same(&expected_config) {
        return fail(ProgramError::InvalidSeeds);
    }
    let balance = match Balance::from_account_data(accounts[1].data.as_slice()) {
        Ok(b) => b,
        Err(e) => return fail(e),
    };
    if !balance.owner.same(&holder.key) {
        return fail(ProgramError::InvalidAccountOwner);
    }
    if balance.amount < params.amount {
        return fail(ProgramError::InsufficientFunds);
    }
    let lowered = Balance { owner: balance.owner, amount: balance.amount - params.amount, bump: balance.bump };
    let balance_data = lowered.write_over(accounts[1].data.as_slice());
    let config = match Config::from_account_data(accounts[2].data.as_slice()) {
        Ok(c) => c,
        Err(e) => return fail(e),
    };
    let reduced = Config {
        authority: config.authority,
        total_supply: config.total_supply - params.amount,
        decimals: config.decimals,
        bump: config.bump,
    };
    let config_data = reduced.write_over(accounts[2].data.as_slice());
    let mut writes: Vec<AccountWrite> = Vec::new();
    writes.push(AccountWrite { index: 1, data: balance_data });
    writes.push(AccountWrite { index: 2, data: config_data });
    let r = Invocation { calls: Vec::new(), result: Ok(writes) };
    assert(r@.calls =~= seq![]);
    assert(r@.result->Ok_0 =~= burn_outcome(program_id@, accounts@, params.amount).result->Ok_0);
    r
}

/// What `mint` does with accounts `[authority, recipient, recipient_balance, config,
/// system]`, when neither addition overflows.
pub open spec fn mint_outcome(program_id: Seq<u8>, a: Seq<AccountInput>, amount: u64) -> InvocationView {
    if a.len() != 5 {
        failed(ProgramError::NotEnoughAccountKeys)
    } else if !a[0].is_signer {
        failed(ProgramError::MissingRequiredSignature)
    } else {
        match config_address(program_id) {
            None => failed(ProgramError::NoViableBump),
            Some((ck, _)) => {
                let cd = data_of(a[3]);
                if key_of(a[3]) != ck {
                    failed(ProgramError::InvalidSeeds)
                } else if cd.len() != 48 {
                    failed(ProgramError::InvalidAccountData)
                } else if field_key(cd) != key_of(a[0]) {
                    failed(ProgramError::InvalidArgument)
                } else {
                    match balance_address(key_of(a[1]), program_id) {
                        None => failed(ProgramError::NoViableBump),
                        Some((bk, bb)) => {
                            let bd = data_of(a[2]);
                            if key_of(a[2]) != bk {
                                failed(ProgramError::InvalidSeeds)
                            } else if bd.len() == 0 {
                                InvocationView {
                                    calls: seq![CallView::Create(create48(0, 2, program_id, seq![balance_seed_bytes(), key_of(a[1]), seq![bb]]))],
                                    result: Ok(seq![(2int, balance_bytes(zeros(48), key_of(a[1]), amount, bb))]),
                                }
                            } else if bd.len() != 48 {
                                failed(ProgramError::InvalidAccountData)
                            } else if field_key(bd) != key_of(a[1]) {
                                failed(ProgramError::InvalidAccountOwner)
                            } else {
                                InvocationView {
                                    calls: seq![],
                                    result: Ok(seq![
                                        (2int, balance_bytes(bd, field_key(bd), (field_u64(bd) + amount) as u64, bd[40])),
                                    ]),
                                }
                            }
                        },
                    }
                }
            },
        }
    }
}

/// `mint` reaches the credit of an existing balance and the credit does not fit in a
/// `u64` (the program aborts there).
pub open spec fn mint_overflows(program_id: Seq<u8>, a: Seq<AccountInput>, amount: u64) -> bool {
    &&& a.len() == 5
    &&& a[0].is_signer
    &&& config_address(program_id) matches Some((ck, _))
    &&& key_of(a[3]) == ck
    &&& data_of(a[3]).len() == 48
    &&& field_key(data_of(a[3])) == key_of(a[0])
    &&& balance_address(key_of(a[1]), program_id) matches Some((bk, _))
    &&& key_of(a[2]) == bk
    &&& data_of(a[2]).len() == 48
    &&& field_key(data_of(a[2])) == key_of(a[1])
    &&& field_u64(data_of(a[2])) + amount > u64::MAX
}

/// Hands `amount` tokens of the declared supply to the recipient's balance (creating
/// that account, paid by the authority, when it does not exist yet); the recorded supply
/// is left as it is.
pub fn mint(program_id: &Pubkey, accounts: &[AccountInput], params: MintParams) -> (r: Invocation)
    requires
        !mint_overflows(program_id@, accounts@, params.amount),
    ensures
        r@ == mint_outcome(program_id@, accounts@, params.amount),
{
    if accounts.len() != 5 {
        return fail(ProgramError::NotEnoughAccountKeys);
    }
    let authority = &accounts[0];
    let recipient = &accounts[1];
    if !authority.is_signer {
        return fail(ProgramError::MissingRequiredSignature);
    }
    let (expected_config, _) = match crate::protocol::derive_token_config_pda(program_id) {
        Some(found) => found,
        None => return fail(ProgramError::NoViableBump),
    };
    if !accounts[3].key.same(&expected_config) {
        return fail(ProgramError::InvalidSeeds);
    }
    let config = match Config::from_account_data(accounts[3].data.as_slice()) {
        Ok(c) => c,
        Err(e) => return fail(e),
    };
    if !config.authority.same(&authority.key) {
        return fail(ProgramError::InvalidArgument);
    }
    let (expected_balance, balance_bump) = match crate::protocol::derive_token_balance_pda(&recipient.key, program_id) {
        Some(found) => found,
        None => return fail(ProgramError::NoViableBump),
    };
    if !accounts[2].key.same(&expected_balance) {
        return fail(ProgramError::InvalidSeeds);
    }
    let mut calls: Vec<Call> = Vec::new();
    let mut writes: Vec<AccountWrite> = Vec::new();
    let ghost cv: Seq<CallView> = seq![];
    if accounts[2].data.len() == 0 {
        let c = create48_exec(0, 2, program_id, balance_signer_seeds(&recipient.key, balance_bump));
        proof { cv = seq![CallView::Create(c@)]; }
        calls.push(Call::Create(c));
        let zero = zero_bytes(48);
        let fresh = Balance { owner: recipient.key, amount: params.amount, bump: balance_bump };
        writes.push(AccountWrite { index: 2, data: fresh.write_over(zero.as_slice()) });
    } else {
        let balance = match Balance::from_account_data(accounts[2].data.as_slice()) {
            Ok(b) => b,
            Err(e) => return fail(e),
        };
        if !balance.owner.same(&recipient.key) {
            return fail(ProgramError::InvalidAccountOwner);
        }
        let credited = Balance { owner: balance.owner, amount: balance.amount + params.amount, bump: balance.bump };
        writes.push(AccountWrite { index: 2, data: credited.write_over(accounts[2].data.as_slice()) });
    }
    let r = Invocation { calls, result: Ok(writes) };
    assert(r@.calls =~= cv);
    assert(r@.result->Ok_0 =~= mint_outcome(program_id@, accounts@, params.amount).result->Ok_0);
    r
}

/// What an instruction of the token program does.
pub open spec fn process_outcome(program_id: Seq<u8>, a: Seq<AccountInput>, data: Seq<u8>) -> InvocationView {
    match unpack_spec(data) {
        Err(e) => failed(e),
        Ok((ix, rest)) => match ix {
            TokenInstruction::Initialize => match initialize_params_spec(rest) {
                Err(e) => failed(e),
                Ok((supply, decimals)) => initialize_outcome(program_id, a, supply, decimals),
            },
            TokenInstruction::Transfer => match amount_spec(rest) {
                Err(e) => failed(e),
                Ok(amount) => transfer_outcome(program_id, a, amount),
            },
            TokenInstruction::Burn => match amount_spec(rest) {
                Err(e) => failed(e),
                Ok(amount) => burn_outcome(program_id, a, amount),
            },
            TokenInstruction::Mint => match amount_spec(rest) {
                Err(e) => failed(e),
                Ok(amount) => mint_outcome(program_id, a, amount),
            },
        },
    }
}

/// The instruction would abort on an arithmetic overflow.
pub open spec fn process_aborts(program_id: Seq<u8>, a: Seq<AccountInput>, data: Seq<u8>) -> bool {
    match unpack_spec(data) {
        Err(_) => false,
        Ok((ix, rest)) => match (ix, amount_spec(rest)) {
            (TokenInstruction::Transfer, Ok(amount)) => transfer_overflows(program_id, a, amount),
            (TokenInstruction::Burn, Ok(amount)) => burn_underflows(program_id, a, amount),
            (TokenInstruction::Mint, Ok(amount)) => mint_overflows(program_id, a, amount),
            _ => false,
        },
    }
}

/// The program's entry point: decodes the instruction and runs it.
pub fn process_instruction(program_id: &Pubkey, accounts: &[AccountInput], instruction_data: &[u8]) -> (r: Invocation)
    requires
        !process_aborts(program_id@, accounts@, instruction_data@),
    ensures
        r@ == process_outcome(program_id@, accounts@, instruction_data@),
{
    let (ix, params_data) = match TokenInstruction::unpack(instruction_data) {
        Ok(found) => found,
        Err(e) => return fail(e),
    };
    match ix {
        TokenInstruction::Initialize => match InitializeParams::unpack(params_data) {
            Ok(params) => initialize(program_id, accounts, params),
            Err(e) => fail(e),
        },
        TokenInstruction::Transfer => match TransferParams::unpack(params_data) {
            Ok(params) => transfer(program_id, accounts, params),
            Err(e) => fail(e),
        },
        TokenInstruction::Burn => match BurnParams::unpack(params_data) {
            Ok(params) => burn(program_id, accounts, params),
            Err(e) => fail(e),
        },
        TokenInstruction::Mint => match MintParams::unpack(params_data) {
            Ok(params) => mint(program_id, accounts, params),
            Err(e) => fail(e),
        },
    }
}

// ---------------------------------------------------------------- what the handlers keep

/// The fields a balance account holds after `balance_bytes` wrote them.
pub proof fn lemma_balance_fields(old: Seq<u8>, owner: Seq<u8>, amount: u64, bump: u8)
    requires
        old.len() == 48,
        owner.len() == 32,
    ensures
        balance_bytes(old, owner, amount, bump).len() == 48,
        field_key(balance_bytes(old, owner, amount, bump)) == owner,
        field_u64(balance_bytes(old, owner, amount, bump)) == amount,
        balance_bytes(old, owner, amount, bump)[40] == bump,
{
    crate::codec::lemma_u64_le_roundtrip(amount, seq![]);
    let d = balance_bytes(old, owner, amount, bump);
    assert(field_key(d) =~= owner);
    assert(d.subrange(32, 40) =~= spec_u64_to_le_bytes(amount));
}

/// The fields a configuration account holds after `config_bytes` wrote them.
pub proof fn lemma_config_fields(old: Seq<u8>, authority: Seq<u8>, supply: u64, decimals: u8, bump: u8)
    requires
        old.len() == 48,
        authority.len() == 32,
    ensures
        config_bytes(old, authority, supply, decimals, bump).len() == 48,
        field_key(config_bytes(old, authority, supply, decimals, bump)) == authority,
        field_u64(config_bytes(old, authority, supply, decimals, bump)) == supply,
        config_bytes(old, authority, supply, decimals, bump)[40] == decimals,
        config_bytes(old, authority, supply, decimals, bump)[41] == bump,
{
    crate::codec::lemma_u64_le_roundtrip(supply, seq![]);
    let d = config_bytes(old, authority, supply, decimals, bump);
    assert(field_key(d) =~= authority);
    assert(d.subrange(32, 40) =~= spec_u64_to_le_bytes(supply));
}

/// Initializing declares the supply and opens the signer's balance empty: the
/// configuration records the signer as authority with the declared supply and decimals,
/// and the signer's new balance holds no tokens yet.
pub proof fn initialize_declares_supply_with_empty_balance(program_id: Seq<u8>, a: Seq<AccountInput>, supply: u64, decimals: u8)
    ensures
        initialize_outcome(program_id, a, supply, decimals).result matches Ok(ws) ==> {
            &&& ws.len() == 2
            &&& ws[0].0 == 2 && ws[1].0 == 1
            &&& field_key(ws[0].1) == a[0].key@
            &&& field_u64(ws[0].1) == supply
            &&& ws[0].1[40] == decimals
            &&& field_key(ws[1].1) == a[0].key@
            &&& field_u64(ws[1].1) == 0
        },
{
    if initialize_outcome(program_id, a, supply, decimals).result is Ok {
        let (_, cb) = config_address(program_id)->Some_0;
        let (_, bb) = balance_address(a[0].key@, program_id)->Some_0;
        lemma_config_fields(zeros(48), a[0].key@, supply, decimals, cb);
        lemma_balance_fields(zeros(48), a[0].key@, 0, bb);
    }
}

/// A transfer creates and destroys nothing: the sender's balance drops by the amount,
/// the recipient's rises by it (from zero when its account is created), so their sum is
/// unchanged, and each balance keeps its owner.
pub proof fn transfer_conserves_tokens(program_id: Seq<u8>, a: Seq<AccountInput>, amount: u64)
    requires
        !transfer_overflows(program_id, a, amount),
    ensures
        transfer_outcome(program_id, a, amount).result matches Ok(ws) ==> {
            let before = if data_of(a[3]).len() == 0 { 0 } else { field_u64(data_of(a[3])) as int };
            &&& ws.len() == 2
            &&& ws[0].0 == 1 && ws[1].0 == 3
            &&& field_u64(ws[0].1) == field_u64(data_of(a[1])) - amount
            &&& field_u64(ws[1].1) == before + amount
            &&& field_u64(ws[0].1) + field_u64(ws[1].1) == field_u64(data_of(a[1])) + before
            &&& field_key(ws[0].1) == a[0].key@
            &&& field_key(ws[1].1) == a[2].key@
        },
{
    if transfer_outcome(program_id, a, amount).result is Ok {
        let sd = data_of(a[1]);
        let rd = data_of(a[3]);
        let (_, rb) = balance_address(key_of(a[2]), program_id)->Some_0;
        lemma_balance_fields(sd, field_key(sd), (field_u64(sd) - amount) as u64, sd[40]);
        if rd.len() == 0 {
            lemma_balance_fields(zeros(48), key_of(a[2]), amount, rb);
        } else {
            lemma_balance_fields(rd, field_key(rd), (field_u64(rd) + amount) as u64, rd[40]);
        }
    }
}

/// A burn lowers the holder's balance and the supply by the same amount, so the supply
/// keeps counting exactly the tokens held.
pub proof fn burn_lowers_balance_and_supply(program_id: Seq<u8>, a: Seq<AccountInput>, amount: u64)
    requires
        !burn_underflows(program_id, a, amount),
    ensures
        burn_outcome(program_id, a, amount).result matches Ok(ws) ==> {
            &&& ws.len() == 2
            &&& ws[0].0 == 1 && ws[1].0 == 2
            &&& field_u64(ws[0].1) == field_u64(data_of(a[1])) - amount
            &&& field_u64(ws[1].1) == field_u64(data_of(a[2])) - amount
            &&& field_key(ws[0].1) == a[0].key@
            &&& field_key(ws[1].1) == field_key(data_of(a[2]))
        },
{
    if burn_outcome(program_id, a, amount).result is Ok {
        let bd = data_of(a[1]);
        let cd = data_of(a[2]);
        lemma_balance_fields(bd, field_key(bd), (field_u64(bd) - amount) as u64, bd[40]);
        lemma_config_fields(cd, field_key(cd), (field_u64(cd) - amount) as u64, cd[40], cd[41]);
    }
}

/// A mint hands tokens of the declared supply to the recipient: only the recipient's
/// balance changes, rising by the amount (from zero when its account is created), and
/// the recorded supply is left as it is; only the configured authority can mint.
pub proof fn mint_hands_out_declared_supply(program_id: Seq<u8>, a: Seq<AccountInput>, amount: u64)
    requires
        !mint_overflows(program_id, a, amount),
    ensures
        mint_outcome(program_id, a, amount).result matches Ok(ws) ==> {
            let before = if data_of(a[2]).len() == 0 { 0 } else { field_u64(data_of(a[2])) as int };
            &&& field_key(data_of(a[3])) == a[0].key@
            &&& a[0].is_signer
            &&& ws.len() == 1
            &&& ws[0].0 == 2
            &&& field_u64(ws[0].1) == before + amount
            &&& field_key(ws[0].1) == a[1].key@
        },
{
    if mint_outcome(program_id, a, amount).result is Ok {
        let bd = data_of(a[2]);
        let (_, bb) = balance_address(key_of(a[1]), program_id)->Some_0;
        if bd.len() == 0 {
            lemma_balance_fields(zeros(48), key_of(a[1]), amount, bb);
        } else {
            lemma_balance_fields(bd, field_key(bd), (field_u64(bd) + amount) as u64, bd[40]);
        }
    }
}

} // verus!
