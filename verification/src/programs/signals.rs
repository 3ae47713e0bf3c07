//! The signals program: a holder of at least the configured token balance may signal
//! (follow or unfollow) another account. A signal changes no account; it is recorded
//! only by the transaction that carries it.
use vstd::prelude::*;
use vstd::bytes::{spec_u64_from_le_bytes, spec_u64_to_le_bytes};
use crate::codec::{push_all, push_u64_le, read_array32, read_u64_le};
use crate::keys::Pubkey;
use crate::protocol::config_seed_bytes;
use super::token::{balance_address, config_address, config_signer_seeds};
use super::{
    fail, failed, tail, zero_bytes, zeros, AccountInput, AccountWrite, Call, CallView,
    CreateAccount, CreateView, Invocation, InvocationView, ProgramError,
};

verus! {

// ---------------------------------------------------------------- instruction data

#[derive(Clone, Copy, Debug, PartialEq, Eq, Structural)]
pub enum SignalsInstruction {
    Initialize,
    Signal,
}

#[derive(Clone, Copy, Debug, PartialEq, Eq, Structural)]
pub enum SignalKind {
    Follow,
    Unfollow,
}

pub struct InitializeParams {
    pub token_program: Pubkey,
    pub min_balance: u64,
}

pub struct SignalParams {
    pub kind: SignalKind,
    pub target: Pubkey,
}

/// What `SignalsInstruction::unpack` gives.
pub open spec fn unpack_spec(data: Seq<u8>) -> Result<(SignalsInstruction, Seq<u8>), ProgramError> {
    if data.len() == 0 {
        Err(ProgramError::InvalidInstructionData)
    } else if data[0] == 0 {
        Ok((SignalsInstruction::Initialize, data.subrange(1, data.len() as int)))
    } else if data[0] == 1 {
        Ok((SignalsInstruction::Signal, data.subrange(1, data.len() as int)))
    } else {
        Err(ProgramError::InvalidInstructionData)
    }
}

/// The kind a byte stands for.
pub open spec fn kind_spec(b: u8) -> Result<SignalKind, ProgramError> {
    if b == 0 {
        Ok(SignalKind::Follow)
    } else if b == 1 {
        Ok(SignalKind::Unfollow)
    } else {
        Err(ProgramError::InvalidInstructionData)
    }
}

/// What the initialize parameters unpack to: (token program, minimum balance).
pub open spec fn initialize_params_spec(data: Seq<u8>) -> Result<(Seq<u8>, u64), ProgramError> {
    if data.len() < 40 {
        Err(ProgramError::InvalidInstructionData)
    } else {
        Ok((data.subrange(0, 32), spec_u64_from_le_bytes(data.subrange(32, 40))))
    }
}

/// What the signal parameters unpack to: (kind, target).
pub open spec fn signal_params_spec(data: Seq<u8>) -> Result<(SignalKind, Seq<u8>), ProgramError> {
    if data.len() < 33 {
        Err(ProgramError::InvalidInstructionData)
    } else {
        match kind_spec(data[0]) {
            Ok(kind) => Ok((kind, data.subrange(1, 33))),
            Err(e) => Err(e),
        }
    }
}

impl SignalsInstruction {
    pub fn unpack(data: &[u8]) -> (r: Result<(SignalsInstruction, &[u8]), ProgramError>)
        ensures
            match r {
                Ok((ix, rest)) => unpack_spec(data@) == Ok::<(SignalsInstruction, Seq<u8>), ProgramError>((ix, rest@)),
                Err(e) => unpack_spec(data@) == Err::<(SignalsInstruction, Seq<u8>), ProgramError>(e),
            },
    {
        if data.len() == 0 {
            return Err(ProgramError::InvalidInstructionData);
        }
        let ix = match data[0] {
            0 => SignalsInstruction::Initialize,
            1 => SignalsInstruction::Signal,
            _ => return Err(ProgramError::InvalidInstructionData),
        };
        Ok((ix, tail(data, 1)))
    }
}

impl SignalKind {
    pub fn unpack(discriminator: u8) -> (r: Result<SignalKind, ProgramError>)
        ensures
            r == kind_spec(discriminator),
    {
        match discriminator {
            0 => Ok(SignalKind::Follow),
            1 => Ok(SignalKind::Unfollow),
            _ => Err(ProgramError::InvalidInstructionData),
        }
    }
}

impl InitializeParams {
    pub fn unpack(data: &[u8]) -> (r: Result<InitializeParams, ProgramError>)
        ensures
            match r {
                Ok(p) => initialize_params_spec(data@) == Ok::<(Seq<u8>, u64), ProgramError>((p.token_program@, p.min_balance)),
                Err(e) => initialize_params_spec(data@) == Err::<(Seq<u8>, u64), ProgramError>(e),
            },
    {
        if data.len() < 40 {
            return Err(ProgramError::InvalidInstructionData);
        }
        let token_program = Pubkey(read_array32(data, 0));
        let min_balance = read_u64_le(data, 32);
        Ok(InitializeParams { token_program, min_balance })
    }
}

impl SignalParams {
    pub fn unpack(data: &[u8]) -> (r: Result<SignalParams, ProgramError>)
        ensures
            match r {
                Ok(p) => signal_params_spec(data@) == Ok::<(SignalKind, Seq<u8>), ProgramError>((p.kind, p.target@)),
                Err(e) => signal_params_spec(data@) == Err::<(SignalKind, Seq<u8>), ProgramError>(e),
            },
    {
        if data.len() < 33 {
            return Err(ProgramError::InvalidInstructionData);
        }
        let kind = match SignalKind::unpack(data[0]) {
            Ok(k) => k,
            Err(e) => return Err(e),
        };
        let target = Pubkey(read_array32(data, 1));
        Ok(SignalParams { kind, target })
    }
}

// ---------------------------------------------------------------- account layouts

/// The program's configuration (80 bytes): authority at 0..32, token program at 32..64,
/// minimum balance at 64..72, bump at 72.
pub struct SignalsConfig {
    pub authority: Pubkey,
    pub token_program: Pubkey,
    pub min_balance: u64,
    pub bump: u8,
}

/// A token balance as this program reads it (48 bytes): owner at 0..32, amount at 32..40,
/// bump at 40.
pub struct TokenBalance {
    pub owner: Pubkey,
    pub amount: u64,
    pub bump: u8,
}

/// `old` with the configuration fields overwritten.
pub open spec fn signals_config_bytes(old: Seq<u8>, authority: Seq<u8>, token_program: Seq<u8>, min_balance: u64, bump: u8) -> Seq<u8> {
    authority + token_program + spec_u64_to_le_bytes(min_balance) + seq![bump] + old.subrange(73, 80)
}

impl SignalsConfig {
    pub const LEN: usize = 80;

    /// Reads the configuration from an account's data, which must be exactly `LEN` bytes.
    pub fn from_account_data(data: &[u8]) -> (r: Result<SignalsConfig, ProgramError>)
        ensures
            match r {
                Ok(c) => data@.len() == Self::LEN && c.authority@ == data@.subrange(0, 32)
                    && c.token_program@ == data@.subrange(32, 64)
                    && c.min_balance == spec_u64_from_le_bytes(data@.subrange(64, 72)) && c.bump == data@[72],
                Err(e) => data@.len() != Self::LEN && e == ProgramError::InvalidAccountData,
            },
    {
        if data.len() != Self::LEN {
            return Err(ProgramError::InvalidAccountData);
        }
        Ok(SignalsConfig {
            authority: Pubkey(read_array32(data, 0)),
            token_program: Pubkey(read_array32(data, 32)),
            min_balance: read_u64_le(data, 64),
            bump: data[72],
        })
    }

    /// `old` with this configuration written over its fields.
    pub fn write_over(&self, old: &[u8]) -> (r: Vec<u8>)
        requires
            old@.len() == Self::LEN,
        ensures
            r@ == signals_config_bytes(old@, self.authority@, self.token_program@, self.min_balance, self.bump),
    {
        let mut r: Vec<u8> = Vec::with_capacity(80);
        push_all(&mut r, self.authority.0.as_slice());
        push_all(&mut r, self.token_program.0.as_slice());
        push_u64_le(&mut r, self.min_balance);
        r.push(self.bump);
        push_all(&mut r, tail(old, 73));
        r
    }
}

impl TokenBalance {
    pub const LEN: usize = 48;

    /// Reads a balance from an account's data, which must be exactly `LEN` bytes.
    pub fn from_account_data(data: &[u8]) -> (r: Result<TokenBalance, ProgramError>)
        ensures
            match r {
                Ok(b) => data@.len() == Self::LEN && b.owner@ == data@.subrange(0, 32)
                    && b.amount == spec_u64_from_le_bytes(data@.subrange(32, 40)) && b.bump == data@[40],
                Err(e) => data@.len() != Self::LEN && e == ProgramError::InvalidAccountData,
            },
    {
        if data.len() != Self::LEN {
            return Err(ProgramError::InvalidAccountData);
        }
        Ok(TokenBalance { owner: Pubkey(read_array32(data, 0)), amount: read_u64_le(data, 32), bump: data[40] })
    }
}

// ---------------------------------------------------------------- processing

/// What `initialize` does with accounts `[authority, config, system]`.
pub open spec fn initialize_outcome(program_id: Seq<u8>, a: Seq<AccountInput>, token_program: Seq<u8>, min_balance: u64) -> InvocationView {
    if a.len() != 3 {
        failed(ProgramError::NotEnoughAccountKeys)
    } else if !a[0].is_signer {
        failed(ProgramError::MissingRequiredSignature)
    } else {
        match config_address(program_id) {
            None => failed(ProgramError::NoViableBump),
            Some((ck, cb)) => if a[1].key@ != ck {
                failed(ProgramError::InvalidSeeds)
            } else if a[1].data@.len() != 0 {
                failed(ProgramError::AccountAlreadyInitialized)
            } else {
                InvocationView {
                    calls: seq![CallView::Create(CreateView {
                        from: 0, to: 1, space: 80, owner: program_id, seeds: seq![config_seed_bytes(), seq![cb]],
                    })],
                    result: Ok(seq![(1int, signals_config_bytes(zeros(80), a[0].key@, token_program, min_balance, cb))]),
                }
            },
        }
    }
}

/// Creates the program's configuration: the signer is the authority, signals need a
/// balance of at least `min_balance` tokens of `token_program`.
pub fn initialize(program_id: &Pubkey, accounts: &[AccountInput], params: InitializeParams) -> (r: Invocation)
    ensures
        r@ == initialize_outcome(program_id@, accounts@, params.token_program@, params.min_balance),
{
    if accounts.len() != 3 {
        return fail(ProgramError::NotEnoughAccountKeys);
    }
    if !accounts[0].is_signer {
        return fail(ProgramError::MissingRequiredSignature);
    }
    let (config_key, config_bump) = match crate::protocol::derive_signals_config_pda(program_id) {
        Some(found) => found,
        None => return fail(ProgramError::NoViableBump),
    };
    if !accounts[1].key.same(&config_key) {
        return fail(ProgramError::InvalidSeeds);
    }
    if accounts[1].data.len() != 0 {
        return fail(ProgramError::AccountAlreadyInitialized);
    }
    let c = CreateAccount { from: 0, to: 1, space: 80, owner: *program_id, seeds: config_signer_seeds(config_bump) };
    let ghost cv = c@;
    let mut calls: Vec<Call> = Vec::new();
    calls.push(Call::Create(c));
    let zero = zero_bytes(80);
    let config = SignalsConfig {
        authority: accounts[0].key,
        token_program: params.token_program,
        min_balance: params.min_balance,
        bump: config_bump,
    };
    let mut writes: Vec<AccountWrite> = Vec::new();
    writes.push(AccountWrite { index: 1, data: config.write_over(zero.as_slice()) });
    let r = Invocation { calls, result: Ok(writes) };
    assert(r@.calls =~= seq![CallView::Create(cv)]);
    assert(r@.result->Ok_0 =~= initialize_outcome(program_id@, accounts@, params.token_program@, params.min_balance).result->Ok_0);
    r
}

/// What `signal` does with accounts `[signer, token_balance, config]`: it only checks,
/// and succeeds without writing anything.
pub open spec fn signal_outcome(program_id: Seq<u8>, a: Seq<AccountInput>, target: Seq<u8>) -> InvocationView {
    if a.len() != 3 {
        failed(ProgramError::NotEnoughAccountKeys)
    } else if !a[0].is_signer {
        failed(ProgramError::MissingRequiredSignature)
    } else if a[0].key@ == target {
        failed(ProgramError::InvalidArgument)
    } else {
        match config_address(program_id) {
            None => failed(ProgramError::NoViableBump),
            Some((ck, _)) => {
                let cd = a[2].data@;
                let bd = a[1].data@;
                if a[2].key@ != ck {
                    failed(ProgramError::InvalidSeeds)
                } else if cd.len() != 80 {
                    failed(ProgramError::InvalidAccountData)
                } else {
                    match balance_address(a[0].key@, cd.subrange(32, 64)) {
                        None => failed(ProgramError::NoViableBump),
                        Some((bk, _)) => if a[1].key@ != bk {
                            failed(ProgramError::InvalidSeeds)
                        } else if bd.len() != 48 {
                            failed(ProgramError::InvalidAccountData)
                        } else if bd.subrange(0, 32) != a[0].key@ {
                            failed(ProgramError::InvalidAccountOwner)
                        } else if spec_u64_from_le_bytes(bd.subrange(32, 40)) < spec_u64_from_le_bytes(cd.subrange(64, 72)) {
                            failed(ProgramError::InsufficientFunds)
                        } else {
                            InvocationView { calls: seq![], result: Ok(seq![]) }
                        },
                    }
                }
            },
        }
    }
}

/// Checks that the signer may signal `target`.
pub fn signal(program_id: &Pubkey, accounts: &[AccountInput], params: SignalParams) -> (r: Invocation)
    ensures
        r@ == signal_outcome(program_id@, accounts@, params.target@),
{
    if accounts.len() != 3 {
        return fail(ProgramError::NotEnoughAccountKeys);
    }
    let signer = &accounts[0];
    if !signer.is_signer {
        return fail(ProgramError::MissingRequiredSignature);
    }
    if signer.key.same(&params.target) {
        return fail(ProgramError::InvalidArgument);
    }
    let (config_key, _) = match crate::protocol::derive_signals_config_pda(program_id) {
        Some(found) => found,
        None => return fail(ProgramError::NoViableBump),
    };
    if !accounts[2].key.same(&config_key) {
        return fail(ProgramError::InvalidSeeds);
    }
    let config = match SignalsConfig::from_account_data(accounts[2].data.as_slice()) {
        Ok(c) => c,
        Err(e) => return fail(e),
    };
    let (expected_balance, _) = match crate::protocol::derive_token_balance_pda(&signer.key, &config.token_program) {
        Some(found) => found,
        None => return fail(ProgramError::NoViableBump),
    };
    if !accounts[1].key.same(&expected_balance) {
        return fail(ProgramError::InvalidSeeds);
    }
    let balance = match TokenBalance::from_account_data(accounts[1].data.as_slice()) {
        Ok(b) => b,
        Err(e) => return fail(e),
    };
    if !balance.owner.same(&signer.key) {
        return fail(ProgramError::InvalidAccountOwner);
    }
    if balance.amount < config.min_balance {
        return fail(ProgramError::InsufficientFunds);
    }
    let r = Invocation { calls: Vec::new(), result: Ok(Vec::new()) };
    assert(r@.calls =~= seq![]);
    assert(r@.result->Ok_0 =~= seq![]);
    r
}

/// What an instruction of the signals program does.
pub open spec fn process_outcome(program_id: Seq<u8>, a: Seq<AccountInput>, data: Seq<u8>) -> InvocationView {
    match unpack_spec(data) {
        Err(e) => failed(e),
        Ok((ix, rest)) => match ix {
            SignalsInstruction::Initialize => match initialize_params_spec(rest) {
                Err(e) => failed(e),
                Ok((tp, min)) => initialize_outcome(program_id, a, tp, min),
            },
            SignalsInstruction::Signal => match signal_params_spec(rest) {
                Err(e) => failed(e),
                Ok((_, target)) => signal_outcome(program_id, a, target),
            },
        },
    }
}

/// The program's entry point: decodes the instruction and runs it.
pub fn process_instruction(program_id: &Pubkey, accounts: &[AccountInput], instruction_data: &[u8]) -> (r: Invocation)
    ensures
        r@ == process_outcome(program_id@, accounts@, instruction_data@),
{
    let (ix, params_data) = match SignalsInstruction::unpack(instruction_data) {
        Ok(found) => found,
        Err(e) => return fail(e),
    };
    match ix {
        SignalsInstruction::Initialize => match InitializeParams::unpack(params_data) {
            Ok(params) => initialize(program_id, accounts, params),
            Err(e) => fail(e),
        },
        SignalsInstruction::Signal => match SignalParams::unpack(params_data) {
            Ok(params) => signal(program_id, accounts, params),
            Err(e) => fail(e),
        },
    }
}

/// A signal that succeeds changes no account and calls nothing, was signed by its
/// sender, does not target the sender itself, and was sent by the owner of a balance
/// holding at least the configured minimum.
pub proof fn signal_only_checks(program_id: Seq<u8>, a: Seq<AccountInput>, target: Seq<u8>)
    ensures
        signal_outcome(program_id, a, target).result is Ok ==> {
            let cd = a[2].data@;
            let bd = a[1].data@;
            &&& signal_outcome(program_id, a, target) == InvocationView { calls: seq![], result: Ok(seq![]) }
            &&& a[0].is_signer
            &&& a[0].key@ != target
            &&& bd.subrange(0, 32) == a[0].key@
            &&& spec_u64_from_le_bytes(bd.subrange(32, 40)) >= spec_u64_from_le_bytes(cd.subrange(64, 72))
        },
{
}

} // verus!
