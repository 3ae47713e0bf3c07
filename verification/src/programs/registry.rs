//! The name registry program: names are sold for a price in tokens, burned from the
//! buyer's balance; each name has one record account that holds its owner.
use vstd::prelude::*;
use vstd::bytes::{spec_u64_from_le_bytes, spec_u64_to_le_bytes};
use crate::codec::{push_all, push_u64_le, read_array32, read_u64_le};
use crate::keys::{program_address, Pubkey};
use crate::protocol::{config_seed_bytes, name_seed, name_seed_bytes, MAX_NAME_LEN, MIN_NAME_LEN};
use crate::tx::{meta_view, AccountMeta, Instruction, InstructionView};
use super::token::{balance_address, config_address, config_signer_seeds};
use super::{
    fail, failed, tail, to_vec, zero_bytes, zeros, AccountInput, AccountWrite, Call, CallView,
    CreateAccount, CreateView, CrossInvoke, Invocation, InvocationView, ProgramError,
};

verus! {

// ---------------------------------------------------------------- instruction data

#[derive(Clone, Copy, Debug, PartialEq, Eq, Structural)]
pub enum NameRegistryInstruction {
    Initialize,
    Register,
}

pub struct InitializeParams {
    pub price: u64,
    pub token_program: Pubkey,
}

pub struct RegisterParams {
    pub name: [u8; 32],
    pub name_len: u8,
}

/// What `NameRegistryInstruction::unpack` gives.
pub open spec fn unpack_spec(data: Seq<u8>) -> Result<(NameRegistryInstruction, Seq<u8>), ProgramError> {
    if data.len() == 0 {
        Err(ProgramError::InvalidInstructionData)
    } else if data[0] == 0 {
        Ok((NameRegistryInstruction::Initialize, data.subrange(1, data.len() as int)))
    } else if data[0] == 1 {
        Ok((NameRegistryInstruction::Register, data.subrange(1, data.len() as int)))
    } else {
        Err(ProgramError::InvalidInstructionData)
    }
}

/// What the initialize parameters unpack to: (price, token program).
pub open spec fn initialize_params_spec(data: Seq<u8>) -> Result<(u64, Seq<u8>), ProgramError> {
    if data.len() < 40 {
        Err(ProgramError::InvalidInstructionData)
    } else {
        Ok((spec_u64_from_le_bytes(data.subrange(0, 8)), data.subrange(8, 40)))
    }
}

/// What the register parameters unpack to: (32 name bytes, name length).
pub open spec fn register_params_spec(data: Seq<u8>) -> Result<(Seq<u8>, u8), ProgramError> {
    if data.len() < 33 {
        Err(ProgramError::InvalidInstructionData)
    } else {
        Ok((data.subrange(0, 32), data[32]))
    }
}

impl NameRegistryInstruction {
    pub fn unpack(data: &[u8]) -> (r: Result<(NameRegistryInstruction, &[u8]), ProgramError>)
        ensures
            match r {
                Ok((ix, rest)) => unpack_spec(data@) == Ok::<(NameRegistryInstruction, Seq<u8>), ProgramError>((ix, rest@)),
                Err(e) => unpack_spec(data@) == Err::<(NameRegistryInstruction, Seq<u8>), ProgramError>(e),
            },
    {
        if data.len() == 0 {
            return Err(ProgramError::InvalidInstructionData);
        }
        let ix = match data[0] {
            0 => NameRegistryInstruction::Initialize,
            1 => NameRegistryInstruction::Register,
            _ => return Err(ProgramError::InvalidInstructionData),
        };
        Ok((ix, tail(data, 1)))
    }
}

impl InitializeParams {
    pub fn unpack(data: &[u8]) -> (r: Result<InitializeParams, ProgramError>)
        ensures
            match r {
                Ok(p) => initialize_params_spec(data@) == Ok::<(u64, Seq<u8>), ProgramError>((p.price, p.token_program@)),
                Err(e) => initialize_params_spec(data@) == Err::<(u64, Seq<u8>), ProgramError>(e),
            },
    {
        if data.len() < 40 {
            return Err(ProgramError::InvalidInstructionData);
        }
        let token_program = Pubkey(read_array32(data, 8));
        Ok(InitializeParams { price: read_u64_le(data, 0), token_program })
    }
}

impl RegisterParams {
    pub fn unpack(data: &[u8]) -> (r: Result<RegisterParams, ProgramError>)
        ensures
            match r {
                Ok(p) => register_params_spec(data@) == Ok::<(Seq<u8>, u8), ProgramError>((p.name@, p.name_len)),
                Err(e) => register_params_spec(data@) == Err::<(Seq<u8>, u8), ProgramError>(e),
            },
    {
        if data.len() < 33 {
            return Err(ProgramError::InvalidInstructionData);
        }
        Ok(RegisterParams { name: read_array32(data, 0), name_len: data[32] })
    }
}

// ---------------------------------------------------------------- account layouts

/// The registry's configuration (48 bytes): price at 0..8, token program at 8..40, bump at 40.
pub struct RegistryConfig {
    pub price: u64,
    pub token_program: Pubkey,
    pub bump: u8,
}

/// A name's record (72 bytes): owner at 0..32, name at 32..64, length at 64.
pub struct NameRecord {
    pub owner: Pubkey,
    pub name: [u8; 32],
    pub len: u8,
}

/// `old` with the configuration fields overwritten.
pub open spec fn registry_config_bytes(old: Seq<u8>, price: u64, token_program: Seq<u8>, bump: u8) -> Seq<u8> {
    spec_u64_to_le_bytes(price) + token_program + seq![bump] + old.subrange(41, 48)
}

/// `old` with the record fields overwritten.
pub open spec fn name_record_bytes(old: Seq<u8>, owner: Seq<u8>, name: Seq<u8>, len: u8) -> Seq<u8> {
    owner + name + seq![len] + old.subrange(65, 72)
}

impl RegistryConfig {
    pub const LEN: usize = 48;

    /// Reads the configuration from an account's data, which must be exactly `LEN` bytes.
    pub fn from_account_data(data: &[u8]) -> (r: Result<RegistryConfig, ProgramError>)
        ensures
            match r {
                Ok(c) => data@.len() == Self::LEN && c.price == spec_u64_from_le_bytes(data@.subrange(0, 8))
                    && c.token_program@ == data@.subrange(8, 40) && c.bump == data@[40],
                Err(e) => data@.len() != Self::LEN && e == ProgramError::InvalidAccountData,
            },
    {
        if data.len() != Self::LEN {
            return Err(ProgramError::InvalidAccountData);
        }
        Ok(RegistryConfig { price: read_u64_le(data, 0), token_program: Pubkey(read_array32(data, 8)), bump: data[40] })
    }

    /// `old` with this configuration written over its fields.
    pub fn write_over(&self, old: &[u8]) -> (r: Vec<u8>)
        requires
            old@.len() == Self::LEN,
        ensures
            r@ == registry_config_bytes(old@, self.price, self.token_program@, self.bump),
    {
        let mut r: Vec<u8> = Vec::with_capacity(48);
        push_u64_le(&mut r, self.price);
        push_all(&mut r, self.token_program.0.as_slice());
        r.push(self.bump);
        push_all(&mut r, tail(old, 41));
        r
    }
}

impl NameRecord {
    pub const LEN: usize = 72;

    /// `old` with this record written over its fields.
    pub fn write_over(&self, old: &[u8]) -> (r: Vec<u8>)
        requires
            old@.len() == Self::LEN,
        ensures
            r@ == name_record_bytes(old@, self.owner@, self.name@, self.len),
    {
        let mut r: Vec<u8> = Vec::with_capacity(72);
        push_all(&mut r, self.owner.0.as_slice());
        push_all(&mut r, self.name.as_slice());
        r.push(self.len);
        push_all(&mut r, tail(old, 65));
        r
    }
}

// ---------------------------------------------------------------- names

/// A byte the registry accepts in a name: an ASCII letter, either case.
pub open spec fn is_name_byte(b: u8) -> bool {
    (97 <= b && b <= 122) || (65 <= b && b <= 90)
}

/// The lowercase form of an ASCII letter byte.
pub open spec fn lower(b: u8) -> u8 {
    if 65 <= b && b <= 90 { (b + 32) as u8 } else { b }
}

/// The 32-byte normalized form of a name: its lowercase bytes, then zeros.
pub open spec fn normalized_bytes(name: Seq<u8>) -> Seq<u8> {
    Seq::new(32, |i: int| if i < name.len() { lower(name[i]) } else { 0u8 })
}

/// What the program's name check gives.
pub open spec fn name_check(name: Seq<u8>) -> Result<Seq<u8>, ProgramError> {
    if name.len() < MIN_NAME_LEN || name.len() > MAX_NAME_LEN {
        Err(ProgramError::InvalidInstructionData)
    } else if exists|i: int| 0 <= i < name.len() && !is_name_byte(#[trigger] name[i]) {
        Err(ProgramError::InvalidInstructionData)
    } else {
        Ok(normalized_bytes(name))
    }
}

/// Checks a name given as bytes and returns its normalized 32-byte form.
pub fn validate_name(name: &[u8]) -> (r: Result<[u8; 32], ProgramError>)
    ensures
        match r {
            Ok(a) => name_check(name@) == Ok::<Seq<u8>, ProgramError>(a@),
            Err(e) => name_check(name@) == Err::<Seq<u8>, ProgramError>(e),
        },
{
    let len = name.len();
    if len < MIN_NAME_LEN || len > MAX_NAME_LEN {
        return Err(ProgramError::InvalidInstructionData);
    }
    let mut normalized = [0u8; 32];
    let mut i: usize = 0;
    while i < len
        invariant
            len == name@.len(),
            MIN_NAME_LEN <= len <= MAX_NAME_LEN,
            i <= len,
            normalized@.len() == 32,
            forall|j: int| 0 <= j < i ==> is_name_byte(#[trigger] name@[j]),
            forall|j: int| 0 <= j < i ==> normalized@[j] == lower(name@[j]),
            forall|j: int| i <= j < 32 ==> normalized@[j] == 0u8,
        decreases len - i,
    {
        let byte = name[i];
        if 97 <= byte && byte <= 122 {
            normalized[i] = byte;
        } else if 65 <= byte && byte <= 90 {
            normalized[i] = byte + 32;
        } else {
            assert(!is_name_byte(name@[i as int]));
            assert(exists|j: int| 0 <= j < name@.len() && !is_name_byte(#[trigger] name@[j]));
            return Err(ProgramError::InvalidInstructionData);
        }
        i = i + 1;
    }
    assert(normalized@ =~= normalized_bytes(name@));
    Ok(normalized)
}

} // verus!

verus! {

// ---------------------------------------------------------------- processing

/// What `initialize` does with accounts `[authority, config, system]`.
pub open spec fn initialize_outcome(program_id: Seq<u8>, a: Seq<AccountInput>, price: u64, token_program: Seq<u8>) -> InvocationView {
    if a.len() != 3 {
        failed(ProgramError::NotEnoughAccountKeys)
    } else if !a[0].is_signer {
        failed(ProgramError::MissingRequiredSignature)
    } else {
        match config_address(program_id) {
            None => failed(ProgramError::NoViableBump),
            Some((ck, cb)) => if a[1].key@ != ck {
                failed(ProgramError::InvalidSeeds)
            } else if a[1].data@.len() != 0 {
                failed(ProgramError::AccountAlreadyInitialized)
            } else {
                InvocationView {
                    calls: seq![CallView::Create(CreateView {
                        from: 0, to: 1, space: 48, owner: program_id, seeds: seq![config_seed_bytes(), seq![cb]],
                    })],
                    result: Ok(seq![(1int, registry_config_bytes(zeros(48), price, token_program, cb))]),
                }
            },
        }
    }
}

/// Creates the registry's configuration: names cost `price` tokens of `token_program`.
pub fn initialize(program_id: &Pubkey, accounts: &[AccountInput], params: InitializeParams) -> (r: Invocation)
    ensures
        r@ == initialize_outcome(program_id@, accounts@, params.price, params.token_program@),
{
    if accounts.len() != 3 {
        return fail(ProgramError::NotEnoughAccountKeys);
    }
    if !accounts[0].is_signer {
        return fail(ProgramError::MissingRequiredSignature);
    }
    let (config_key, config_bump) = match crate::protocol::derive_registry_config_pda(program_id) {
        Some(found) => found,
        None => return fail(ProgramError::NoViableBump),
    };
    if !accounts[1].key.same(&config_key) {
        return fail(ProgramError::InvalidSeeds);
    }
    if accounts[1].data.len() != 0 {
        return fail(ProgramError::AccountAlreadyInitialized);
    }
    let c = CreateAccount { from: 0, to: 1, space: 48, owner: *program_id, seeds: config_signer_seeds(config_bump) };
    let ghost cv = c@;
    let mut calls: Vec<Call> = Vec::new();
    calls.push(Call::Create(c));
    let zero = zero_bytes(48);
    let config = RegistryConfig { price: params.price, token_program: params.token_program, bump: config_bump };
    let mut writes: Vec<AccountWrite> = Vec::new();
    writes.push(AccountWrite { index: 1, data: config.write_over(zero.as_slice()) });
    let r = Invocation { calls, result: Ok(writes) };
    assert(r@.calls =~= seq![CallView::Create(cv)]);
    assert(r@.result->Ok_0 =~= initialize_outcome(program_id@, accounts@, params.price, params.token_program@).result->Ok_0);
    r
}

/// The burn that `register` asks the token program for: the payer burns `price` from
/// the balance `balance_key`, lowering the supply held in `config_key`.
pub open spec fn burn_instruction(token_program: Seq<u8>, payer: Seq<u8>, balance_key: Seq<u8>, config_key: Seq<u8>,
    system: Seq<u8>, price: u64) -> InstructionView {
    InstructionView {
        program_id: token_program,
        accounts: seq![(payer, true, true), (balance_key, false, true), (config_key, false, true), (system, false, false)],
        data: crate::protocol::instruction::token::amount_data(crate::protocol::instruction::token::BURN_DISCRIMINATOR, price),
    }
}

/// What `register` does with accounts `[payer, payer_balance, name_record, registry_config,
/// token_config, token_program, system]` (when it reaches the name, its length is at most 32).
pub open spec fn register_outcome(program_id: Seq<u8>, a: Seq<AccountInput>, name: Seq<u8>, name_len: u8) -> InvocationView {
    if a.len() != 7 {
        failed(ProgramError::NotEnoughAccountKeys)
    } else if !a[0].is_signer {
        failed(ProgramError::MissingRequiredSignature)
    } else {
        match name_check(name.subrange(0, name_len as int)) {
            Err(e) => failed(e),
            Ok(norm) => {
                let short = norm.subrange(0, name_len as int);
                match program_address(seq![name_seed_bytes(), short], program_id) {
                    None => failed(ProgramError::NoViableBump),
                    Some((nk, nb)) => if a[2].key@ != nk {
                        failed(ProgramError::InvalidSeeds)
                    } else if a[2].data@.len() != 0 {
                        failed(ProgramError::AccountAlreadyInitialized)
                    } else {
                        match config_address(program_id) {
                            None => failed(ProgramError::NoViableBump),
                            Some((ck, _)) => {
                                let cd = a[3].data@;
                                if a[3].key@ != ck {
                                    failed(ProgramError::InvalidSeeds)
                                } else if cd.len() != 48 {
                                    failed(ProgramError::InvalidAccountData)
                                } else if a[5].key@ != cd.subrange(8, 40) {
                                    failed(ProgramError::InvalidArgument)
                                } else {
                                    let tp = cd.subrange(8, 40);
                                    let price = spec_u64_from_le_bytes(cd.subrange(0, 8));
                                    match (balance_address(a[0].key@, tp), config_address(tp)) {
                                        (Some((bk, _)), Some((tk, _))) => InvocationView {
                                            calls: seq![
                                                CallView::Invoke(burn_instruction(tp, a[0].key@, bk, tk, a[6].key@, price), seq![0int, 1, 4, 6]),
                                                CallView::Create(CreateView {
                                                    from: 0, to: 2, space: 72, owner: program_id,
                                                    seeds: seq![name_seed_bytes(), short, seq![nb]],
                                                }),
                                            ],
                                            result: Ok(seq![(2int, name_record_bytes(zeros(72), a[0].key@, norm, name_len))]),
                                        },
                                        _ => failed(ProgramError::NoViableBump),
                                    }
                                }
                            },
                        }
                    },
                }
            },
        }
    }
}

/// The first `n` bytes of a 32-byte array.
fn prefix(bytes: &[u8; 32], n: usize) -> (r: Vec<u8>)
    requires
        n <= 32,
    ensures
        r@ == bytes@.subrange(0, n as int),
{
    let mut r: Vec<u8> = Vec::new();
    let mut i: usize = 0;
    while i < n
        invariant
            i <= n <= 32,
            bytes@.len() == 32,
            r@ == bytes@.subrange(0, i as int),
        decreases n - i,
    {
        r.push(bytes[i]);
        i = i + 1;
        assert(r@ =~= bytes@.subrange(0, i as int));
    }
    r
}

/// Registers a name for the signer: burns the registry's price from the payer's token
/// balance, then creates the name's record holding the payer as owner.
pub fn register(program_id: &Pubkey, accounts: &[AccountInput], params: RegisterParams) -> (r: Invocation)
    requires
        accounts@.len() == 7 && accounts@[0].is_signer ==> params.name_len <= 32,
    ensures
        r@ == register_outcome(program_id@, accounts@, params.name@, params.name_len),
{
    if accounts.len() != 7 {
        return fail(ProgramError::NotEnoughAccountKeys);
    }
    let payer = &accounts[0];
    if !payer.is_signer {
        return fail(ProgramError::MissingRequiredSignature);
    }
    let name_len = params.name_len as usize;
    let name_slice = prefix(&params.name, name_len);
    let normalized = match validate_name(name_slice.as_slice()) {
        Ok(n) => n,
        Err(e) => return fail(e),
    };
    let short = prefix(&normalized, name_len);
    let ghost short_v = short@;
    let seeds = vec![name_seed(), short];
    proof {
        assert(crate::keys::seeds_view(seeds@) =~= seq![name_seed_bytes(), short_v]);
    }
    let (name_key, name_bump) = match crate::keys::find_program_address(&seeds, program_id) {
        Some(found) => found,
        None => return fail(ProgramError::NoViableBump),
    };
    if !accounts[2].key.same(&name_key) {
        return fail(ProgramError::InvalidSeeds);
    }
    if accounts[2].data.len() != 0 {
        return fail(ProgramError::AccountAlreadyInitialized);
    }
    let (config_key, _) = match crate::protocol::derive_registry_config_pda(program_id) {
        Some(found) => found,
        None => return fail(ProgramError::NoViableBump),
    };
    if !accounts[3].key.same(&config_key) {
        return fail(ProgramError::InvalidSeeds);
    }
    let config = match RegistryConfig::from_account_data(accounts[3].data.as_slice()) {
        Ok(c) => c,
        Err(e) => return fail(e),
    };
    if !accounts[5].key.same(&config.token_program) {
        return fail(ProgramError::InvalidArgument);
    }
    let burn_data = crate::protocol::pack_burn(config.price);
    let (token_balance_key, _) = match crate::protocol::derive_token_balance_pda(&payer.key, &config.token_program) {
        Some(found) => found,
        None => return fail(ProgramError::NoViableBump),
    };
    let (token_config_key, _) = match crate::protocol::derive_token_config_pda(&config.token_program) {
        Some(found) => found,
        None => return fail(ProgramError::NoViableBump),
    };
    let metas = vec![
        AccountMeta::new(payer.key, true),
        AccountMeta::new(token_balance_key, false),
        AccountMeta::new(token_config_key, false),
        AccountMeta::new_readonly(accounts[6].key, false),
    ];
    let burn = Instruction { program_id: config.token_program, accounts: metas, data: burn_data };
    let ghost burn_v = burn@;
    proof {
        assert(burn_v.accounts =~= burn_instruction(config.token_program@, payer.key@, token_balance_key@,
            token_config_key@, accounts@[6].key@, config.price).accounts);
    }
    let handed: Vec<usize> = vec![0, 1, 4, 6];
    let ghost handed_v = handed@.map_values(|k: usize| k as int);
    proof {
        assert(handed_v =~= seq![0int, 1, 4, 6]);
    }
    let name_signer_seeds = vec![name_seed(), prefix(&normalized, name_len), vec![name_bump]];
    proof {
        assert(name_signer_seeds@[2]@ =~= seq![name_bump]);
        assert(crate::keys::seeds_view(name_signer_seeds@) =~= seq![name_seed_bytes(), short_v, seq![name_bump]]);
    }
    let create = CreateAccount { from: 0, to: 2, space: 72, owner: *program_id, seeds: name_signer_seeds };
    let ghost create_v = create@;
    let mut calls: Vec<Call> = Vec::new();
    calls.push(Call::Invoke(CrossInvoke { instruction: burn, accounts: handed }));
    calls.push(Call::Create(create));
    let zero = zero_bytes(72);
    let record = NameRecord { owner: payer.key, name: normalized, len: params.name_len };
    let mut writes: Vec<AccountWrite> = Vec::new();
    writes.push(AccountWrite { index: 2, data: record.write_over(zero.as_slice()) });
    let r = Invocation { calls, result: Ok(writes) };
    assert(r@.calls =~= seq![CallView::Invoke(burn_v, handed_v), CallView::Create(create_v)]);
    assert(r@.result->Ok_0 =~= register_outcome(program_id@, accounts@, params.name@, params.name_len).result->Ok_0);
    r
}

/// What an instruction of the registry program does.
pub open spec fn process_outcome(program_id: Seq<u8>, a: Seq<AccountInput>, data: Seq<u8>) -> InvocationView {
    match unpack_spec(data) {
        Err(e) => failed(e),
        Ok((ix, rest)) => match ix {
            NameRegistryInstruction::Initialize => match initialize_params_spec(rest) {
                Err(e) => failed(e),
                Ok((price, tp)) => initialize_outcome(program_id, a, price, tp),
            },
            NameRegistryInstruction::Register => match register_params_spec(rest) {
                Err(e) => failed(e),
                Ok((name, len)) => register_outcome(program_id, a, name, len),
            },
        },
    }
}

/// The instruction is a register that reaches its name with a length above 32 (the
/// program aborts taking that many name bytes).
pub open spec fn process_aborts(a: Seq<AccountInput>, data: Seq<u8>) -> bool {
    &&& data.len() >= 34
    &&& data[0] == 1
    &&& data[33] > 32
    &&& a.len() == 7
    &&& a[0].is_signer
}

/// The program's entry point: decodes the instruction and runs it.
pub fn process_instruction(program_id: &Pubkey, accounts: &[AccountInput], instruction_data: &[u8]) -> (r: Invocation)
    requires
        !process_aborts(accounts@, instruction_data@),
    ensures
        r@ == process_outcome(program_id@, accounts@, instruction_data@),
{
    let (ix, params_data) = match NameRegistryInstruction::unpack(instruction_data) {
        Ok(found) => found,
        Err(e) => return fail(e),
    };
    match ix {
        NameRegistryInstruction::Initialize => match InitializeParams::unpack(params_data) {
            Ok(params) => initialize(program_id, accounts, params),
            Err(e) => fail(e),
        },
        NameRegistryInstruction::Register => match RegisterParams::unpack(params_data) {
            Ok(params) => register(program_id, accounts, params),
            Err(e) => fail(e),
        },
    }
}

/// A name is sold once: a registration succeeds only when the name's record account is
/// still empty (and signed by the payer), and the registry is configured once.
pub proof fn names_are_registered_once(program_id: Seq<u8>, a: Seq<AccountInput>, name: Seq<u8>, name_len: u8,
    price: u64, token_program: Seq<u8>)
    ensures
        register_outcome(program_id, a, name, name_len).result is Ok ==> a[2].data@.len() == 0 && a[0].is_signer,
        a.len() == 7 && a[0].is_signer && a[2].data@.len() != 0 ==>
            register_outcome(program_id, a, name, name_len).result is Err,
        initialize_outcome(program_id, a, price, token_program).result is Ok ==> a[1].data@.len() == 0,
{
}

/// A name is sold once, whatever its case: after a registration of `x` succeeded, a
/// registration of any `y` that matches `x` up to ASCII case fails, whoever pays, and it
/// fails before the payment is asked for (no burn and no account creation). Passed the
/// record account the first registration filled, it fails as already initialized; passed
/// any other account, it fails on the record's address.
pub proof fn a_name_is_sold_once_whatever_its_case(program_id: Seq<u8>, a: Seq<AccountInput>, x: Seq<u8>, x_len: u8,
    b: Seq<AccountInput>, y: Seq<u8>, y_len: u8)
    requires
        x_len <= x.len(),
        y_len <= y.len(),
        register_outcome(program_id, a, x, x_len).result is Ok,
        y.subrange(0, y_len as int).map_values(|c: u8| lower(c)) == x.subrange(0, x_len as int).map_values(|c: u8| lower(c)),
        b.len() > 2 && b[2].key@ == a[2].key@ ==> b[2].data@ == register_outcome(program_id, a, x, x_len).result->Ok_0[0].1,
    ensures
        register_outcome(program_id, b, y, y_len).result is Err,
        register_outcome(program_id, b, y, y_len).calls.len() == 0,
        b.len() == 7 && b[0].is_signer && b[2].key@ == a[2].key@ ==>
            register_outcome(program_id, b, y, y_len).result == Err::<Seq<(int, Seq<u8>)>, ProgramError>(ProgramError::AccountAlreadyInitialized),
{
    let xs = x.subrange(0, x_len as int);
    let ys = y.subrange(0, y_len as int);
    let nx = name_check(xs)->Ok_0;
    assert(xs.len() == ys.len()) by {
        assert(xs.map_values(|c: u8| lower(c)).len() == ys.map_values(|c: u8| lower(c)).len());
    }
    assert(!(exists|i: int| 0 <= i < xs.len() && !is_name_byte(#[trigger] xs[i])));
    assert forall|i: int| 0 <= i < ys.len() implies is_name_byte(#[trigger] ys[i]) by {
        assert(ys.map_values(|c: u8| lower(c))[i] == xs.map_values(|c: u8| lower(c))[i]);
        assert(is_name_byte(xs[i]));
    }
    assert(name_check(ys) is Ok);
    if b.len() == 7 && b[0].is_signer {
        if name_check(ys) is Ok {
            let ny = name_check(ys)->Ok_0;
            assert(ny.subrange(0, y_len as int) =~= nx.subrange(0, x_len as int)) by {
                assert forall|i: int| 0 <= i < y_len implies ny.subrange(0, y_len as int)[i] == nx.subrange(0, x_len as int)[i] by {
                    assert(ys.map_values(|c: u8| lower(c))[i] == xs.map_values(|c: u8| lower(c))[i]);
                }
            }
            if b[2].key@ == a[2].key@ {
                let ws = register_outcome(program_id, a, x, x_len).result->Ok_0;
                assert(ws[0].1.len() == 72);
            }
        }
    }
}

} // verus!
