//! The clients and the programs agree: the instruction data a client builds is read by
//! its program as the instruction the client meant, and the account bytes a program
//! writes are read by the clients as the values the program wrote.
use vstd::prelude::*;
use vstd::bytes::{spec_u64_from_le_bytes, spec_u64_to_le_bytes};
use crate::codec::lemma_u64_le_roundtrip;
use crate::programs::{AccountInput, CallView, InvocationView, ProgramError};
use crate::tx::InstructionView;
use crate::programs::registry as registry_program;
use crate::programs::signals as signals_program;
use crate::programs::token as token_program;
use crate::protocol::instruction::registry as registry_data;
use crate::protocol::instruction::signals as signals_data;
use crate::protocol::instruction::token as token_data;
use crate::protocol::state;
use crate::protocol::validation::{is_name_char, lower_byte, name_validation};
use crate::programs::registry::{is_name_byte, lower, name_check};
use crate::programs::token::{balance_address, config_address};
use vstd::utf8::{encode_scalar, encode_utf8};

verus! {

/// The token program runs the instruction a client packed: `pack_initialize(supply,
/// decimals)` initializes with that supply and those decimals, and `pack_transfer`,
/// `pack_burn` and `pack_mint` move, destroy or hand out exactly the packed amount.
pub proof fn token_instructions_decode(program_id: Seq<u8>, a: Seq<AccountInput>, supply: u64, decimals: u8, amount: u64)
    ensures
        token_program::process_outcome(program_id, a, token_data::initialize_data(supply, decimals))
            == token_program::initialize_outcome(program_id, a, supply, decimals),
        token_program::process_outcome(program_id, a, token_data::amount_data(token_data::TRANSFER_DISCRIMINATOR, amount))
            == token_program::transfer_outcome(program_id, a, amount),
        token_program::process_outcome(program_id, a, token_data::amount_data(token_data::BURN_DISCRIMINATOR, amount))
            == token_program::burn_outcome(program_id, a, amount),
        token_program::process_outcome(program_id, a, token_data::amount_data(token_data::MINT_DISCRIMINATOR, amount))
            == token_program::mint_outcome(program_id, a, amount),
        token_program::process_aborts(program_id, a, token_data::initialize_data(supply, decimals)) == false,
        token_program::process_aborts(program_id, a, token_data::amount_data(token_data::TRANSFER_DISCRIMINATOR, amount))
            == token_program::transfer_overflows(program_id, a, amount),
        token_program::process_aborts(program_id, a, token_data::amount_data(token_data::BURN_DISCRIMINATOR, amount))
            == token_program::burn_underflows(program_id, a, amount),
        token_program::process_aborts(program_id, a, token_data::amount_data(token_data::MINT_DISCRIMINATOR, amount))
            == token_program::mint_overflows(program_id, a, amount),
{
    lemma_u64_le_roundtrip(supply, seq![]);
    lemma_u64_le_roundtrip(amount, seq![]);
    let init = token_data::initialize_data(supply, decimals);
    let init_rest = init.subrange(1, init.len() as int);
    assert(init_rest.subrange(0, 8) =~= spec_u64_to_le_bytes(supply));
    assert(init_rest[8] == decimals);
    assert(token_program::unpack_spec(init) == Ok::<(token_program::TokenInstruction, Seq<u8>), crate::programs::ProgramError>(
        (token_program::TokenInstruction::Initialize, init_rest)));
    let tags = seq![token_data::TRANSFER_DISCRIMINATOR, token_data::BURN_DISCRIMINATOR, token_data::MINT_DISCRIMINATOR];
    assert forall|k: int| 0 <= k < 3 implies {
        let d = #[trigger] token_data::amount_data(tags[k], amount);
        &&& d.len() == 9
        &&& token_program::amount_spec(d.subrange(1, 9)) == Ok::<u64, crate::programs::ProgramError>(amount)
    } by {
        let d = token_data::amount_data(tags[k], amount);
        assert(d.subrange(1, 9).subrange(0, 8) =~= spec_u64_to_le_bytes(amount));
    }
    assert(tags[0] == token_data::TRANSFER_DISCRIMINATOR);
    assert(tags[1] == token_data::BURN_DISCRIMINATOR);
    assert(tags[2] == token_data::MINT_DISCRIMINATOR);
}

/// The registry program runs the instruction a client packed: `pack_initialize(price,
/// token_program)` configures that price and that token program, and
/// `pack_register(name, len)` registers exactly that name and length.
pub proof fn registry_instructions_decode(program_id: Seq<u8>, a: Seq<AccountInput>, price: u64, token: Seq<u8>,
    name: Seq<u8>, name_len: u8)
    requires
        token.len() == 32,
        name.len() == 32,
    ensures
        registry_program::process_outcome(program_id, a, registry_data::initialize_data(price, token))
            == registry_program::initialize_outcome(program_id, a, price, token),
        registry_program::process_outcome(program_id, a, registry_data::register_data(name, name_len))
            == registry_program::register_outcome(program_id, a, name, name_len),
        registry_program::process_aborts(a, registry_data::register_data(name, name_len))
            == (name_len > 32 && a.len() == 7 && a[0].is_signer),
{
    lemma_u64_le_roundtrip(price, seq![]);
    let init = registry_data::initialize_data(price, token);
    let init_rest = init.subrange(1, init.len() as int);
    assert(init_rest.subrange(0, 8) =~= spec_u64_to_le_bytes(price));
    assert(init_rest.subrange(8, 40) =~= token);
    let reg = registry_data::register_data(name, name_len);
    let reg_rest = reg.subrange(1, reg.len() as int);
    assert(reg_rest.subrange(0, 32) =~= name);
    assert(reg_rest[32] == name_len);
    assert(reg[33] == name_len);
}

/// The signals program runs the instruction a client packed: `pack_initialize` configures
/// that token program and minimum balance, and `pack_signal(kind, target)` signals that
/// kind (the same byte on both sides) towards exactly that target.
pub proof fn signals_instructions_decode(program_id: Seq<u8>, a: Seq<AccountInput>, token: Seq<u8>, min_balance: u64,
    kind: signals_data::SignalKind, target: Seq<u8>)
    requires
        token.len() == 32,
        target.len() == 32,
    ensures
        signals_program::process_outcome(program_id, a, signals_data::initialize_data(token, min_balance))
            == signals_program::initialize_outcome(program_id, a, token, min_balance),
        signals_program::process_outcome(program_id, a, signals_data::signal_data(kind, target))
            == signals_program::signal_outcome(program_id, a, target),
        ({
            let d = signals_data::signal_data(kind, target);
            &&& signals_program::unpack_spec(d) matches Ok((signals_program::SignalsInstruction::Signal, rest))
            &&& signals_program::signal_params_spec(rest) matches Ok((k, t))
            &&& t == target
            &&& k == (match kind {
                signals_data::SignalKind::Follow => signals_program::SignalKind::Follow,
                signals_data::SignalKind::Unfollow => signals_program::SignalKind::Unfollow,
            })
        }),
{
    lemma_u64_le_roundtrip(min_balance, seq![]);
    let init = signals_data::initialize_data(token, min_balance);
    let init_rest = init.subrange(1, init.len() as int);
    assert(init_rest.subrange(0, 32) =~= token);
    assert(init_rest.subrange(32, 40) =~= spec_u64_to_le_bytes(min_balance));
    let sig = signals_data::signal_data(kind, target);
    let sig_rest = sig.subrange(1, sig.len() as int);
    assert(sig_rest.subrange(1, 33) =~= target);
    assert(sig_rest[0] == signals_data::kind_byte(kind));
}

/// What the token program writes into its configuration and balance accounts is what
/// `decode_token_config` and `decode_token_balance` read back.
pub proof fn token_accounts_read_back(old: Seq<u8>, key: Seq<u8>, value: u64, decimals: u8, bump: u8,
    c: state::TokenConfig, b: state::TokenBalance)
    requires
        old.len() == 48,
        key.len() == 32,
    ensures
        state::token_config_in(token_program::config_bytes(old, key, value, decimals, bump), c) ==> {
            &&& c.authority@ == key
            &&& c.total_supply == value
            &&& c.decimals == decimals
            &&& c.bump == bump
        },
        state::token_balance_in(token_program::balance_bytes(old, key, value, bump), b) ==> {
            &&& b.owner@ == key
            &&& b.amount == value
            &&& b.bump == bump
        },
{
    token_program::lemma_config_fields(old, key, value, decimals, bump);
    token_program::lemma_balance_fields(old, key, value, bump);
}

/// What the registry program writes into its configuration and into a name record is what
/// `decode_registry_config` and `decode_name_record` read back.
pub proof fn registry_accounts_read_back(config_old: Seq<u8>, price: u64, token: Seq<u8>, bump: u8,
    record_old: Seq<u8>, owner: Seq<u8>, name: Seq<u8>, len: u8, c: state::RegistryConfig, r: state::NameRecord)
    requires
        config_old.len() == 48,
        token.len() == 32,
        record_old.len() == 72,
        owner.len() == 32,
        name.len() == 32,
    ensures
        state::registry_config_in(registry_program::registry_config_bytes(config_old, price, token, bump), c) ==> {
            &&& c.price == price
            &&& c.token_program@ == token
            &&& c.bump == bump
        },
        state::name_record_in(registry_program::name_record_bytes(record_old, owner, name, len), r) ==> {
            &&& r.owner@ == owner
            &&& r.name@ == name
            &&& r.len == len
        },
{
    lemma_u64_le_roundtrip(price, seq![]);
    let cd = registry_program::registry_config_bytes(config_old, price, token, bump);
    assert(cd.subrange(0, 8) =~= spec_u64_to_le_bytes(price));
    assert(cd.subrange(8, 40) =~= token);
    let rd = registry_program::name_record_bytes(record_old, owner, name, len);
    assert(rd.subrange(0, 32) =~= owner);
    assert(rd.subrange(32, 64) =~= name);
}

/// What the signals program writes into its configuration is what
/// `decode_signals_config` reads back.
pub proof fn signals_config_reads_back(old: Seq<u8>, authority: Seq<u8>, token: Seq<u8>, min_balance: u64, bump: u8,
    c: state::SignalsConfig)
    requires
        old.len() == 80,
        authority.len() == 32,
        token.len() == 32,
    ensures
        state::signals_config_in(signals_program::signals_config_bytes(old, authority, token, min_balance, bump), c) ==> {
            &&& c.authority@ == authority
            &&& c.token_program@ == token
            &&& c.min_balance == min_balance
            &&& c.bump == bump
        },
{
    lemma_u64_le_roundtrip(min_balance, seq![]);
    let d = signals_program::signals_config_bytes(old, authority, token, min_balance, bump);
    assert(d.subrange(0, 32) =~= authority);
    assert(d.subrange(32, 64) =~= token);
    assert(d.subrange(64, 72) =~= spec_u64_to_le_bytes(min_balance));
}

/// The first byte of a character's UTF-8 encoding is a name byte exactly when the
/// character is a name character, whose encoding is then that one byte.
pub(crate) proof fn lemma_first_byte(c: char)
    ensures
        encode_scalar(c as u32).len() >= 1,
        is_name_byte(encode_scalar(c as u32)[0]) <==> is_name_char(c),
        is_name_char(c) ==> encode_scalar(c as u32) == seq![(c as u32) as u8],
        is_name_char(c) ==> lower((c as u32) as u8) == lower_byte(c),
{
    broadcast use vstd::utf8::char_is_scalar;
    let v = c as u32;
    assert(vstd::utf8::is_scalar(v));
    if v <= 0x7F {
        assert((v & 0x7F) as u8 == v as u8) by (bit_vector)
            requires v <= 0x7F;
        assert(v as u8 == v);
    } else if v <= 0x7FF {
        assert((0xC0 | ((v >> 6) & 0x1F) as u8) >= 0xC0) by (bit_vector);
    } else if v <= 0xFFFF {
        assert((0xE0 | ((v >> 12) & 0x0F) as u8) >= 0xE0) by (bit_vector);
    } else {
        assert((0xF0 | ((v >> 18) & 0x7) as u8) >= 0xF0) by (bit_vector);
    }
}

/// A name made of letters encodes to one byte per letter; a name with any other
/// character encodes to bytes of which one is not a letter.
pub(crate) proof fn lemma_encode_name(chars: Seq<char>)
    ensures
        (forall|i: int| 0 <= i < chars.len() ==> is_name_char(#[trigger] chars[i])) ==> {
            &&& encode_utf8(chars).len() == chars.len()
            &&& forall|i: int| 0 <= i < chars.len() ==> #[trigger] encode_utf8(chars)[i] == (chars[i] as u32) as u8
        },
        (exists|i: int| 0 <= i < chars.len() && !is_name_char(#[trigger] chars[i])) ==>
            exists|j: int| 0 <= j < encode_utf8(chars).len() && !is_name_byte(#[trigger] encode_utf8(chars)[j]),
    decreases chars.len(),
{
    if chars.len() > 0 {
        let rest = chars.drop_first();
        lemma_encode_name(rest);
        lemma_first_byte(chars[0]);
        let head = encode_scalar(chars[0] as u32);
        let tail = encode_utf8(rest);
        assert(encode_utf8(chars) == head + tail);
        if forall|i: int| 0 <= i < chars.len() ==> is_name_char(#[trigger] chars[i]) {
            assert forall|i: int| 0 <= i < rest.len() implies is_name_char(#[trigger] rest[i]) by {
                assert(rest[i] == chars[i + 1]);
            }
            assert forall|i: int| 0 <= i < chars.len() implies #[trigger] encode_utf8(chars)[i] == (chars[i] as u32) as u8 by {
                if i > 0 {
                    assert(rest[i - 1] == chars[i]);
                }
            }
        }
        if exists|i: int| 0 <= i < chars.len() && !is_name_char(#[trigger] chars[i]) {
            let i = choose|i: int| 0 <= i < chars.len() && !is_name_char(#[trigger] chars[i]);
            if i == 0 {
                assert(!is_name_byte(encode_utf8(chars)[0]));
            } else {
                assert(rest[i - 1] == chars[i]);
                assert(!is_name_char(rest[i - 1]));
                let j = choose|j: int| 0 <= j < tail.len() && !is_name_byte(#[trigger] tail[j]);
                assert(encode_utf8(chars)[head.len() + j] == tail[j]);
            }
        }
    }
}

/// The client's name check and the registry program's agree. A name the client accepts
/// (checking characters) is accepted by the program (checking the name's UTF-8 bytes)
/// with the same normalized form, and a name the client refuses the program refuses too.
/// The normalized name the client sends (its first `len` bytes) is accepted by the
/// program unchanged.
pub proof fn name_checks_agree(chars: Seq<char>)
    ensures
        name_validation(chars) is Ok <==> name_check(encode_utf8(chars)) is Ok,
        name_validation(chars) matches Ok(n) ==> {
            &&& name_check(encode_utf8(chars)) == Ok::<Seq<u8>, crate::programs::ProgramError>(n)
            &&& name_check(n.subrange(0, chars.len() as int)) == Ok::<Seq<u8>, crate::programs::ProgramError>(n)
        },
{
    lemma_encode_name(chars);
    let bytes = encode_utf8(chars);
    if name_validation(chars) is Ok {
        let n = name_validation(chars)->Ok_0;
        assert(forall|i: int| 0 <= i < chars.len() ==> is_name_char(#[trigger] chars[i]));
        assert forall|i: int| 0 <= i < bytes.len() implies is_name_byte(#[trigger] bytes[i]) by {
            lemma_first_byte(chars[i]);
        }
        assert forall|i: int| 0 <= i < 32 implies #[trigger] crate::programs::registry::normalized_bytes(bytes)[i] == n[i] by {
            if i < chars.len() {
                lemma_first_byte(chars[i]);
            }
        }
        assert(crate::programs::registry::normalized_bytes(bytes) =~= n);
        let short = n.subrange(0, chars.len() as int);
        assert forall|i: int| 0 <= i < short.len() implies is_name_byte(#[trigger] short[i]) && lower(short[i]) == short[i] by {
            let c = chars[i];
            assert(short[i] == lower_byte(c));
            lemma_first_byte(c);
            let v = c as u32;
            assert(97 <= v <= 122 || 65 <= v <= 90);
        }
        assert(crate::programs::registry::normalized_bytes(short) =~= n);
    }
}

/// A registration pays for its name: before creating the record it hands the token
/// program it is configured with a burn of exactly the configured price, signed by the
/// payer, from the payer's balance, and the token program reads that instruction as such
/// a burn. The record it writes names the payer as owner and holds the normalized name.
pub proof fn register_pays_with_a_burn(program_id: Seq<u8>, a: Seq<AccountInput>, name: Seq<u8>, name_len: u8,
    handed: Seq<AccountInput>)
    ensures
        registry_program::register_outcome(program_id, a, name, name_len) matches InvocationView { calls, result: Ok(ws) } ==> {
            let cd = a[3].data@;
            let price = spec_u64_from_le_bytes(cd.subrange(0, 8));
            &&& calls.len() == 2
            &&& calls[0] matches CallView::Invoke(ix, idx)
            &&& ix.program_id == cd.subrange(8, 40)
            &&& ix.program_id == a[5].key@
            &&& ix.accounts[0] == (a[0].key@, true, true)
            &&& token_program::balance_address(a[0].key@, ix.program_id) matches Some((bk, _))
            &&& ix.accounts[1] == (bk, false, true)
            &&& idx == seq![0int, 1, 4, 6]
            &&& token_program::process_outcome(ix.program_id, handed, ix.data)
                == token_program::burn_outcome(ix.program_id, handed, price)
            &&& calls[1] is Create
            &&& ws.len() == 1
            &&& ws[0].0 == 2
            &&& ws[0].1.subrange(0, 32) == a[0].key@
            &&& name_check(name.subrange(0, name_len as int)) == Ok::<Seq<u8>, crate::programs::ProgramError>(ws[0].1.subrange(32, 64))
        },
{
    let out = registry_program::register_outcome(program_id, a, name, name_len);
    if out.result is Ok {
        let cd = a[3].data@;
        let price = spec_u64_from_le_bytes(cd.subrange(0, 8));
        token_instructions_decode(cd.subrange(8, 40), handed, 0, 0, price);
        let norm = name_check(name.subrange(0, name_len as int))->Ok_0;
        let rec = registry_program::name_record_bytes(crate::programs::zeros(72), a[0].key@, norm, name_len);
        assert(rec.subrange(0, 32) =~= a[0].key@);
        assert(rec.subrange(32, 64) =~= norm);
    }
}

/// The program sees the instruction's accounts: the same keys, signed as the instruction
/// marks them.
pub open spec fn accounts_as_named(a: Seq<AccountInput>, ix: InstructionView) -> bool {
    &&& a.len() == ix.accounts.len()
    &&& forall|i: int| 0 <= i < a.len() ==> #[trigger] a[i].key@ == ix.accounts[i].0 && a[i].is_signer == ix.accounts[i].1
}

/// An error about what accounts hold, not about which accounts were named.
pub open spec fn content_error(e: ProgramError) -> bool {
    ||| e == ProgramError::InvalidAccountData
    ||| e == ProgramError::InvalidAccountOwner
    ||| e == ProgramError::InsufficientFunds
}

/// The token instructions a client builds name the accounts the token program checks:
/// run on them, a transfer, burn or mint fails, if at all, only for what the accounts
/// hold (a missing or foreign balance, too small a balance, and for a mint an authority
/// other than the signer), or, for a transfer, because sender and recipient are the
/// same.
pub proof fn token_clients_name_expected_accounts(tp: Seq<u8>, sender: Seq<u8>, recipient: Seq<u8>, amount: u64,
    a: Seq<AccountInput>)
    ensures
        balance_address(sender, tp) is Some && balance_address(recipient, tp) is Some
            && accounts_as_named(a, crate::client::token::transfer_view(tp, sender, recipient, amount))
            && !token_program::transfer_overflows(tp, a, amount) ==>
            (token_program::transfer_outcome(tp, a, amount).result matches Err(e) ==>
                content_error(e) || (e == ProgramError::InvalidArgument && sender == recipient)),
        balance_address(sender, tp) is Some && config_address(tp) is Some
            && accounts_as_named(a, crate::client::token::burn_view(tp, sender, amount))
            && !token_program::burn_underflows(tp, a, amount) ==>
            (token_program::burn_outcome(tp, a, amount).result matches Err(e) ==> content_error(e)),
        balance_address(recipient, tp) is Some && config_address(tp) is Some
            && accounts_as_named(a, crate::client::token::mint_view(tp, sender, recipient, amount))
            && !token_program::mint_overflows(tp, a, amount) ==>
            (token_program::mint_outcome(tp, a, amount).result matches Err(e) ==>
                content_error(e) || e == ProgramError::InvalidArgument),
{
    let t = crate::client::token::transfer_view(tp, sender, recipient, amount);
    let b = crate::client::token::burn_view(tp, sender, amount);
    let m = crate::client::token::mint_view(tp, sender, recipient, amount);
    if accounts_as_named(a, t) {
        assert(a[0].key@ == t.accounts[0].0 && a[0].is_signer);
        assert(a[1].key@ == t.accounts[1].0);
        assert(a[2].key@ == t.accounts[2].0);
        assert(a[3].key@ == t.accounts[3].0);
    }
    if accounts_as_named(a, b) {
        assert(a[0].key@ == b.accounts[0].0 && a[0].is_signer);
        assert(a[1].key@ == b.accounts[1].0);
        assert(a[2].key@ == b.accounts[2].0);
    }
    if accounts_as_named(a, m) {
        assert(a[0].key@ == m.accounts[0].0 && a[0].is_signer);
        assert(a[1].key@ == m.accounts[1].0);
        assert(a[2].key@ == m.accounts[2].0);
        assert(a[3].key@ == m.accounts[3].0);
    }
}

/// A registration a client builds names the accounts the registry checks: run on them,
/// it fails, if at all, only because the name is taken, the registry's configuration is
/// missing or names another token program.
pub proof fn register_client_names_expected_accounts(tp: Seq<u8>, rp: Seq<u8>, payer: Seq<u8>, chars: Seq<char>,
    a: Seq<AccountInput>)
    ensures
        name_validation(chars) matches Ok(normalized) ==> (
            crate::client::names::register_addresses_exist(tp, rp, payer, normalized, chars.len() as int)
            && balance_address(payer, a[5].key@) is Some && config_address(a[5].key@) is Some
            && accounts_as_named(a, crate::client::names::register_view(tp, rp, payer, normalized, chars.len() as int)) ==>
            (registry_program::register_outcome(rp, a, normalized, chars.len() as u8).result matches Err(e) ==> {
                ||| e == ProgramError::AccountAlreadyInitialized
                ||| e == ProgramError::InvalidAccountData
                ||| e == ProgramError::InvalidArgument
            })),
{
    if name_validation(chars) is Ok {
        let normalized = name_validation(chars)->Ok_0;
        let len = chars.len() as int;
        let v = crate::client::names::register_view(tp, rp, payer, normalized, len);
        name_checks_agree(chars);
        crate::protocol::validation::lemma_utf8_len_at_least_chars(chars);
        if accounts_as_named(a, v) {
            assert(a[0].key@ == v.accounts[0].0 && a[0].is_signer);
            assert(a[2].key@ == v.accounts[2].0);
            assert(a[3].key@ == v.accounts[3].0);
            assert((len as u8) as int == len);
            assert(normalized.subrange(0, (len as u8) as int) == normalized.subrange(0, len));
        }
    }
}

/// A signal a client builds names the accounts the signals program checks: run on them,
/// it fails, if at all, only because the configuration or the signer's balance is
/// missing or too small, the balance names the token program the configuration does not,
/// or the signer signals itself.
pub proof fn signal_client_names_expected_accounts(tp: Seq<u8>, sp: Seq<u8>, signer: Seq<u8>,
    kind: signals_data::SignalKind, target: Seq<u8>, a: Seq<AccountInput>)
    ensures
        balance_address(signer, tp) is Some && config_address(sp) is Some
            && accounts_as_named(a, crate::client::signals::signal_view(tp, sp, signer, kind, target)) ==>
            (signals_program::signal_outcome(sp, a, target).result matches Err(e) ==> {
                ||| content_error(e)
                ||| e == ProgramError::InvalidArgument && signer == target
                ||| e == ProgramError::InvalidSeeds && a[2].data@.subrange(32, 64) != tp
                ||| e == ProgramError::NoViableBump && a[2].data@.subrange(32, 64) != tp
            }),
{
    let v = crate::client::signals::signal_view(tp, sp, signer, kind, target);
    if accounts_as_named(a, v) {
        assert(a[0].key@ == v.accounts[0].0 && a[0].is_signer);
        assert(a[1].key@ == v.accounts[1].0);
        assert(a[2].key@ == v.accounts[2].0);
    }
}

/// The lamport transfer the command-line tool builds is what the in-memory chain runs as
/// a system transfer: it reads the same lamports, from the first account to the second,
/// and runs only system-program instructions itself.
pub proof fn sol_transfer_is_a_system_transfer(from: Seq<u8>, to: Seq<u8>, lamports: u64)
    ensures
        crate::client::memory::system_transfer_lamports(crate::cli::sol::system_transfer_view(from, to, lamports).data)
            == Some(lamports),
        crate::cli::sol::system_transfer_view(from, to, lamports).program_id == crate::keys::zero_key(),
        crate::cli::sol::system_transfer_view(from, to, lamports).accounts[0].0 == from,
        crate::cli::sol::system_transfer_view(from, to, lamports).accounts[1].0 == to,
{
    vstd::bytes::lemma_auto_spec_u32_to_from_le_bytes();
    lemma_u64_le_roundtrip(lamports, seq![]);
    let d = crate::cli::sol::system_transfer_view(from, to, lamports).data;
    assert(d.subrange(0, 4) =~= vstd::bytes::spec_u32_to_le_bytes(2));
    assert(d.subrange(4, 12) =~= spec_u64_to_le_bytes(lamports));
}

} // verus!
