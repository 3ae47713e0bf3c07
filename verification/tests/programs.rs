use surf::keys::Pubkey;
use surf::programs::{AccountInput, Call, ProgramError};
use surf::programs::registry as registry_program;
use surf::programs::signals as signals_program;
use surf::programs::token as token_program;
use surf::protocol::{
    decode_name_record, decode_token_balance, decode_token_config, derive_name_record_pda,
    derive_registry_config_pda, derive_signals_config_pda, derive_token_balance_pda, derive_token_config_pda,
    pack_burn, pack_mint, pack_register, pack_registry_initialize, pack_signal, pack_signals_initialize,
    pack_token_initialize, pack_transfer, SignalKind,
};

fn unique_key() -> Pubkey {
    Pubkey(solana_pubkey::Pubkey::new_unique().to_bytes())
}

fn account(key: Pubkey, is_signer: bool, data: Vec<u8>) -> AccountInput {
    AccountInput { key, is_signer, data }
}

fn balance_data(owner: &Pubkey, amount: u64, bump: u8) -> Vec<u8> {
    let mut d = vec![0u8; 48];
    d[..32].copy_from_slice(&owner.0);
    d[32..40].copy_from_slice(&amount.to_le_bytes());
    d[40] = bump;
    d
}

fn config_data(authority: &Pubkey, supply: u64, decimals: u8, bump: u8) -> Vec<u8> {
    let mut d = vec![0u8; 48];
    d[..32].copy_from_slice(&authority.0);
    d[32..40].copy_from_slice(&supply.to_le_bytes());
    d[40] = decimals;
    d[41] = bump;
    d
}

fn system() -> Pubkey {
    Pubkey([0u8; 32])
}

#[test]
fn token_initialize_declares_supply_and_opens_an_empty_authority_balance() {
    let pid = unique_key();
    let authority = unique_key();
    let (config, _) = derive_token_config_pda(&pid).unwrap();
    let (balance, _) = derive_token_balance_pda(&authority, &pid).unwrap();
    let accounts = vec![
        account(authority, true, vec![]),
        account(balance, false, vec![]),
        account(config, false, vec![]),
        account(system(), false, vec![]),
    ];
    let inv = token_program::process_instruction(&pid, &accounts, &pack_token_initialize(1_000, 9));
    assert_eq!(inv.calls.len(), 2);
    assert!(matches!(&inv.calls[0], Call::Create(c) if c.to == 2 && c.space == 48));
    assert!(matches!(&inv.calls[1], Call::Create(c) if c.to == 1 && c.space == 48));
    let writes = inv.result.unwrap();
    assert_eq!(writes[0].index, 2);
    let c = decode_token_config(&writes[0].data).unwrap();
    assert_eq!(c.authority, authority);
    assert_eq!(c.total_supply, 1_000);
    assert_eq!(c.decimals, 9);
    assert_eq!(writes[1].index, 1);
    let b = decode_token_balance(&writes[1].data).unwrap();
    assert_eq!(b.owner, authority);
    assert_eq!(b.amount, 0);
}

#[test]
fn token_initialize_refuses_wrong_config_address_and_unsigned_authority() {
    let pid = unique_key();
    let authority = unique_key();
    let (balance, _) = derive_token_balance_pda(&authority, &pid).unwrap();
    let accounts = vec![
        account(authority, true, vec![]),
        account(balance, false, vec![]),
        account(unique_key(), false, vec![]),
        account(system(), false, vec![]),
    ];
    let inv = token_program::process_instruction(&pid, &accounts, &pack_token_initialize(1_000, 9));
    assert_eq!(inv.result.unwrap_err(), ProgramError::InvalidSeeds);
    let unsigned = vec![account(authority, false, vec![])];
    let inv = token_program::process_instruction(&pid, &unsigned, &pack_token_initialize(1, 0));
    assert_eq!(inv.result.unwrap_err(), ProgramError::NotEnoughAccountKeys);
}

fn transfer_accounts(pid: &Pubkey, sender: Pubkey, sender_amount: u64, recipient: Pubkey, recipient_data: Vec<u8>) -> Vec<AccountInput> {
    let (sb, sbump) = derive_token_balance_pda(&sender, pid).unwrap();
    let (rb, _) = derive_token_balance_pda(&recipient, pid).unwrap();
    vec![
        account(sender, true, vec![]),
        account(sb, false, balance_data(&sender, sender_amount, sbump)),
        account(recipient, false, vec![]),
        account(rb, false, recipient_data),
        account(system(), false, vec![]),
    ]
}

#[test]
fn transfer_moves_tokens_and_creates_missing_recipient_balance() {
    let pid = unique_key();
    let sender = unique_key();
    let recipient = unique_key();
    let accounts = transfer_accounts(&pid, sender, 100, recipient, vec![]);
    let inv = token_program::process_instruction(&pid, &accounts, &pack_transfer(40));
    assert_eq!(inv.calls.len(), 1);
    let writes = inv.result.unwrap();
    assert_eq!(writes[0].index, 1);
    assert_eq!(decode_token_balance(&writes[0].data).unwrap().amount, 60);
    assert_eq!(writes[1].index, 3);
    let r = decode_token_balance(&writes[1].data).unwrap();
    assert_eq!(r.amount, 40);
    assert_eq!(r.owner, recipient);
}

#[test]
fn transfer_to_existing_balance_adds_without_creating() {
    let pid = unique_key();
    let sender = unique_key();
    let recipient = unique_key();
    let (_, rbump) = derive_token_balance_pda(&recipient, &pid).unwrap();
    let accounts = transfer_accounts(&pid, sender, 100, recipient, balance_data(&recipient, 5, rbump));
    let inv = token_program::process_instruction(&pid, &accounts, &pack_transfer(100));
    assert!(inv.calls.is_empty());
    let writes = inv.result.unwrap();
    assert_eq!(decode_token_balance(&writes[0].data).unwrap().amount, 0);
    assert_eq!(decode_token_balance(&writes[1].data).unwrap().amount, 105);
}

#[test]
fn transfer_errors() {
    let pid = unique_key();
    let sender = unique_key();
    let recipient = unique_key();
    let accounts = transfer_accounts(&pid, sender, 10, recipient, vec![]);
    assert_eq!(token_program::process_instruction(&pid, &accounts, &pack_transfer(11)).result.unwrap_err(), ProgramError::InsufficientFunds);
    let to_self = transfer_accounts(&pid, sender, 10, sender, vec![]);
    assert_eq!(token_program::process_instruction(&pid, &to_self, &pack_transfer(1)).result.unwrap_err(), ProgramError::InvalidArgument);
    let mut wrong_owner = transfer_accounts(&pid, sender, 10, recipient, vec![]);
    wrong_owner[1].data = balance_data(&recipient, 10, 0);
    assert_eq!(token_program::process_instruction(&pid, &wrong_owner, &pack_transfer(1)).result.unwrap_err(), ProgramError::InvalidAccountOwner);
    assert_eq!(token_program::process_instruction(&pid, &accounts, &[]).result.unwrap_err(), ProgramError::InvalidInstructionData);
    assert_eq!(token_program::process_instruction(&pid, &accounts, &[9]).result.unwrap_err(), ProgramError::InvalidInstructionData);
    assert_eq!(token_program::process_instruction(&pid, &accounts, &[1, 0, 0]).result.unwrap_err(), ProgramError::InvalidInstructionData);
}

#[test]
fn burn_lowers_balance_and_supply() {
    let pid = unique_key();
    let holder = unique_key();
    let (hb, hbump) = derive_token_balance_pda(&holder, &pid).unwrap();
    let (config, cbump) = derive_token_config_pda(&pid).unwrap();
    let accounts = vec![
        account(holder, true, vec![]),
        account(hb, false, balance_data(&holder, 100, hbump)),
        account(config, false, config_data(&unique_key(), 1_000, 9, cbump)),
        account(system(), false, vec![]),
    ];
    let writes = token_program::process_instruction(&pid, &accounts, &pack_burn(30)).result.unwrap();
    assert_eq!(decode_token_balance(&writes[0].data).unwrap().amount, 70);
    assert_eq!(decode_token_config(&writes[1].data).unwrap().total_supply, 970);
    assert_eq!(token_program::process_instruction(&pid, &accounts, &pack_burn(101)).result.unwrap_err(), ProgramError::InsufficientFunds);
}

#[test]
fn mint_needs_the_configured_authority() {
    let pid = unique_key();
    let authority = unique_key();
    let recipient = unique_key();
    let (config, cbump) = derive_token_config_pda(&pid).unwrap();
    let (rb, _) = derive_token_balance_pda(&recipient, &pid).unwrap();
    let accounts = vec![
        account(authority, true, vec![]),
        account(recipient, false, vec![]),
        account(rb, false, vec![]),
        account(config, false, config_data(&authority, 1_000, 9, cbump)),
        account(system(), false, vec![]),
    ];
    let inv = token_program::process_instruction(&pid, &accounts, &pack_mint(25));
    assert_eq!(inv.calls.len(), 1);
    let writes = inv.result.unwrap();
    assert_eq!(writes.len(), 1);
    assert_eq!(writes[0].index, 2);
    assert_eq!(decode_token_balance(&writes[0].data).unwrap().amount, 25);
    let mut stranger = accounts.clone();
    stranger[0].key = unique_key();
    assert_eq!(token_program::process_instruction(&pid, &stranger, &pack_mint(25)).result.unwrap_err(), ProgramError::InvalidArgument);
}

fn registry_accounts(rp: &Pubkey, tp: &Pubkey, payer: Pubkey, name: &[u8], price: u64, record: Vec<u8>) -> Vec<AccountInput> {
    let (record_key, _) = derive_name_record_pda(name, rp).unwrap();
    let (config, cbump) = derive_registry_config_pda(rp).unwrap();
    let mut cdata = vec![0u8; 48];
    cdata[..8].copy_from_slice(&price.to_le_bytes());
    cdata[8..40].copy_from_slice(&tp.0);
    cdata[40] = cbump;
    let (pb, _) = derive_token_balance_pda(&payer, tp).unwrap();
    let (tc, _) = derive_token_config_pda(tp).unwrap();
    vec![
        account(payer, true, vec![]),
        account(pb, false, vec![]),
        account(record_key, false, record),
        account(config, false, cdata),
        account(tc, false, vec![]),
        account(*tp, false, vec![]),
        account(system(), false, vec![]),
    ]
}

#[test]
fn register_burns_the_price_then_records_the_payer() {
    let rp = unique_key();
    let tp = unique_key();
    let payer = unique_key();
    let accounts = registry_accounts(&rp, &tp, payer, b"alice", 50, vec![]);
    let mut name = [0u8; 32];
    name[..5].copy_from_slice(b"AlIcE");
    let inv = registry_program::process_instruction(&rp, &accounts, &pack_register(&name, 5));
    assert_eq!(inv.calls.len(), 2);
    match &inv.calls[0] {
        Call::Invoke(cpi) => {
            assert_eq!(cpi.instruction.program_id, tp);
            assert_eq!(cpi.instruction.data, pack_burn(50));
            assert_eq!(cpi.instruction.accounts[0].pubkey, payer);
            assert!(cpi.instruction.accounts[0].is_signer);
            assert_eq!(cpi.accounts, vec![0, 1, 4, 6]);
        }
        _ => panic!("expected the burn first"),
    }
    assert!(matches!(&inv.calls[1], Call::Create(c) if c.to == 2 && c.space == 72));
    let writes = inv.result.unwrap();
    let rec = decode_name_record(&writes[0].data).unwrap();
    assert_eq!(rec.owner, payer);
    assert_eq!(&rec.name[..5], b"alice");
    assert_eq!(rec.len, 5);
}

#[test]
fn register_refuses_taken_and_invalid_names() {
    let rp = unique_key();
    let tp = unique_key();
    let payer = unique_key();
    let taken = registry_accounts(&rp, &tp, payer, b"alice", 50, vec![1u8; 72]);
    let mut name = [0u8; 32];
    name[..5].copy_from_slice(b"alice");
    assert_eq!(registry_program::process_instruction(&rp, &taken, &pack_register(&name, 5)).result.unwrap_err(), ProgramError::AccountAlreadyInitialized);
    let mut bad = [0u8; 32];
    bad[..5].copy_from_slice(b"al1ce");
    assert_eq!(registry_program::process_instruction(&rp, &taken, &pack_register(&bad, 5)).result.unwrap_err(), ProgramError::InvalidInstructionData);
    assert_eq!(registry_program::process_instruction(&rp, &taken, &pack_register(&name, 2)).result.unwrap_err(), ProgramError::InvalidInstructionData);
    let mut other_token = registry_accounts(&rp, &tp, payer, b"alice", 50, vec![]);
    other_token[5].key = unique_key();
    assert_eq!(registry_program::process_instruction(&rp, &other_token, &pack_register(&name, 5)).result.unwrap_err(), ProgramError::InvalidArgument);
}

#[test]
fn registry_initialize_creates_its_config() {
    let rp = unique_key();
    let tp = unique_key();
    let (config, _) = derive_registry_config_pda(&rp).unwrap();
    let accounts = vec![account(unique_key(), true, vec![]), account(config, false, vec![]), account(system(), false, vec![])];
    let inv = registry_program::process_instruction(&rp, &accounts, &pack_registry_initialize(50, &tp));
    let writes = inv.result.unwrap();
    assert_eq!(u64::from_le_bytes(writes[0].data[..8].try_into().unwrap()), 50);
    assert_eq!(&writes[0].data[8..40], &tp.0[..]);
    let mut again = accounts.clone();
    again[1].data = writes[0].data.clone();
    assert_eq!(registry_program::process_instruction(&rp, &again, &pack_registry_initialize(50, &tp)).result.unwrap_err(), ProgramError::AccountAlreadyInitialized);
}

fn signal_accounts(sp: &Pubkey, tp: &Pubkey, signer: Pubkey, amount: u64, min_balance: u64) -> Vec<AccountInput> {
    let (config, cbump) = derive_signals_config_pda(sp).unwrap();
    let mut cdata = vec![0u8; 80];
    cdata[32..64].copy_from_slice(&tp.0);
    cdata[64..72].copy_from_slice(&min_balance.to_le_bytes());
    cdata[72] = cbump;
    let (sb, bbump) = derive_token_balance_pda(&signer, tp).unwrap();
    vec![
        account(signer, true, vec![]),
        account(sb, false, balance_data(&signer, amount, bbump)),
        account(config, false, cdata),
    ]
}

#[test]
fn signals_need_a_balance_and_another_target() {
    let sp = unique_key();
    let tp = unique_key();
    let signer = unique_key();
    let target = unique_key();
    let ok = signal_accounts(&sp, &tp, signer, 1, 1);
    let inv = signals_program::process_instruction(&sp, &ok, &pack_signal(SignalKind::Follow, &target));
    assert!(inv.calls.is_empty());
    assert!(inv.result.unwrap().is_empty());
    let poor = signal_accounts(&sp, &tp, signer, 0, 1);
    assert_eq!(signals_program::process_instruction(&sp, &poor, &pack_signal(SignalKind::Unfollow, &target)).result.unwrap_err(), ProgramError::InsufficientFunds);
    assert_eq!(signals_program::process_instruction(&sp, &ok, &pack_signal(SignalKind::Follow, &signer)).result.unwrap_err(), ProgramError::InvalidArgument);
    let mut bad_kind = pack_signal(SignalKind::Follow, &target);
    bad_kind[1] = 7;
    assert_eq!(signals_program::process_instruction(&sp, &ok, &bad_kind).result.unwrap_err(), ProgramError::InvalidInstructionData);
}

#[test]
fn signals_initialize_records_authority_token_program_and_minimum() {
    let sp = unique_key();
    let tp = unique_key();
    let authority = unique_key();
    let (config, _) = derive_signals_config_pda(&sp).unwrap();
    let accounts = vec![account(authority, true, vec![]), account(config, false, vec![]), account(system(), false, vec![])];
    let writes = signals_program::process_instruction(&sp, &accounts, &pack_signals_initialize(&tp, 3)).result.unwrap();
    let c = surf::protocol::decode_signals_config(&writes[0].data).unwrap();
    assert_eq!(c.authority, authority);
    assert_eq!(c.token_program, tp);
    assert_eq!(c.min_balance, 3);
}

#[test]
fn program_name_check_accepts_letters_only() {
    assert_eq!(&registry_program::validate_name(b"BoB").unwrap()[..3], b"bob");
    assert!(registry_program::validate_name(b"bo").is_err());
    assert!(registry_program::validate_name(b"b_b").is_err());
}

/// The command-line tool's setup: initialize with a supply of 1000, mint 1000 to the
/// authority, then pay 50 for a name (a burn of 50 from the authority's balance).
#[test]
fn setup_supply_and_paid_balance() {
    let pid = unique_key();
    let authority = unique_key();
    let (config, _) = derive_token_config_pda(&pid).unwrap();
    let (balance, _) = derive_token_balance_pda(&authority, &pid).unwrap();
    let init = vec![
        account(authority, true, vec![]),
        account(balance, false, vec![]),
        account(config, false, vec![]),
        account(system(), false, vec![]),
    ];
    let writes = token_program::process_instruction(&pid, &init, &pack_token_initialize(1_000, 9)).result.unwrap();
    let config_bytes = writes[0].data.clone();
    let balance_bytes = writes[1].data.clone();
    let mint = vec![
        account(authority, true, vec![]),
        account(authority, false, vec![]),
        account(balance, false, balance_bytes),
        account(config, false, config_bytes.clone()),
        account(system(), false, vec![]),
    ];
    let writes = token_program::process_instruction(&pid, &mint, &pack_mint(1_000)).result.unwrap();
    let balance_bytes = writes[0].data.clone();
    assert_eq!(decode_token_config(&config_bytes).unwrap().total_supply, 1_000);
    assert_eq!(decode_token_config(&config_bytes).unwrap().decimals, 9);
    assert_eq!(decode_token_balance(&balance_bytes).unwrap().amount, 1_000);
    let burn = vec![
        account(authority, true, vec![]),
        account(balance, false, balance_bytes),
        account(config, false, config_bytes),
        account(system(), false, vec![]),
    ];
    let writes = token_program::process_instruction(&pid, &burn, &pack_burn(50)).result.unwrap();
    assert_eq!(decode_token_balance(&writes[0].data).unwrap().amount, 950);
}

#[test]
fn a_name_is_sold_once_whatever_its_case() {
    let rp = unique_key();
    let tp = unique_key();
    let first = unique_key();
    let accounts = registry_accounts(&rp, &tp, first, b"alice", 50, vec![]);
    let mut name = [0u8; 32];
    name[..5].copy_from_slice(b"alice");
    let writes = registry_program::process_instruction(&rp, &accounts, &pack_register(&name, 5)).result.unwrap();
    let second = unique_key();
    let again = registry_accounts(&rp, &tp, second, b"alice", 50, writes[0].data.clone());
    let mut upper = [0u8; 32];
    upper[..5].copy_from_slice(b"ALICE");
    let inv = registry_program::process_instruction(&rp, &again, &pack_register(&upper, 5));
    assert!(inv.calls.is_empty());
    assert_eq!(inv.result.unwrap_err(), ProgramError::AccountAlreadyInitialized);
    let elsewhere = registry_accounts(&rp, &tp, second, b"bobby", 50, vec![]);
    let inv = registry_program::process_instruction(&rp, &elsewhere, &pack_register(&upper, 5));
    assert!(inv.calls.is_empty());
    assert_eq!(inv.result.unwrap_err(), ProgramError::InvalidSeeds);
}
