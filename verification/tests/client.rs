use surf::client::http::{BrowserBackend, HttpBackendConfig};
use surf::client::memory::{decode_system_transfer_lamports, process_system_transfer, MolluskState};
use surf::client::names::{name_record_address, read_name_record, register_instruction};
use surf::client::query::{read_balance, read_token_config};
use surf::client::role::NoSigner;
use surf::client::rpc::{
    account_from_result, rpc_result, signature_info_from_result, transaction_from_result, AccountInfoResult,
    JsonRpcError, JsonRpcResponse, ParsedInstructionResult, ParsedMessageResult, ParsedTransactionResult,
    PubkeyStrings, RpcContextResult, SignatureInfoResult, TransactionMetaInfo,
};
use surf::client::signals::{signal_instruction, validate_signals_program};
use surf::client::token::{burn_instruction, initialize_instruction, mint_instruction, transfer_instruction};
use surf::client::{Account, Error};
use surf::cli::sol::sol_transfer_instruction;
use surf::keys::{Pubkey, Signature};
use surf::protocol::{derive_token_balance_pda, derive_token_config_pda, pack_transfer, SignalKind};
use std::time::Duration;

const LAMPORTS_PER_SOL: u64 = 1_000_000_000;

fn unique_key() -> Pubkey {
    Pubkey(solana_pubkey::Pubkey::new_unique().to_bytes())
}

fn text_of_key(k: &Pubkey) -> String {
    solana_pubkey::Pubkey::new_from_array(k.0).to_string()
}

#[test]
fn test_config_new() {
    let config = HttpBackendConfig::new("http://example.com:8899");
    assert_eq!(config.url, "http://example.com:8899");
    assert_eq!(config.timeout, Duration::from_secs(30));
}

#[test]
fn test_config_with_url() {
    let config = HttpBackendConfig::default().with_url("http://custom.validator:9999");
    assert_eq!(config.url, "http://custom.validator:9999");
}

#[test]
fn test_config_with_timeout() {
    let config = HttpBackendConfig::default().with_timeout(Duration::from_secs(60));
    assert_eq!(config.timeout, Duration::from_secs(60));
}

#[test]
fn test_config_default() {
    let config = HttpBackendConfig::default();
    assert_eq!(config.url, "http://localhost:8899");
    assert_eq!(config.timeout, Duration::from_secs(30));
}

#[test]
fn config_from_environment_value() {
    assert_eq!(HttpBackendConfig::from_env_value(Some("http://env.validator:7777")).url, "http://env.validator:7777");
    assert_eq!(HttpBackendConfig::from_env_value(None).url, "http://localhost:8899");
}

#[test]
fn test_backend_new() {
    let backend = BrowserBackend::new("http://localhost:8899");
    assert_eq!(backend.url, "http://localhost:8899");
}

#[test]
fn test_backend_from_config() {
    let config = HttpBackendConfig::new("http://test:8899");
    let backend = BrowserBackend::from_config(config);
    assert_eq!(backend.url, "http://test:8899");
}

#[test]
fn token_instructions_name_the_program_accounts() {
    let tp = unique_key();
    let sender = unique_key();
    let recipient = unique_key();
    let ix = transfer_instruction(&tp, &sender, &recipient, 40).unwrap();
    assert_eq!(ix.program_id, tp);
    assert_eq!(ix.data, pack_transfer(40));
    assert_eq!(ix.accounts.len(), 5);
    assert_eq!(ix.accounts[0].pubkey, sender);
    assert!(ix.accounts[0].is_signer && ix.accounts[0].is_writable);
    assert_eq!(ix.accounts[1].pubkey, derive_token_balance_pda(&sender, &tp).unwrap().0);
    assert_eq!(ix.accounts[2].pubkey, recipient);
    assert!(!ix.accounts[2].is_writable);
    assert_eq!(ix.accounts[4].pubkey, Pubkey([0u8; 32]));
    let init = initialize_instruction(&tp, &sender, 1_000, 9).unwrap();
    assert_eq!(init.accounts[2].pubkey, derive_token_config_pda(&tp).unwrap().0);
    assert_eq!(mint_instruction(&tp, &sender, &recipient, 1).unwrap().accounts.len(), 5);
    assert_eq!(burn_instruction(&tp, &sender, 1).unwrap().accounts.len(), 4);
}

#[test]
fn register_instruction_checks_the_name() {
    let tp = unique_key();
    let rp = unique_key();
    let payer = unique_key();
    let ix = register_instruction(&tp, &rp, &payer, "AlIcE").unwrap().unwrap();
    assert_eq!(ix.accounts.len(), 7);
    assert_eq!(&ix.data[1..6], b"alice");
    assert_eq!(ix.data[33], 5);
    assert_eq!(ix.accounts[5].pubkey, tp);
    match register_instruction(&tp, &rp, &payer, "al") {
        Err(Error::Validation(m)) => assert_eq!(m, "Name too short: must be at least 3 characters"),
        other => panic!("unexpected: {other:?}"),
    }
    let by_name = name_record_address(&rp, "ALICE").unwrap().unwrap();
    assert_eq!(by_name, ix.accounts[2].pubkey);
}

#[test]
fn signals_need_a_configured_program() {
    let zero = Pubkey([0u8; 32]);
    match validate_signals_program(&zero) {
        Err(Error::Validation(m)) => assert_eq!(m, "signals program is not configured on this client"),
        other => panic!("unexpected: {other:?}"),
    }
    assert!(signal_instruction(&unique_key(), &zero, &unique_key(), SignalKind::Follow, &unique_key()).is_err());
    let ix = signal_instruction(&unique_key(), &unique_key(), &unique_key(), SignalKind::Unfollow, &unique_key()).unwrap().unwrap();
    assert_eq!(ix.accounts.len(), 3);
    assert_eq!(ix.data[1], 1);
}

#[test]
fn reading_accounts() {
    let address = unique_key();
    assert_eq!(read_token_config(&address, &None).unwrap_err(), Error::AccountNotFound(address));
    let short = Account { lamports: 1, data: vec![1, 2], owner: unique_key(), executable: false, rent_epoch: 0 };
    assert_eq!(read_balance(&address, &Some(short.clone())).unwrap_err(), Error::InvalidAccountData);
    assert_eq!(read_name_record(&None).unwrap(), None);
    assert_eq!(read_name_record(&Some(short)).unwrap_err(), Error::InvalidAccountData);
    let mut data = vec![0u8; 48];
    data[32..40].copy_from_slice(&77u64.to_le_bytes());
    let good = Account { lamports: 1, data, owner: unique_key(), executable: false, rent_epoch: 0 };
    assert_eq!(read_balance(&address, &Some(good)).unwrap(), 77);
}

#[test]
fn error_messages() {
    let key = unique_key();
    assert_eq!(Error::AccountNotFound(key).message(), format!("Account not found: {}", text_of_key(&key)));
    assert_eq!(Error::Backend("x".to_string()).message(), "Backend error: x");
    assert_eq!(Error::InsufficientFunds.message(), "Insufficient funds");
}

#[test]
fn no_signer_has_no_key() {
    assert!(NoSigner.pubkey().is_none());
}

#[test]
fn rpc_results_and_errors() {
    let ok: JsonRpcResponse<u64> = JsonRpcResponse { jsonrpc: "2.0".to_string(), id: 1, result: Some(5), error: None };
    assert_eq!(rpc_result(ok).unwrap(), 5);
    let err: JsonRpcResponse<u64> = JsonRpcResponse {
        jsonrpc: "2.0".to_string(),
        id: 1,
        result: None,
        error: Some(JsonRpcError { code: -32602, message: "bad".to_string() }),
    };
    assert_eq!(rpc_result(err).unwrap_err(), Error::Backend("RPC error -32602: bad".to_string()));
    let none: JsonRpcResponse<u64> = JsonRpcResponse { jsonrpc: "2.0".to_string(), id: 1, result: None, error: None };
    assert_eq!(rpc_result(none).unwrap_err(), Error::Backend("No result in response".to_string()));
    let ctx: RpcContextResult<u64> = RpcContextResult::default();
    assert!(ctx.value.is_none());
}

#[test]
fn rpc_accounts_and_transactions_convert() {
    let owner = solana_pubkey::Pubkey::new_unique();
    let acc = AccountInfoResult {
        lamports: 9,
        data: vec!["AQID".to_string(), "base64".to_string()],
        owner: owner.to_string(),
        executable: false,
        rent_epoch: 3,
        space: 3,
    };
    let a = account_from_result(acc).unwrap();
    assert_eq!(a.data, vec![1, 2, 3]);
    assert_eq!(a.owner.0, owner.to_bytes());
    let bad_owner = AccountInfoResult { lamports: 9, data: vec![], owner: "not-a-key".to_string(), executable: false, rent_epoch: 3, space: 0 };
    assert_eq!(account_from_result(bad_owner).unwrap_err(), Error::Backend("Invalid owner pubkey".to_string()));
    let bad_data = AccountInfoResult { lamports: 9, data: vec!["%%%".to_string()], owner: owner.to_string(), executable: false, rent_epoch: 3, space: 0 };
    assert!(matches!(account_from_result(bad_data), Err(Error::Backend(m)) if m.starts_with("Invalid base64 data: ")));

    let sig = solana_signature::Signature::from([4u8; 64]);
    let info = signature_info_from_result(SignatureInfoResult { signature: sig.to_string(), slot: 8, block_time: Some(1) }).unwrap();
    assert_eq!(info.signature, Signature([4u8; 64]));
    assert_eq!(info.slot, 8);

    let tx = TransactionMetaInfo {
        slot: 8,
        block_time: None,
        transaction: ParsedTransactionResult {
            signatures: vec![sig.to_string()],
            message: ParsedMessageResult {
                account_keys: PubkeyStrings(vec![owner.to_string()]),
                instructions: vec![ParsedInstructionResult { program_id_index: 0, accounts: vec![0], data: "AQID".to_string() }],
            },
        },
    };
    let parsed = transaction_from_result(tx).unwrap();
    assert_eq!(parsed.signatures, vec![Signature([4u8; 64])]);
    assert_eq!(parsed.message.instructions[0].data, vec![1, 2, 3]);
}

#[test]
fn test_airdrop_and_balance() {
    let mut chain = MolluskState::new();
    let key = unique_key();
    chain.airdrop(&key, 1_000_000);
    assert_eq!(chain.get_balance(&key), Some(1_000_000));
}

#[test]
fn test_multiple_airdrops() {
    let mut chain = MolluskState::new();
    let pubkey1 = unique_key();
    let pubkey2 = unique_key();
    chain.airdrop(&pubkey1, LAMPORTS_PER_SOL);
    chain.airdrop(&pubkey2, 2 * LAMPORTS_PER_SOL);
    assert_eq!(chain.get_balance(&pubkey1), Some(LAMPORTS_PER_SOL));
    assert_eq!(chain.get_balance(&pubkey2), Some(2 * LAMPORTS_PER_SOL));
}

#[test]
fn airdrops_to_one_account_add_up() {
    let mut chain = MolluskState::new();
    let key = unique_key();
    chain.airdrop(&key, 100);
    chain.airdrop(&key, 200);
    assert_eq!(chain.get_balance(&key), Some(300));
    assert_eq!(chain.get_account(&key).unwrap().owner, Pubkey([0u8; 32]));
}

#[test]
fn test_account_persistence() {
    let mut chain = MolluskState::new();
    let pubkey = unique_key();
    chain.airdrop(&pubkey, 500_000);
    let account = chain.get_account(&pubkey);
    assert!(account.is_some());
    assert_eq!(account.unwrap().lamports, 500_000);
}

#[test]
fn test_mollusk_backend_connection() {
    let chain = MolluskState::new();
    let blockhash = chain.latest_blockhash();
    assert!(!blockhash.iter().all(|&b| b == 0));
}

#[test]
fn test_mollusk_backend_balance() {
    let mut chain = MolluskState::new();
    let pubkey = unique_key();
    chain.airdrop(&pubkey, LAMPORTS_PER_SOL);
    assert_eq!(chain.get_balance(&pubkey), Some(LAMPORTS_PER_SOL));
}

#[test]
fn test_mollusk_backend_account() {
    let mut chain = MolluskState::new();
    let pubkey = unique_key();
    chain.airdrop(&pubkey, LAMPORTS_PER_SOL);
    let account = chain.get_account(&pubkey);
    assert!(account.is_some());
    assert_eq!(account.unwrap().lamports, LAMPORTS_PER_SOL);
}

#[test]
fn test_mollusk_backend_account_not_found() {
    let chain = MolluskState::new();
    let pubkey = unique_key();
    assert!(chain.get_account(&pubkey).is_none());
}

#[test]
fn test_get_nonexistent_account() {
    let chain = MolluskState::new();
    let key = unique_key();
    assert!(chain.get_account(&key).is_none());
    assert!(chain.get_balance(&key).is_none());
}

#[test]
fn test_get_latest_blockhash() {
    let chain = MolluskState::new();
    let hash = chain.latest_blockhash();
    assert!(!hash.iter().all(|&b| b == 0));
    assert_eq!(&hash[..8], &1u64.to_le_bytes());
    assert!(hash[8..].iter().all(|b| *b == 0));
}

#[test]
fn system_transfers_move_lamports() {
    let mut chain = MolluskState::new();
    let from = unique_key();
    let to = unique_key();
    chain.airdrop(&from, 1_000);
    let ix = sol_transfer_instruction(&from, &to, 400);
    assert_eq!(decode_system_transfer_lamports(&ix.data), Some(400));
    process_system_transfer(&ix, &mut chain.accounts).unwrap();
    assert_eq!(chain.get_balance(&from), Some(600));
    assert_eq!(chain.get_balance(&to), Some(400));
    let too_much = sol_transfer_instruction(&from, &to, 601);
    assert_eq!(process_system_transfer(&too_much, &mut chain.accounts).unwrap_err(), Error::Backend("Insufficient funds".to_string()));
    let missing = sol_transfer_instruction(&unique_key(), &to, 1);
    assert_eq!(process_system_transfer(&missing, &mut chain.accounts).unwrap_err(), Error::Backend("Source account not found".to_string()));
    assert_eq!(decode_system_transfer_lamports(&[0u8; 12]), None);
    assert_eq!(decode_system_transfer_lamports(&[2, 0, 0]), None);
}

#[test]
fn confirmed_transactions_are_found_by_signature_and_address() {
    let mut chain = MolluskState::new();
    let key = unique_key();
    let other = unique_key();
    let s1 = Signature([1u8; 64]);
    let s2 = Signature([2u8; 64]);
    let header = surf::client::memory::MessageHeader { num_required_signatures: 1, num_readonly_signed_accounts: 0, num_readonly_unsigned_accounts: 0 };
    let accounts = chain.accounts.clone();
    let r1 = chain.record_transaction(accounts.clone(), vec![s1], header, vec![key], vec![]);
    let r2 = chain.record_transaction(accounts, vec![s2], header, vec![key, other], vec![]);
    assert_eq!(r1, s1);
    assert_eq!(r2, s2);
    assert_eq!(chain.next_slot, 3);
    let sigs = chain.get_signatures_for_address(&key, None);
    assert_eq!(sigs.len(), 2);
    assert_eq!(sigs[0].signature, s2);
    assert_eq!(sigs[0].slot, 2);
    assert_eq!(sigs[1].signature, s1);
    let limited = chain.get_signatures_for_address(&key, Some(surf::client::SignaturesForAddressOptions { before: None, until: None, limit: Some(1) }));
    assert_eq!(limited.len(), 1);
    assert_eq!(chain.get_signatures_for_address(&other, None).len(), 1);
    let tx = chain.get_transaction(&s1).unwrap();
    assert_eq!(tx.slot, 1);
    assert_eq!(tx.message.account_keys, vec![key]);
    assert!(chain.get_transaction(&Signature([9u8; 64])).is_none());
}

#[test]
fn program_accounts_are_filtered_by_owner_and_size() {
    let mut chain = MolluskState::new();
    let program = unique_key();
    let a = unique_key();
    chain.add_program(&program, vec![1, 2, 3], Account { lamports: 1, data: vec![], owner: unique_key(), executable: true, rent_epoch: 0 });
    chain.accounts.push((a, Account { lamports: 1, data: vec![0u8; 72], owner: program, executable: false, rent_epoch: 0 }));
    chain.accounts.push((unique_key(), Account { lamports: 1, data: vec![0u8; 48], owner: program, executable: false, rent_epoch: 0 }));
    assert_eq!(chain.get_program_accounts(&program, None).len(), 2);
    let sized = chain.get_program_accounts(&program, Some(surf::client::ProgramAccountsFilter { data_size: Some(72) }));
    assert_eq!(sized.len(), 1);
    assert_eq!(sized[0].pubkey, a);
    assert_eq!(chain.programs.len(), 1);
}

fn transfer_message(from: &Pubkey, to: &Pubkey, lamports: u64) -> (Vec<surf::tx::Instruction>, Vec<Pubkey>, Vec<surf::client::memory::CompiledInstruction>) {
    let ix = sol_transfer_instruction(from, to, lamports);
    let compiled = surf::client::memory::CompiledInstruction { program_id_index: 2, accounts: vec![0, 1], data: ix.data.clone() };
    (vec![ix], vec![*from, *to, Pubkey([0u8; 32])], vec![compiled])
}

#[test]
fn a_whole_send_conserves_lamports_and_moves_the_slot() {
    let mut chain = MolluskState::new();
    let from = unique_key();
    let to = unique_key();
    chain.airdrop(&from, 1_000);
    let header = surf::client::memory::MessageHeader { num_required_signatures: 1, num_readonly_signed_accounts: 0, num_readonly_unsigned_accounts: 1 };
    let (ixs, keys, compiled) = transfer_message(&from, &to, 400);
    assert!(!surf::client::memory::run_would_overflow(&chain.accounts, &ixs));
    let sig = Signature([7u8; 64]);
    let r = chain.send_system_transaction(&ixs, vec![sig], header, keys, compiled).unwrap();
    assert_eq!(r, sig);
    assert_eq!(chain.get_balance(&from), Some(600));
    assert_eq!(chain.get_balance(&to), Some(400));
    let listed = chain.get_signatures_for_address(&to, None);
    assert_eq!(listed[0].signature, sig);
    assert_eq!(listed[0].slot, 1);
    assert_eq!(&chain.latest_blockhash()[..8], &2u64.to_le_bytes());
    let tx = chain.get_transaction(&sig).unwrap();
    assert_eq!(tx.message.instructions[0].data, ixs[0].data);
    assert_eq!(tx.message.instructions[0].accounts, vec![0, 1]);
    let (too_much, keys, compiled) = transfer_message(&from, &to, 601);
    let err = chain.send_system_transaction(&too_much, vec![Signature([8u8; 64])], header, keys, compiled).unwrap_err();
    assert_eq!(err, Error::Backend("Insufficient funds".to_string()));
    assert_eq!(chain.get_balance(&from), Some(600));
    assert_eq!(chain.next_slot, 2);
}

#[test]
fn an_overflowing_credit_is_detected_before_the_run() {
    let mut chain = MolluskState::new();
    let from = unique_key();
    let to = unique_key();
    chain.airdrop(&from, 100);
    chain.airdrop(&to, u64::MAX - 5);
    let (ixs, _, _) = transfer_message(&from, &to, 10);
    assert!(surf::client::memory::run_would_overflow(&chain.accounts, &ixs));
    let (ixs, _, _) = transfer_message(&from, &to, 5);
    assert!(!surf::client::memory::run_would_overflow(&chain.accounts, &ixs));
}

#[test]
fn loading_a_program_keeps_its_code() {
    let mut chain = MolluskState::new();
    let program = unique_key();
    let account = Account { lamports: 1, data: vec![], owner: unique_key(), executable: true, rent_epoch: 0 };
    chain.add_program(&program, vec![1, 2, 3], account.clone());
    assert_eq!(chain.programs, vec![(program, vec![1, 2, 3])]);
    chain.add_program(&program, vec![4], account);
    assert_eq!(chain.programs, vec![(program, vec![4])]);
}

#[test]
fn a_send_without_instructions_is_refused() {
    let mut chain = MolluskState::new();
    let from = unique_key();
    chain.airdrop(&from, 1_000);
    let header = surf::client::memory::MessageHeader { num_required_signatures: 1, num_readonly_signed_accounts: 0, num_readonly_unsigned_accounts: 0 };
    let err = chain.send_system_transaction(&vec![], vec![Signature([3u8; 64])], header, vec![from], vec![]).unwrap_err();
    assert_eq!(err, Error::Backend("No instructions in transaction".to_string()));
    assert_eq!(chain.next_slot, 1);
    assert!(chain.transactions.is_empty());
    assert_eq!(chain.get_balance(&from), Some(1_000));
}
