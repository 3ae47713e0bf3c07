use surf::keys::Pubkey;
use surf::protocol::{
    derive_name_record_pda, derive_registry_config_pda, derive_signals_config_pda, derive_token_balance_pda,
    derive_token_config_pda, pack_burn, pack_mint, pack_register, pack_registry_initialize, pack_signal,
    pack_signals_initialize, pack_token_initialize, pack_transfer, validate_name, SignalKind, ValidationError,
};
use surf::protocol::{decode_name_record, decode_registry_config, decode_signals_config, decode_token_balance, decode_token_config};

fn unique_key() -> Pubkey {
    Pubkey(solana_pubkey::Pubkey::new_unique().to_bytes())
}

#[test]
fn test_name_validation_too_short() {
    let name = "ab";
    assert!(name.len() < 3);
}

#[test]
fn test_name_validation_too_long() {
    let name = "a".repeat(33);
    assert!(name.len() > 32);
}

#[test]
fn test_name_validation_valid() {
    let name = "alice";
    assert!(name.len() >= 3 && name.len() <= 32);
    assert!(name.chars().all(|c| c.is_ascii_lowercase()));
}

#[test]
fn test_name_validation_uppercase_normalized() {
    let name = "ALICE";
    let normalized: String = name.chars().map(|c| c.to_ascii_lowercase()).collect();
    assert_eq!(normalized, "alice");
}

#[test]
fn test_invalid_name_characters_rejected() {
    let name = "alice123";
    let has_invalid = name.chars().any(|c| !c.is_ascii_lowercase());
    assert!(has_invalid, "Name with digits should have invalid characters");
}

#[test]
fn test_token_initialize_packing() {
    let data = pack_token_initialize(1_000_000, 9);
    assert_eq!(data[0], 0);
    assert_eq!(u64::from_le_bytes(data[1..9].try_into().unwrap()), 1_000_000);
    assert_eq!(data[9], 9);
}

#[test]
fn test_token_transfer_packing() {
    let data = pack_transfer(500_000);
    assert_eq!(data[0], 1);
    assert_eq!(u64::from_le_bytes(data[1..9].try_into().unwrap()), 500_000);
}

#[test]
fn test_token_burn_packing() {
    let data = pack_burn(100_000);
    assert_eq!(data[0], 2);
    assert_eq!(u64::from_le_bytes(data[1..9].try_into().unwrap()), 100_000);
}

#[test]
fn test_token_mint_packing() {
    let data = pack_mint(250_000);
    assert_eq!(data[0], 3);
    assert_eq!(u64::from_le_bytes(data[1..9].try_into().unwrap()), 250_000);
}

#[test]
fn test_registry_initialize_packing() {
    let token_program = unique_key();
    let data = pack_registry_initialize(100_000, &token_program);
    assert_eq!(data[0], 0);
    assert_eq!(u64::from_le_bytes(data[1..9].try_into().unwrap()), 100_000);
    assert_eq!(&data[9..41], &token_program.0[..]);
}

#[test]
fn test_register_packing() {
    let name = "alice";
    let mut name_array = [0u8; 32];
    name_array[..name.len()].copy_from_slice(name.as_bytes());
    let data = pack_register(&name_array, name.len() as u8);
    assert_eq!(data[0], 1);
    assert_eq!(&data[1..6], b"alice");
    assert_eq!(data[33], 5);
}

#[test]
fn test_signals_initialize_packing() {
    let token_program = unique_key();
    let data = pack_signals_initialize(&token_program, 1);
    assert_eq!(data[0], 0);
    assert_eq!(&data[1..33], &token_program.0[..]);
    assert_eq!(u64::from_le_bytes(data[33..41].try_into().unwrap()), 1);
}

#[test]
fn test_signal_packing() {
    let target = unique_key();
    let data = pack_signal(SignalKind::Follow, &target);
    assert_eq!(data[0], 1);
    assert_eq!(data[1], SignalKind::Follow as u8);
    assert_eq!(&data[2..34], &target.0[..]);
}

#[test]
fn test_pda_derivation() {
    let program_id = unique_key();
    let (pda1, bump1) = derive_token_config_pda(&program_id).unwrap();
    let (pda2, bump2) = derive_token_config_pda(&program_id).unwrap();
    assert_eq!(pda1, pda2);
    assert_eq!(bump1, bump2);
    assert_ne!(pda1, program_id);
}

#[test]
fn test_token_balance_pda_derivation() {
    let program_id = unique_key();
    let owner = unique_key();
    let (pda1, bump1) = derive_token_balance_pda(&owner, &program_id).unwrap();
    let (pda2, bump2) = derive_token_balance_pda(&owner, &program_id).unwrap();
    assert_eq!(pda1, pda2);
    assert_eq!(bump1, bump2);
    assert_ne!(pda1, owner);
}

#[test]
fn test_registry_config_pda_derivation() {
    let program_id = unique_key();
    let (pda1, bump1) = derive_registry_config_pda(&program_id).unwrap();
    let (pda2, bump2) = derive_registry_config_pda(&program_id).unwrap();
    assert_eq!(pda1, pda2);
    assert_eq!(bump1, bump2);
    assert_ne!(pda1, program_id);
}

#[test]
fn test_name_record_pda_derivation() {
    let program_id = unique_key();
    let name = b"alice";
    let (pda1, bump1) = derive_name_record_pda(name, &program_id).unwrap();
    let (pda2, bump2) = derive_name_record_pda(name, &program_id).unwrap();
    assert_eq!(pda1, pda2);
    assert_eq!(bump1, bump2);
    assert_ne!(pda1, program_id);
}

#[test]
fn test_signals_config_pda_derivation() {
    let program_id = unique_key();
    let (pda1, bump1) = derive_signals_config_pda(&program_id).unwrap();
    let (pda2, bump2) = derive_signals_config_pda(&program_id).unwrap();
    assert_eq!(pda1, pda2);
    assert_eq!(bump1, bump2);
    assert_ne!(pda1, program_id);
}

#[test]
fn pda_matches_the_chain_library() {
    let program_id = solana_pubkey::Pubkey::new_unique();
    let owner = solana_pubkey::Pubkey::new_unique();
    let (expected, bump) = solana_pubkey::Pubkey::find_program_address(&[b"balance", owner.as_ref()], &program_id);
    let (pda, b) = derive_token_balance_pda(&Pubkey(owner.to_bytes()), &Pubkey(program_id.to_bytes())).unwrap();
    assert_eq!(pda.0, expected.to_bytes());
    assert_eq!(b, bump);
}

#[test]
fn validate_name_normalizes_and_reports_each_error() {
    let ok = validate_name("AlIcE").unwrap();
    assert_eq!(&ok[..5], b"alice");
    assert!(ok[5..].iter().all(|b| *b == 0));
    assert_eq!(validate_name("ab"), Err(ValidationError::TooShort));
    assert_eq!(validate_name(&"a".repeat(33)), Err(ValidationError::TooLong));
    assert_eq!(validate_name("alice123"), Err(ValidationError::InvalidCharacters));
    assert_eq!(validate_name("ali ce"), Err(ValidationError::InvalidCharacters));
    // Length goes by UTF-8 bytes: two two-byte letters are four bytes.
    assert_eq!(validate_name("éé"), Err(ValidationError::InvalidCharacters));
    assert_eq!(validate_name("é"), Err(ValidationError::TooShort));
    assert_eq!(validate_name(&"a".repeat(32)).unwrap(), [b'a'; 32]);
}

#[test]
fn validation_messages() {
    assert_eq!(ValidationError::TooShort.message(), "Name too short: must be at least 3 characters");
    assert_eq!(ValidationError::TooLong.message(), "Name too long: must be at most 32 characters");
    assert_eq!(ValidationError::InvalidCharacters.message(), "Name contains invalid characters: only a-z allowed");
}

#[test]
fn decoders_read_layouts_and_refuse_short_data() {
    let mut config = vec![0u8; 48];
    config[..32].copy_from_slice(&[7u8; 32]);
    config[32..40].copy_from_slice(&1_000u64.to_le_bytes());
    config[40] = 9;
    config[41] = 254;
    let c = decode_token_config(&config).unwrap();
    assert_eq!(c.authority.0, [7u8; 32]);
    assert_eq!(c.total_supply, 1_000);
    assert_eq!(c.decimals, 9);
    assert_eq!(c.bump, 254);
    assert!(decode_token_config(&config[..47]).is_none());

    let b = decode_token_balance(&config).unwrap();
    assert_eq!(b.amount, 1_000);
    assert_eq!(b.bump, 9);
    assert!(decode_token_balance(&[0u8; 10]).is_none());

    let r = decode_registry_config(&config).unwrap();
    assert_eq!(r.price, u64::from_le_bytes([7u8; 8]));
    assert!(decode_registry_config(&[]).is_none());

    let mut record = vec![0u8; 72];
    record[32..37].copy_from_slice(b"alice");
    record[64] = 5;
    let n = decode_name_record(&record).unwrap();
    assert_eq!(n.len, 5);
    assert_eq!(&n.name[..5], b"alice");
    assert!(decode_name_record(&record[..71]).is_none());

    let mut signals = vec![0u8; 80];
    signals[64..72].copy_from_slice(&5u64.to_le_bytes());
    signals[72] = 3;
    let s = decode_signals_config(&signals).unwrap();
    assert_eq!(s.min_balance, 5);
    assert_eq!(s.bump, 3);
    assert!(decode_signals_config(&signals[..79]).is_none());
}

#[test]
fn the_name_check_ignores_case() {
    assert_eq!(validate_name("AlIcE"), validate_name("alice"));
    assert_eq!(validate_name("AlIcE"), validate_name("ALICE"));
    assert_eq!(validate_name("Al1cE"), validate_name("AL1CE"));
    assert_eq!(validate_name("AB"), validate_name("ab"));
}
