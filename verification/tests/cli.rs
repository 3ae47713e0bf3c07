use surf::cli::config::{expand_tilde, parse_pubkey_arg, resolve_config_path, resolve_keypair_path, resolve_program_id, resolve_string_option, CliError};
use surf::cli::events::{build_subject, EventType, EventsError};
use surf::cli::names::{decode_name, name_owner_target, normalize_name, self_signal_error};
use surf::cli::listing::name_listing;
use surf::client::{Account, AccountInfo};
use surf::keys::Pubkey;
use surf::protocol::NameRecord;

fn unique_key() -> Pubkey {
    Pubkey(solana_pubkey::Pubkey::new_unique().to_bytes())
}

#[test]
fn normalizes_name_to_lowercase() {
    let normalized = normalize_name("AlIcE").expect("name should normalize");
    assert_eq!(normalized, "alice");
}

#[test]
fn normalize_name_reports_the_check() {
    assert_eq!(normalize_name("a1c").unwrap_err(), CliError("Name contains invalid characters: only a-z allowed".to_string()));
}

#[test]
fn decodes_name_record_text() {
    let mut name = [0u8; 32];
    name[..5].copy_from_slice(b"alice");
    let record = NameRecord { owner: unique_key(), name, len: 5 };
    assert_eq!(decode_name(&record), "alice");
}

#[test]
fn expands_tilde_path() {
    let path = expand_tilde("~/.config/solana/id.json", Some("/home/user")).expect("tilde expansion should work");
    assert_eq!(path, "/home/user/.config/solana/id.json");
    assert_eq!(expand_tilde("~", Some("/home/user")).unwrap(), "/home/user");
    assert_eq!(expand_tilde("/etc/x", None).unwrap(), "/etc/x");
    assert_eq!(expand_tilde("~x", None).unwrap(), "~x");
    assert_eq!(expand_tilde("~/x", None).unwrap_err(), CliError("HOME is not set".to_string()));
}

#[test]
fn resolves_program_id_from_file_when_flag_and_env_missing() {
    let token_program = solana_pubkey::Pubkey::new_unique();
    let text = token_program.to_string();
    let resolved = resolve_program_id(None, Some(text.as_str()), Some("SURF_TOKEN_PROGRAM_ID"), None, "token program id", "token-program")
        .expect("program id should resolve from file");
    assert_eq!(resolved.0, token_program.to_bytes());
}

#[test]
fn resolves_keypair_path_from_file_when_flag_missing() {
    let path = resolve_keypair_path(None, Some("~/.config/solana/id.json"), Some("SURF_KEYPAIR"), None,
        Some("~/.config/solana/id.json".to_string()), Some("/home/user")).expect("keypair path should resolve");
    assert_eq!(path, "/home/user/.config/solana/id.json");
}

#[test]
fn settings_come_from_flag_file_environment_then_default() {
    assert_eq!(resolve_string_option(Some("f"), Some("c"), Some("K"), Some("e"), Some("d".to_string()), "x", Some("x")).unwrap(), "f");
    assert_eq!(resolve_string_option(None, Some("c"), Some("K"), Some("e"), Some("d".to_string()), "x", Some("x")).unwrap(), "c");
    assert_eq!(resolve_string_option(None, None, Some("K"), Some("e"), Some("d".to_string()), "x", Some("x")).unwrap(), "e");
    assert_eq!(resolve_string_option(None, None, None, Some("e"), Some("d".to_string()), "x", Some("x")).unwrap(), "d");
    assert_eq!(
        resolve_string_option(None, None, Some("SURF_RPC"), None, None, "rpc url", Some("rpc-url")).unwrap_err(),
        CliError("missing rpc url; provide --rpc-url, SURF_RPC, the config file".to_string())
    );
    assert_eq!(parse_pubkey_arg("zz", "owner pubkey").unwrap_err(), CliError("invalid owner pubkey: zz".to_string()));
    assert_eq!(resolve_config_path(None, Some("/h")).unwrap(), "/h/.config/surf-cli/config.json");
}

#[test]
fn event_types_and_subjects() {
    assert_eq!(EventType::from_str("balance.updated"), Some(EventType::BalanceUpdated));
    assert_eq!(EventType::from_str("nope"), None);
    assert_eq!(EventType::all().len(), 6);
    for name in EventType::all() {
        assert!(EventType::from_str(name).is_some());
    }
    let key = solana_pubkey::Pubkey::new_unique();
    let ours = Pubkey(key.to_bytes());
    assert_eq!(build_subject(Some(&ours), Some("follow.removed")).unwrap(), format!("surf.user.{key}.follows"));
    assert_eq!(build_subject(Some(&ours), None).unwrap(), format!("surf.user.{key}.*"));
    assert_eq!(build_subject(None, None).unwrap(), "surf.>");
    assert_eq!(build_subject(None, Some("unknown.type")).unwrap(), "surf.>");
    assert_eq!(build_subject(None, Some("name.registered")).unwrap(), "surf.global.names");
    assert_eq!(
        build_subject(Some(&ours), Some("name.registered")).unwrap_err(),
        EventsError("name.registered events are global; omit --pubkey for global events".to_string())
    );
    assert_eq!(
        build_subject(None, Some("balance.updated")).unwrap_err(),
        EventsError("event type 'balance.updated' requires --pubkey; valid types: follow.created, follow.removed, name.registered, balance.updated, lamports.updated, activity.recorded".to_string())
    );
}

#[test]
fn names_resolve_to_other_owners_only() {
    let me = unique_key();
    let other = unique_key();
    let mut name = [0u8; 32];
    name[..5].copy_from_slice(b"alice");
    assert_eq!(name_owner_target("alice", Some(NameRecord { owner: other, name, len: 5 }), &me).unwrap(), other);
    assert_eq!(
        name_owner_target("selfname", Some(NameRecord { owner: me, name, len: 5 }), &me).unwrap_err(),
        CliError("name 'selfname' resolves to your own account; use another user name".to_string())
    );
    assert_eq!(
        name_owner_target("missingname", None, &me).unwrap_err(),
        CliError("name 'missingname' was not found in the SURF registry".to_string())
    );
    assert_eq!(self_signal_error(&me, &me, Some("bob"), true), Some(CliError("cannot follow yourself via bob".to_string())));
    assert_eq!(self_signal_error(&me, &me, None, false), Some(CliError("cannot unfollow yourself via that account".to_string())));
    assert_eq!(self_signal_error(&me, &other, None, false), None);
}

#[test]
fn names_are_listed_in_name_order() {
    let registry = unique_key();
    let record = |owner: &Pubkey, name: &[u8]| {
        let mut d = vec![0u8; 72];
        d[..32].copy_from_slice(&owner.0);
        d[32..32 + name.len()].copy_from_slice(name);
        d[64] = name.len() as u8;
        d
    };
    let owner = unique_key();
    let accounts = vec![
        AccountInfo { pubkey: unique_key(), account: Account { lamports: 1, data: record(&owner, b"what"), owner: registry, executable: false, rent_epoch: 0 } },
        AccountInfo { pubkey: unique_key(), account: Account { lamports: 1, data: vec![1, 2, 3], owner: registry, executable: false, rent_epoch: 0 } },
        AccountInfo { pubkey: unique_key(), account: Account { lamports: 1, data: record(&owner, b"foobar"), owner: registry, executable: false, rent_epoch: 0 } },
        AccountInfo { pubkey: unique_key(), account: Account { lamports: 1, data: record(&owner, b"foo"), owner: registry, executable: false, rent_epoch: 0 } },
    ];
    let listed = name_listing(&accounts);
    let names: Vec<&str> = listed.iter().map(|l| l.name.as_str()).collect();
    assert_eq!(names, vec!["foo", "foobar", "what"]);
    assert_eq!(listed[0].owner, owner);
    assert_eq!(listed[2].account, accounts[0].pubkey);
}

#[test]
fn equal_names_keep_their_account_order() {
    let registry = unique_key();
    let record = |owner: &Pubkey, name: &[u8]| {
        let mut d = vec![0u8; 72];
        d[..32].copy_from_slice(&owner.0);
        d[32..32 + name.len()].copy_from_slice(name);
        d[64] = name.len() as u8;
        d
    };
    let first = unique_key();
    let second = unique_key();
    let third = unique_key();
    let accounts = vec![
        AccountInfo { pubkey: unique_key(), account: Account { lamports: 1, data: record(&first, b"same"), owner: registry, executable: false, rent_epoch: 0 } },
        AccountInfo { pubkey: unique_key(), account: Account { lamports: 1, data: record(&third, b"abc"), owner: registry, executable: false, rent_epoch: 0 } },
        AccountInfo { pubkey: unique_key(), account: Account { lamports: 1, data: record(&second, b"same"), owner: registry, executable: false, rent_epoch: 0 } },
    ];
    let listed = name_listing(&accounts);
    assert_eq!(listed.len(), 3);
    assert_eq!(listed[0].owner, third);
    assert_eq!(listed[1].owner, first);
    assert_eq!(listed[2].owner, second);
}
