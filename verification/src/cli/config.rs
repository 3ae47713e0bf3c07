//! Where the tool's settings come from: a flag, the config file, the environment, or a
//! default, in that order; and `~` in paths.
use vstd::prelude::*;
use vstd::string::*;
use crate::keys::{parse_pubkey, pubkey_parse, Pubkey};

verus! {

/// A command failed.
#[derive(Clone, Debug, PartialEq, Eq)]
pub struct CliError(pub String);

impl CliError {
    /// The message the error displays.
    pub fn message(&self) -> (s: String)
        ensures
            s@ == self.0@,
    {
        self.0.clone()
    }
}

pub const ENV_TOKEN_PROGRAM_ID: &'static str = "SURF_TOKEN_PROGRAM_ID";
pub const ENV_REGISTRY_PROGRAM_ID: &'static str = "SURF_REGISTRY_PROGRAM_ID";
pub const ENV_SIGNALS_PROGRAM_ID: &'static str = "SURF_SIGNALS_PROGRAM_ID";
pub const ENV_RPC_URL: &'static str = "SURF_TEST_VALIDATOR_URL";
pub const ENV_KEYPAIR: &'static str = "SURF_KEYPAIR";
pub const DEFAULT_CONFIG_PATH: &'static str = "~/.config/surf-cli/config.json";
pub const DEFAULT_KEYPAIR: &'static str = "~/.config/solana/id.json";

/// The message of a setting found nowhere: the flag, the variable and the config file
/// that could have given it.
pub open spec fn missing_message(label: Seq<char>, env_key: Option<Seq<char>>, flag_name: Option<Seq<char>>) -> Seq<char> {
    let flag_part = match flag_name {
        Some(f) => "--"@ + f + ", "@,
        None => seq![],
    };
    let env_part = match env_key {
        Some(k) => k + ", "@,
        None => seq![],
    };
    "missing "@ + label + "; provide "@ + flag_part + env_part + "the config file"@
}

/// The value of a setting: the flag's, else the file's, else the environment variable's
/// (when a variable is named and set), else the default; an error naming where it could
/// come from when there is none.
pub open spec fn resolved(flag: Option<Seq<char>>, file: Option<Seq<char>>, env_key: Option<Seq<char>>,
    env_value: Option<Seq<char>>, default: Option<Seq<char>>, label: Seq<char>, flag_name: Option<Seq<char>>) -> Result<Seq<char>, Seq<char>> {
    if flag is Some {
        Ok(flag->Some_0)
    } else if file is Some {
        Ok(file->Some_0)
    } else if env_key is Some && env_value is Some {
        Ok(env_value->Some_0)
    } else if default is Some {
        Ok(default->Some_0)
    } else {
        Err(missing_message(label, env_key, flag_name))
    }
}

pub open spec fn opt_view(o: Option<&str>) -> Option<Seq<char>> {
    match o {
        Some(s) => Some(s@),
        None => None,
    }
}

pub open spec fn opt_string_view(o: Option<String>) -> Option<Seq<char>> {
    match o {
        Some(s) => Some(s@),
        None => None,
    }
}

/// Resolves a setting; `env_value` is what the environment holds for `env_key`.
pub fn resolve_string_option(flag_value: Option<&str>, file_value: Option<&str>, env_key: Option<&str>,
    env_value: Option<&str>, default_value: Option<String>, label: &str, flag_name: Option<&str>) -> (r: Result<String, CliError>)
    ensures
        match resolved(opt_view(flag_value), opt_view(file_value), opt_view(env_key), opt_view(env_value),
            opt_string_view(default_value), label@, opt_view(flag_name)) {
            Ok(v) => r matches Ok(s) && s@ == v,
            Err(m) => r matches Err(e) && e.0@ == m,
        },
{
    if let Some(value) = flag_value {
        return Ok(String::from_str(value));
    }
    if let Some(value) = file_value {
        return Ok(String::from_str(value));
    }
    if let Some(_) = env_key {
        if let Some(value) = env_value {
            return Ok(String::from_str(value));
        }
    }
    if let Some(value) = default_value {
        return Ok(value);
    }
    let mut m = String::from_str("missing ");
    m.append(label);
    m.append("; provide ");
    if let Some(f) = flag_name {
        m.append("--");
        m.append(f);
        m.append(", ");
    }
    if let Some(k) = env_key {
        m.append(k);
        m.append(", ");
    }
    m.append("the config file");
    Err(CliError(m))
}

/// Parses an address given on the command line.
pub fn parse_pubkey_arg(value: &str, label: &str) -> (r: Result<Pubkey, CliError>)
    ensures
        match pubkey_parse(value@) {
            Some(k) => r matches Ok(p) && p@ == k,
            None => r matches Err(e) && e.0@ == "invalid "@ + label@ + ": "@ + value@,
        },
{
    match parse_pubkey(value) {
        Some(k) => Ok(k),
        None => {
            let mut m = String::from_str("invalid ");
            m.append(label);
            m.append(": ");
            m.append(value);
            Err(CliError(m))
        },
    }
}

/// Resolves a program address setting (no default), then parses it.
pub fn resolve_program_id(flag_value: Option<&str>, file_value: Option<&str>, env_key: Option<&str>,
    env_value: Option<&str>, label: &str, flag_name: &str) -> (r: Result<Pubkey, CliError>)
    ensures
        match resolved(opt_view(flag_value), opt_view(file_value), opt_view(env_key), opt_view(env_value), None, label@,
            Some(flag_name@)) {
            Err(m) => r matches Err(e) && e.0@ == m,
            Ok(v) => match pubkey_parse(v) {
                Some(k) => r matches Ok(p) && p@ == k,
                None => r matches Err(e) && e.0@ == "invalid "@ + label@ + ": "@ + v,
            },
        },
{
    let value = match resolve_string_option(flag_value, file_value, env_key, env_value, None, label, Some(flag_name)) {
        Ok(v) => v,
        Err(e) => return Err(e),
    };
    parse_pubkey_arg(value.as_str(), label)
}

/// `base` joined with the relative path `rest`, as `Path::join` joins them.
pub uninterp spec fn path_joined(base: Seq<char>, rest: Seq<char>) -> Seq<char>;

/// `Path::new(base).join(rest)`, as text; named `path_joined` of the two.
#[verifier::external_body]
fn join_path(base: &str, rest: &str) -> (s: String)
    ensures
        s@ == path_joined(base@, rest@),
{
    std::path::Path::new(base).join(rest).to_string_lossy().into_owned()
}

/// The message of a home-relative path when `HOME` is not set.
pub open spec fn home_missing() -> Seq<char> {
    "HOME is not set"@
}

/// A path with a leading `~` read as the home directory: `~` alone is the home
/// directory, `~/rest` is `rest` under it, and any other path is kept as it is.
pub open spec fn tilde_expanded(path: Seq<char>, home: Option<Seq<char>>) -> Result<Seq<char>, Seq<char>> {
    if path == seq!['~'] {
        match home {
            Some(h) => Ok(h),
            None => Err(home_missing()),
        }
    } else if path.len() >= 2 && path[0] == '~' && path[1] == '/' {
        match home {
            Some(h) => Ok(path_joined(h, path.subrange(2, path.len() as int))),
            None => Err(home_missing()),
        }
    } else {
        Ok(path)
    }
}

/// Expands a leading `~`; `home` is the value of `HOME`, if set.
pub fn expand_tilde(path: &str, home: Option<&str>) -> (r: Result<String, CliError>)
    ensures
        match tilde_expanded(path@, opt_view(home)) {
            Ok(p) => r matches Ok(s) && s@ == p,
            Err(m) => r matches Err(e) && e.0@ == m,
        },
{
    let n = path.unicode_len();
    let is_tilde = n == 1 && path.get_char(0) == '~';
    if is_tilde {
        assert(path@ =~= seq!['~']);
        return match home {
            Some(h) => Ok(String::from_str(h)),
            None => Err(CliError(String::from_str("HOME is not set"))),
        };
    }
    if n >= 2 && path.get_char(0) == '~' && path.get_char(1) == '/' {
        let rest = path.substring_char(2, n);
        return match home {
            Some(h) => Ok(join_path(h, rest)),
            None => Err(CliError(String::from_str("HOME is not set"))),
        };
    }
    if n == 1 {
        assert(path@ != seq!['~']) by {
            if path@ == seq!['~'] {
                assert(path@[0] == '~');
            }
        }
    }
    Ok(String::from_str(path))
}

/// Resolves the keypair path setting, then expands `~` in it.
pub fn resolve_keypair_path(flag_value: Option<&str>, file_value: Option<&str>, env_key: Option<&str>,
    env_value: Option<&str>, default_value: Option<String>, home: Option<&str>) -> (r: Result<String, CliError>)
    ensures
        match resolved(opt_view(flag_value), opt_view(file_value), opt_view(env_key), opt_view(env_value),
            opt_string_view(default_value), "keypair path"@, Some("keypair"@)) {
            Err(m) => r matches Err(e) && e.0@ == m,
            Ok(v) => match tilde_expanded(v, opt_view(home)) {
                Ok(p) => r matches Ok(s) && s@ == p,
                Err(m) => r matches Err(e) && e.0@ == m,
            },
        },
{
    let value = match resolve_string_option(flag_value, file_value, env_key, env_value, default_value, "keypair path",
        Some("keypair")) {
        Ok(v) => v,
        Err(e) => return Err(e),
    };
    expand_tilde(value.as_str(), home)
}

/// The config file's path: the given one, or the default, with `~` expanded.
pub fn resolve_config_path(path: Option<&str>, home: Option<&str>) -> (r: Result<String, CliError>)
    ensures
        match tilde_expanded(match path { Some(p) => p@, None => DEFAULT_CONFIG_PATH@ }, opt_view(home)) {
            Ok(p) => r matches Ok(s) && s@ == p,
            Err(m) => r matches Err(e) && e.0@ == m,
        },
{
    let value = match path {
        Some(p) => p,
        None => DEFAULT_CONFIG_PATH,
    };
    expand_tilde(value, home)
}

} // verus!
