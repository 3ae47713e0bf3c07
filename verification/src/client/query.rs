//! Reading the programs' accounts once a backend has fetched them.
use vstd::prelude::*;
use crate::keys::Pubkey;
use crate::protocol::state::{
    registry_config_in, signals_config_in, token_balance_in, token_config_in, RegistryConfig, SignalsConfig,
    TokenBalance, TokenConfig,
};
use crate::protocol::{decode_registry_config, decode_signals_config, decode_token_balance, decode_token_config};
use super::backend::Account;
use super::error::Error;

verus! {

/// Reads the token configuration from the fetched account at `address`: an error when
/// it does not exist, or when its bytes are too short.
pub fn read_token_config(address: &Pubkey, account: &Option<Account>) -> (r: Result<TokenConfig, Error>)
    ensures
        match *account {
            None => r == Err::<TokenConfig, Error>(Error::AccountNotFound(*address)),
            Some(a) => match r {
                Ok(c) => token_config_in(a.data@, c),
                Err(e) => e == Error::InvalidAccountData && a.data@.len() < TokenConfig::LEN,
            },
        },
{
    match account {
        None => Err(Error::AccountNotFound(*address)),
        Some(a) => match decode_token_config(a.data.as_slice()) {
            Some(c) => Ok(c),
            None => Err(Error::InvalidAccountData),
        },
    }
}

/// Reads the token amount from the fetched balance account at `address`: an error when
/// it does not exist, or when its bytes are too short.
pub fn read_balance(address: &Pubkey, account: &Option<Account>) -> (r: Result<u64, Error>)
    ensures
        match *account {
            None => r == Err::<u64, Error>(Error::AccountNotFound(*address)),
            Some(a) => match r {
                Ok(amount) => exists|b: TokenBalance| #[trigger] token_balance_in(a.data@, b) && b.amount == amount,
                Err(e) => e == Error::InvalidAccountData && a.data@.len() < TokenBalance::LEN,
            },
        },
{
    match account {
        None => Err(Error::AccountNotFound(*address)),
        Some(a) => match decode_token_balance(a.data.as_slice()) {
            Some(b) => Ok(b.amount),
            None => Err(Error::InvalidAccountData),
        },
    }
}

/// Reads the registry configuration from the fetched account at `address`.
pub fn read_registry_config(address: &Pubkey, account: &Option<Account>) -> (r: Result<RegistryConfig, Error>)
    ensures
        match *account {
            None => r == Err::<RegistryConfig, Error>(Error::AccountNotFound(*address)),
            Some(a) => match r {
                Ok(c) => registry_config_in(a.data@, c),
                Err(e) => e == Error::InvalidAccountData && a.data@.len() < RegistryConfig::LEN,
            },
        },
{
    match account {
        None => Err(Error::AccountNotFound(*address)),
        Some(a) => match decode_registry_config(a.data.as_slice()) {
            Some(c) => Ok(c),
            None => Err(Error::InvalidAccountData),
        },
    }
}

/// Reads the signals configuration from the fetched account at `address`.
pub fn read_signals_config(address: &Pubkey, account: &Option<Account>) -> (r: Result<SignalsConfig, Error>)
    ensures
        match *account {
            None => r == Err::<SignalsConfig, Error>(Error::AccountNotFound(*address)),
            Some(a) => match r {
                Ok(c) => signals_config_in(a.data@, c),
                Err(e) => e == Error::InvalidAccountData && a.data@.len() < SignalsConfig::LEN,
            },
        },
{
    match account {
        None => Err(Error::AccountNotFound(*address)),
        Some(a) => match decode_signals_config(a.data.as_slice()) {
            Some(c) => Ok(c),
            None => Err(Error::InvalidAccountData),
        },
    }
}

} // verus!
