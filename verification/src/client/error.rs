//! The errors the clients report.
use vstd::prelude::*;
use vstd::string::*;
use crate::keys::{pubkey_text, pubkey_to_string, Pubkey};

verus! {

#[derive(Clone, Debug, PartialEq, Eq)]
pub enum Error {
    AccountNotFound(Pubkey),
    TransactionFailed(String),
    InvalidAccountData,
    SigningFailed(String),
    Backend(String),
    Validation(String),
    InsufficientFunds,
    InvalidSigner,
}

/// The message each error displays.
pub open spec fn error_text(e: Error) -> Seq<char> {
    match e {
        Error::AccountNotFound(key) => "Account not found: "@ + pubkey_text(key@),
        Error::TransactionFailed(m) => "Transaction failed: "@ + m@,
        Error::InvalidAccountData => "Invalid account data"@,
        Error::SigningFailed(m) => "Signing failed: "@ + m@,
        Error::Backend(m) => "Backend error: "@ + m@,
        Error::Validation(m) => "Validation error: "@ + m@,
        Error::InsufficientFunds => "Insufficient funds"@,
        Error::InvalidSigner => "Invalid signer"@,
    }
}

fn prefixed(prefix: &str, rest: &str) -> (s: String)
    ensures
        s@ == prefix@ + rest@,
{
    let mut s = String::from_str(prefix);
    s.append(rest);
    s
}

impl Error {
    /// The message the error displays.
    pub fn message(&self) -> (s: String)
        ensures
            s@ == error_text(*self),
    {
        match self {
            Error::AccountNotFound(key) => {
                let text = pubkey_to_string(key);
                prefixed("Account not found: ", text.as_str())
            },
            Error::TransactionFailed(m) => prefixed("Transaction failed: ", m.as_str()),
            Error::InvalidAccountData => String::from_str("Invalid account data"),
            Error::SigningFailed(m) => prefixed("Signing failed: ", m.as_str()),
            Error::Backend(m) => prefixed("Backend error: ", m.as_str()),
            Error::Validation(m) => prefixed("Validation error: ", m.as_str()),
            Error::InsufficientFunds => String::from_str("Insufficient funds"),
            Error::InvalidSigner => String::from_str("Invalid signer"),
        }
    }
}

} // verus!
