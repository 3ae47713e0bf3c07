//! The clients of the three programs: the instructions they build, the accounts they
//! read, and the values a backend hands them.
pub mod backend;
pub mod error;

pub use backend::{
    Account, AccountInfo, InstructionInfo, ParsedTransaction, ProgramAccountsFilter, SignatureInfo,
    SignaturesForAddressOptions, TransactionMessage,
};
pub use error::Error;
pub mod token;
pub mod role;
pub mod names;
pub mod signals;
pub mod query;
pub mod http;
pub mod rpc;
pub mod memory;
