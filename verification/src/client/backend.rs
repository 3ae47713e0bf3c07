//! What a backend hands the clients: accounts, signature lists and transactions, as
//! plain values.
use vstd::prelude::*;
use crate::keys::{Pubkey, Signature};

verus! {

/// An account's state.
#[derive(Clone, Debug, PartialEq, Eq)]
pub struct Account {
    pub lamports: u64,
    pub data: Vec<u8>,
    pub owner: Pubkey,
    pub executable: bool,
    pub rent_epoch: u64,
}

/// The mathematical content of an account.
pub struct AccountView {
    pub lamports: u64,
    pub data: Seq<u8>,
    pub owner: Seq<u8>,
    pub executable: bool,
    pub rent_epoch: u64,
}

impl View for Account {
    type V = AccountView;

    open spec fn view(&self) -> AccountView {
        AccountView {
            lamports: self.lamports,
            data: self.data@,
            owner: self.owner@,
            executable: self.executable,
            rent_epoch: self.rent_epoch,
        }
    }
}

impl Account {
    /// A copy of the account.
    pub fn copy(&self) -> (r: Account)
        ensures
            r@ == self@,
    {
        let data = self.data.clone();
        assert(data@ =~= self.data@);
        Account { lamports: self.lamports, data, owner: self.owner, executable: self.executable, rent_epoch: self.rent_epoch }
    }
}

/// Account with its pubkey, returned from get_program_accounts.
#[derive(Clone, Debug)]
pub struct AccountInfo {
    pub pubkey: Pubkey,
    pub account: Account,
}

/// Transaction signature info for address monitoring.
#[derive(Clone, Copy, Debug)]
pub struct SignatureInfo {
    pub signature: Signature,
    pub slot: u64,
    pub block_time: Option<i64>,
}

/// Options for filtering get_program_accounts results.
#[derive(Clone, Copy, Debug)]
pub struct ProgramAccountsFilter {
    pub data_size: Option<usize>,
}

/// Options for get_signatures_for_address.
#[derive(Clone, Copy, Debug)]
pub struct SignaturesForAddressOptions {
    pub before: Option<Signature>,
    pub until: Option<u64>,
    pub limit: Option<usize>,
}

/// Parsed transaction with metadata.
#[derive(Clone, Debug)]
pub struct ParsedTransaction {
    pub slot: u64,
    pub block_time: Option<i64>,
    pub signatures: Vec<Signature>,
    pub message: TransactionMessage,
}

/// Transaction message with account keys and instructions.
#[derive(Clone, Debug)]
pub struct TransactionMessage {
    pub account_keys: Vec<Pubkey>,
    pub instructions: Vec<InstructionInfo>,
}

/// Instruction information extracted from a transaction.
#[derive(Clone, Debug)]
pub struct InstructionInfo {
    pub program_id_index: u8,
    pub accounts: Vec<u8>,
    pub data: Vec<u8>,
}

impl Default for ProgramAccountsFilter {
    fn default() -> (f: ProgramAccountsFilter)
        ensures
            f.data_size is None,
    {
        ProgramAccountsFilter { data_size: None }
    }
}

impl Default for SignaturesForAddressOptions {
    fn default() -> (o: SignaturesForAddressOptions)
        ensures
            o.before is None,
            o.until is None,
            o.limit is None,
    {
        SignaturesForAddressOptions { before: None, until: None, limit: None }
    }
}

} // verus!
