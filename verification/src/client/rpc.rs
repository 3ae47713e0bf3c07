//! The JSON-RPC shapes an HTTP backend exchanges with a validator, and how their results
//! become the values the clients use.
use vstd::prelude::*;
use vstd::string::*;
use base64::Engine;
use crate::keys::{parse_pubkey, parse_signature, pubkey_parse, signature_parse, Pubkey, Signature};
use crate::text::{i64_decimal, signed_decimal};
use super::backend::{Account, AccountInfo, InstructionInfo, ParsedTransaction, SignatureInfo, TransactionMessage};
use super::error::Error;

verus! {

#[verifier::external_type_specification]
#[verifier::external_body]
pub struct ExJsonValue(serde_json::Value);

pub const METHOD_GET_ACCOUNT_INFO: &'static str = "getAccountInfo";
pub const METHOD_GET_BALANCE: &'static str = "getBalance";
pub const METHOD_GET_LATEST_BLOCKHASH: &'static str = "getLatestBlockhash";
pub const METHOD_GET_MINIMUM_BALANCE_FOR_RENT_EXEMPTION: &'static str = "getMinimumBalanceForRentExemption";
pub const METHOD_SEND_TRANSACTION: &'static str = "sendTransaction";
pub const METHOD_GET_PROGRAM_ACCOUNTS: &'static str = "getProgramAccounts";
pub const METHOD_GET_SIGNATURES_FOR_ADDRESS: &'static str = "getSignaturesForAddress";
pub const METHOD_GET_TRANSACTION: &'static str = "getTransaction";

pub struct JsonRpcRequest {
    pub jsonrpc: &'static str,
    pub id: u64,
    pub method: &'static str,
    pub params: Vec<serde_json::Value>,
}

impl JsonRpcRequest {
    /// A JSON-RPC 2.0 request.
    pub fn new(id: u64, method: &'static str, params: Vec<serde_json::Value>) -> (r: JsonRpcRequest)
        ensures
            r.jsonrpc@ == "2.0"@,
            r.id == id,
            r.method == method,
            r.params == params,
    {
        JsonRpcRequest { jsonrpc: "2.0", id, method, params }
    }
}

pub struct JsonRpcResponse<T> {
    pub jsonrpc: String,
    pub id: u64,
    pub result: Option<T>,
    pub error: Option<JsonRpcError>,
}

#[derive(Debug)]
pub struct JsonRpcError {
    pub code: i64,
    pub message: String,
}

pub struct RpcContextResult<T> {
    pub value: Option<T>,
}

impl<T> Default for RpcContextResult<T> {
    fn default() -> (r: RpcContextResult<T>)
        ensures
            r.value is None,
    {
        RpcContextResult { value: None }
    }
}

pub struct AccountInfoResult {
    pub lamports: u64,
    pub data: Vec<String>,
    pub owner: String,
    pub executable: bool,
    pub rent_epoch: u64,
    pub space: u64,
}

pub struct BlockhashResult {
    pub blockhash: String,
    pub last_valid_block_height: u64,
}

impl Default for BlockhashResult {
    fn default() -> (r: BlockhashResult)
        ensures
            r.blockhash@ == Seq::<char>::empty(),
            r.last_valid_block_height == 0,
    {
        BlockhashResult { blockhash: String::new(), last_valid_block_height: 0 }
    }
}

pub struct SignatureInfoResult {
    pub signature: String,
    pub slot: u64,
    pub block_time: Option<i64>,
}

pub struct TransactionMetaInfo {
    pub slot: u64,
    pub block_time: Option<i64>,
    pub transaction: ParsedTransactionResult,
}

pub struct ParsedTransactionResult {
    pub signatures: Vec<String>,
    pub message: ParsedMessageResult,
}

pub struct ParsedMessageResult {
    pub account_keys: PubkeyStrings,
    pub instructions: Vec<ParsedInstructionResult>,
}

pub struct PubkeyStrings(pub Vec<String>);

pub struct ParsedInstructionResult {
    pub program_id_index: u8,
    pub accounts: Vec<u8>,
    pub data: String,
}

pub struct ProgramAccountResult {
    pub pubkey: String,
    pub account: AccountInfoResult,
}

/// What standard base64 (with padding) decodes the text to, or the decoder's message.
pub uninterp spec fn base64_decoded(text: Seq<char>) -> Result<Seq<u8>, Seq<char>>;

/// Decodes standard base64 with `base64::engine::general_purpose::STANDARD`; on failure
/// the decoder's error is turned into its displayed message. Both outcomes are named
/// `base64_decoded` of the text.
#[verifier::external_body]
fn base64_decode(text: &str) -> (r: Result<Vec<u8>, String>)
    ensures
        match r {
            Ok(bytes) => base64_decoded(text@) == Ok::<Seq<u8>, Seq<char>>(bytes@),
            Err(m) => base64_decoded(text@) == Err::<Seq<u8>, Seq<char>>(m@),
        },
{
    base64::engine::general_purpose::STANDARD.decode(text).map_err(|e| e.to_string())
}

/// `e` is a backend error with the given message.
pub open spec fn backend_error(e: Error, message: Seq<char>) -> bool {
    e matches Error::Backend(m) && m@ == message
}

fn backend(message: &str) -> (e: Error)
    ensures
        backend_error(e, message@),
{
    Error::Backend(String::from_str(message))
}

/// The result of a response: an RPC error when the response carries one, a missing
/// result when it carries neither.
pub fn rpc_result<T>(response: JsonRpcResponse<T>) -> (r: Result<T, Error>)
    ensures
        match response.error {
            Some(err) => r matches Err(e) && backend_error(e, "RPC error "@ + signed_decimal(err.code as int) + ": "@ + err.message@),
            None => match response.result {
                Some(v) => r == Ok::<T, Error>(v),
                None => r matches Err(e) && backend_error(e, "No result in response"@),
            },
        },
{
    match response.error {
        Some(err) => {
            let mut m = String::from_str("RPC error ");
            let code = i64_decimal(err.code);
            m.append(code.as_str());
            m.append(": ");
            m.append(err.message.as_str());
            Err(Error::Backend(m))
        },
        None => match response.result {
            Some(v) => Ok(v),
            None => Err(backend("No result in response")),
        },
    }
}

/// The bytes of an account's data field: its first entry decoded from base64 (nothing
/// when there is none), or the decoder's message.
pub open spec fn account_bytes(data: Seq<String>) -> Result<Seq<u8>, Seq<char>> {
    if data.len() == 0 {
        Ok(seq![])
    } else {
        base64_decoded(data[0]@)
    }
}

fn decode_account_data(data: &Vec<String>) -> (r: Result<Vec<u8>, Error>)
    ensures
        match account_bytes(data@) {
            Ok(bytes) => r matches Ok(v) && v@ == bytes,
            Err(m) => r matches Err(e) && backend_error(e, "Invalid base64 data: "@ + m),
        },
{
    if data.len() == 0 {
        return Ok(Vec::new());
    }
    match base64_decode(data[0].as_str()) {
        Ok(bytes) => Ok(bytes),
        Err(m) => {
            let mut msg = String::from_str("Invalid base64 data: ");
            msg.append(m.as_str());
            Err(Error::Backend(msg))
        },
    }
}

/// `a` holds what the RPC account result says.
pub open spec fn account_from(a: Account, acc: AccountInfoResult, data: Seq<u8>, owner: Seq<u8>) -> bool {
    &&& a.lamports == acc.lamports
    &&& a.data@ == data
    &&& a.owner@ == owner
    &&& a.executable == acc.executable
    &&& a.rent_epoch == acc.rent_epoch
}

/// The account an account-info result describes: its data decoded first, then its
/// owner parsed.
pub fn account_from_result(acc: AccountInfoResult) -> (r: Result<Account, Error>)
    ensures
        match account_bytes(acc.data@) {
            Err(m) => r matches Err(e) && backend_error(e, "Invalid base64 data: "@ + m),
            Ok(data) => match pubkey_parse(acc.owner@) {
                None => r matches Err(e) && backend_error(e, "Invalid owner pubkey"@),
                Some(owner) => r matches Ok(a) && account_from(a, acc, data, owner),
            },
        },
{
    let data = match decode_account_data(&acc.data) {
        Ok(d) => d,
        Err(e) => return Err(e),
    };
    let owner = match parse_pubkey(acc.owner.as_str()) {
        Some(k) => k,
        None => return Err(backend("Invalid owner pubkey")),
    };
    Ok(Account { lamports: acc.lamports, data, owner, executable: acc.executable, rent_epoch: acc.rent_epoch })
}

/// The account a program-account result describes: its address parsed first, then its
/// data decoded, then its owner parsed.
pub fn program_account_from_result(r: ProgramAccountResult) -> (out: Result<AccountInfo, Error>)
    ensures
        match pubkey_parse(r.pubkey@) {
            None => out matches Err(e) && backend_error(e, "Invalid pubkey in program account"@),
            Some(key) => match account_bytes(r.account.data@) {
                Err(m) => out matches Err(e) && backend_error(e, "Invalid base64 data: "@ + m),
                Ok(data) => match pubkey_parse(r.account.owner@) {
                    None => out matches Err(e) && backend_error(e, "Invalid owner pubkey in program account"@),
                    Some(owner) => out matches Ok(info) && info.pubkey@ == key && account_from(info.account, r.account, data, owner),
                },
            },
        },
{
    let pubkey = match parse_pubkey(r.pubkey.as_str()) {
        Some(k) => k,
        None => return Err(backend("Invalid pubkey in program account")),
    };
    let data = match decode_account_data(&r.account.data) {
        Ok(d) => d,
        Err(e) => return Err(e),
    };
    let owner = match parse_pubkey(r.account.owner.as_str()) {
        Some(k) => k,
        None => return Err(backend("Invalid owner pubkey in program account")),
    };
    let acc = r.account;
    Ok(AccountInfo {
        pubkey,
        account: Account { lamports: acc.lamports, data, owner, executable: acc.executable, rent_epoch: acc.rent_epoch },
    })
}

/// The signature info a signature result describes.
pub fn signature_info_from_result(r: SignatureInfoResult) -> (out: Result<SignatureInfo, Error>)
    ensures
        match signature_parse(r.signature@) {
            None => out matches Err(e) && backend_error(e, "Invalid signature in signature info"@),
            Some(sig) => out matches Ok(info) && info.signature@ == sig && info.slot == r.slot && info.block_time == r.block_time,
        },
{
    match parse_signature(r.signature.as_str()) {
        Some(sig) => Ok(SignatureInfo { signature: sig, slot: r.slot, block_time: r.block_time }),
        None => Err(backend("Invalid signature in signature info")),
    }
}

/// Every text parses as a signature.
pub open spec fn all_signatures(texts: Seq<String>) -> bool {
    forall|k: int| 0 <= k < texts.len() ==> signature_parse(#[trigger] texts[k]@) is Some
}

/// Every text parses as an address.
pub open spec fn all_pubkeys(texts: Seq<String>) -> bool {
    forall|k: int| 0 <= k < texts.len() ==> pubkey_parse(#[trigger] texts[k]@) is Some
}

/// Every instruction's data decodes from base64.
pub open spec fn all_decoded(ixs: Seq<ParsedInstructionResult>) -> bool {
    forall|k: int| 0 <= k < ixs.len() ==> base64_decoded(#[trigger] ixs[k].data@) is Ok
}

fn parse_signatures(texts: &Vec<String>) -> (r: Option<Vec<Signature>>)
    ensures
        match r {
            Some(sigs) => all_signatures(texts@) && sigs@.len() == texts@.len()
                && forall|k: int| 0 <= k < texts@.len() ==> signature_parse(texts@[k]@) == Some(#[trigger] sigs@[k]@),
            None => !all_signatures(texts@),
        },
{
    let mut sigs: Vec<Signature> = Vec::new();
    let mut i: usize = 0;
    while i < texts.len()
        invariant
            i <= texts@.len(),
            sigs@.len() == i,
            forall|k: int| 0 <= k < i ==> signature_parse(texts@[k]@) == Some(#[trigger] sigs@[k]@),
        decreases texts@.len() - i,
    {
        match parse_signature(texts[i].as_str()) {
            Some(s) => sigs.push(s),
            None => return None,
        }
        i = i + 1;
    }
    assert forall|k: int| 0 <= k < texts@.len() implies signature_parse(#[trigger] texts@[k]@) is Some by {
        assert(signature_parse(texts@[k]@) == Some(sigs@[k]@));
    }
    Some(sigs)
}

fn parse_pubkeys(texts: &Vec<String>) -> (r: Option<Vec<Pubkey>>)
    ensures
        match r {
            Some(keys) => all_pubkeys(texts@) && keys@.len() == texts@.len()
                && forall|k: int| 0 <= k < texts@.len() ==> pubkey_parse(texts@[k]@) == Some(#[trigger] keys@[k]@),
            None => !all_pubkeys(texts@),
        },
{
    let mut keys: Vec<Pubkey> = Vec::new();
    let mut i: usize = 0;
    while i < texts.len()
        invariant
            i <= texts@.len(),
            keys@.len() == i,
            forall|k: int| 0 <= k < i ==> pubkey_parse(texts@[k]@) == Some(#[trigger] keys@[k]@),
        decreases texts@.len() - i,
    {
        match parse_pubkey(texts[i].as_str()) {
            Some(k) => keys.push(k),
            None => return None,
        }
        i = i + 1;
    }
    assert forall|k: int| 0 <= k < texts@.len() implies pubkey_parse(#[trigger] texts@[k]@) is Some by {
        assert(pubkey_parse(texts@[k]@) == Some(keys@[k]@));
    }
    Some(keys)
}

/// `ix` holds what the instruction result says, its data decoded.
pub open spec fn instruction_from(ix: InstructionInfo, raw: ParsedInstructionResult) -> bool {
    &&& ix.program_id_index == raw.program_id_index
    &&& ix.accounts@ == raw.accounts@
    &&& base64_decoded(raw.data@) == Ok::<Seq<u8>, Seq<char>>(ix.data@)
}

fn decode_instructions(raw: &Vec<ParsedInstructionResult>) -> (r: Option<Vec<InstructionInfo>>)
    ensures
        match r {
            Some(ixs) => all_decoded(raw@) && ixs@.len() == raw@.len()
                && forall|k: int| 0 <= k < raw@.len() ==> instruction_from(#[trigger] ixs@[k], raw@[k]),
            None => !all_decoded(raw@),
        },
{
    let mut ixs: Vec<InstructionInfo> = Vec::new();
    let mut i: usize = 0;
    while i < raw.len()
        invariant
            i <= raw@.len(),
            ixs@.len() == i,
            forall|k: int| 0 <= k < i ==> instruction_from(#[trigger] ixs@[k], raw@[k]),
        decreases raw@.len() - i,
    {
        let item = &raw[i];
        match base64_decode(item.data.as_str()) {
            Ok(data) => {
                let accounts = item.accounts.clone();
                ixs.push(InstructionInfo { program_id_index: item.program_id_index, accounts, data });
            },
            Err(_) => return None,
        }
        i = i + 1;
    }
    assert forall|k: int| 0 <= k < raw@.len() implies base64_decoded(#[trigger] raw@[k].data@) is Ok by {
        assert(instruction_from(ixs@[k], raw@[k]));
    }
    Some(ixs)
}

/// The transaction a transaction result describes: its signatures parsed first, then its
/// account keys, then its instructions' data decoded; the first failure is the error.
pub fn transaction_from_result(tx: TransactionMetaInfo) -> (r: Result<ParsedTransaction, Error>)
    ensures
        ({
            let sigs = tx.transaction.signatures@;
            let keys = tx.transaction.message.account_keys.0@;
            let ixs = tx.transaction.message.instructions@;
            if !all_signatures(sigs) {
                r matches Err(e) && backend_error(e, "Invalid signature in transaction"@)
            } else if !all_pubkeys(keys) {
                r matches Err(e) && backend_error(e, "Invalid pubkey in transaction"@)
            } else if !all_decoded(ixs) {
                r matches Err(e) && backend_error(e, "Failed to decode instruction data"@)
            } else {
                r matches Ok(p) && {
                    &&& p.slot == tx.slot
                    &&& p.block_time == tx.block_time
                    &&& p.signatures@.len() == sigs.len()
                    &&& forall|k: int| 0 <= k < sigs.len() ==> signature_parse(sigs[k]@) == Some(#[trigger] p.signatures@[k]@)
                    &&& p.message.account_keys@.len() == keys.len()
                    &&& forall|k: int| 0 <= k < keys.len() ==> pubkey_parse(keys[k]@) == Some(#[trigger] p.message.account_keys@[k]@)
                    &&& p.message.instructions@.len() == ixs.len()
                    &&& forall|k: int| 0 <= k < ixs.len() ==> instruction_from(#[trigger] p.message.instructions@[k], ixs[k])
                }
            }
        }),
{
    let signatures = match parse_signatures(&tx.transaction.signatures) {
        Some(s) => s,
        None => return Err(backend("Invalid signature in transaction")),
    };
    let account_keys = match parse_pubkeys(&tx.transaction.message.account_keys.0) {
        Some(k) => k,
        None => return Err(backend("Invalid pubkey in transaction")),
    };
    let instructions = match decode_instructions(&tx.transaction.message.instructions) {
        Some(i) => i,
        None => return Err(backend("Failed to decode instruction data")),
    };
    Ok(ParsedTransaction {
        slot: tx.slot,
        block_time: tx.block_time,
        signatures,
        message: TransactionMessage { account_keys, instructions },
    })
}

} // verus!
