//! The token program's instructions, as a client addresses them.
use vstd::prelude::*;
use crate::keys::{system_program_id, zero_key, Pubkey};
use crate::programs::token::{balance_address, config_address};
use crate::protocol::instruction::token::{amount_data, initialize_data, BURN_DISCRIMINATOR, MINT_DISCRIMINATOR, TRANSFER_DISCRIMINATOR};
use crate::protocol::{derive_token_balance_pda, derive_token_config_pda, pack_burn, pack_mint, pack_token_initialize, pack_transfer};
use crate::tx::{AccountMeta, Instruction, InstructionView};

verus! {

/// The address a PDA search found.
pub open spec fn found(p: Option<(Seq<u8>, u8)>) -> Seq<u8> {
    p->Some_0.0
}

/// Initialize: `[authority (signer), authority's balance, config, system program]`.
pub open spec fn initialize_view(token_program: Seq<u8>, authority: Seq<u8>, total_supply: u64, decimals: u8) -> InstructionView {
    InstructionView {
        program_id: token_program,
        accounts: seq![
            (authority, true, true),
            (found(balance_address(authority, token_program)), false, true),
            (found(config_address(token_program)), false, true),
            (zero_key(), false, false),
        ],
        data: initialize_data(total_supply, decimals),
    }
}

/// Mint: `[authority (signer), recipient, recipient's balance, config, system program]`.
pub open spec fn mint_view(token_program: Seq<u8>, authority: Seq<u8>, recipient: Seq<u8>, amount: u64) -> InstructionView {
    InstructionView {
        program_id: token_program,
        accounts: seq![
            (authority, true, true),
            (recipient, false, false),
            (found(balance_address(recipient, token_program)), false, true),
            (found(config_address(token_program)), false, true),
            (zero_key(), false, false),
        ],
        data: amount_data(MINT_DISCRIMINATOR, amount),
    }
}

/// Transfer: `[sender (signer), sender's balance, recipient, recipient's balance, system program]`.
pub open spec fn transfer_view(token_program: Seq<u8>, sender: Seq<u8>, recipient: Seq<u8>, amount: u64) -> InstructionView {
    InstructionView {
        program_id: token_program,
        accounts: seq![
            (sender, true, true),
            (found(balance_address(sender, token_program)), false, true),
            (recipient, false, false),
            (found(balance_address(recipient, token_program)), false, true),
            (zero_key(), false, false),
        ],
        data: amount_data(TRANSFER_DISCRIMINATOR, amount),
    }
}

/// Burn: `[holder (signer), holder's balance, config, system program]`.
pub open spec fn burn_view(token_program: Seq<u8>, holder: Seq<u8>, amount: u64) -> InstructionView {
    InstructionView {
        program_id: token_program,
        accounts: seq![
            (holder, true, true),
            (found(balance_address(holder, token_program)), false, true),
            (found(config_address(token_program)), false, true),
            (zero_key(), false, false),
        ],
        data: amount_data(BURN_DISCRIMINATOR, amount),
    }
}

/// The instruction that creates the token with the declared supply and opens the
/// authority's balance; `None` when an account address cannot be derived.
pub fn initialize_instruction(token_program: &Pubkey, authority: &Pubkey, total_supply: u64, decimals: u8) -> (r: Option<Instruction>)
    ensures
        match r {
            Some(ix) => balance_address(authority@, token_program@) is Some && config_address(token_program@) is Some
                && ix@ == initialize_view(token_program@, authority@, total_supply, decimals),
            None => balance_address(authority@, token_program@) is None || config_address(token_program@) is None,
        },
{
    let data = pack_token_initialize(total_supply, decimals);
    let (config_pda, _) = match derive_token_config_pda(token_program) {
        Some(found) => found,
        None => return None,
    };
    let (distribution_pda, _) = match derive_token_balance_pda(authority, token_program) {
        Some(found) => found,
        None => return None,
    };
    let accounts = vec![
        AccountMeta::new(*authority, true),
        AccountMeta::new(distribution_pda, false),
        AccountMeta::new(config_pda, false),
        AccountMeta::new_readonly(system_program_id(), false),
    ];
    let ix = Instruction { program_id: *token_program, accounts, data };
    assert(ix@.accounts =~= initialize_view(token_program@, authority@, total_supply, decimals).accounts);
    Some(ix)
}

/// The instruction that mints `amount` to `recipient`.
pub fn mint_instruction(token_program: &Pubkey, authority: &Pubkey, recipient: &Pubkey, amount: u64) -> (r: Option<Instruction>)
    ensures
        match r {
            Some(ix) => balance_address(recipient@, token_program@) is Some && config_address(token_program@) is Some
                && ix@ == mint_view(token_program@, authority@, recipient@, amount),
            None => balance_address(recipient@, token_program@) is None || config_address(token_program@) is None,
        },
{
    let (recipient_balance_pda, _) = match derive_token_balance_pda(recipient, token_program) {
        Some(found) => found,
        None => return None,
    };
    let (config_pda, _) = match derive_token_config_pda(token_program) {
        Some(found) => found,
        None => return None,
    };
    let data = pack_mint(amount);
    let accounts = vec![
        AccountMeta::new(*authority, true),
        AccountMeta::new_readonly(*recipient, false),
        AccountMeta::new(recipient_balance_pda, false),
        AccountMeta::new(config_pda, false),
        AccountMeta::new_readonly(system_program_id(), false),
    ];
    let ix = Instruction { program_id: *token_program, accounts, data };
    assert(ix@.accounts =~= mint_view(token_program@, authority@, recipient@, amount).accounts);
    Some(ix)
}

/// The instruction that moves `amount` from `sender` to `recipient`.
pub fn transfer_instruction(token_program: &Pubkey, sender: &Pubkey, recipient: &Pubkey, amount: u64) -> (r: Option<Instruction>)
    ensures
        match r {
            Some(ix) => balance_address(sender@, token_program@) is Some && balance_address(recipient@, token_program@) is Some
                && ix@ == transfer_view(token_program@, sender@, recipient@, amount),
            None => balance_address(sender@, token_program@) is None || balance_address(recipient@, token_program@) is None,
        },
{
    let (sender_balance_pda, _) = match derive_token_balance_pda(sender, token_program) {
        Some(found) => found,
        None => return None,
    };
    let (recipient_balance_pda, _) = match derive_token_balance_pda(recipient, token_program) {
        Some(found) => found,
        None => return None,
    };
    let data = pack_transfer(amount);
    let accounts = vec![
        AccountMeta::new(*sender, true),
        AccountMeta::new(sender_balance_pda, false),
        AccountMeta::new_readonly(*recipient, false),
        AccountMeta::new(recipient_balance_pda, false),
        AccountMeta::new_readonly(system_program_id(), false),
    ];
    let ix = Instruction { program_id: *token_program, accounts, data };
    assert(ix@.accounts =~= transfer_view(token_program@, sender@, recipient@, amount).accounts);
    Some(ix)
}

/// The instruction that burns `amount` of the holder's tokens.
pub fn burn_instruction(token_program: &Pubkey, holder: &Pubkey, amount: u64) -> (r: Option<Instruction>)
    ensures
        match r {
            Some(ix) => balance_address(holder@, token_program@) is Some && config_address(token_program@) is Some
                && ix@ == burn_view(token_program@, holder@, amount),
            None => balance_address(holder@, token_program@) is None || config_address(token_program@) is None,
        },
{
    let (holder_balance_pda, _) = match derive_token_balance_pda(holder, token_program) {
        Some(found) => found,
        None => return None,
    };
    let (config_pda, _) = match derive_token_config_pda(token_program) {
        Some(found) => found,
        None => return None,
    };
    let data = pack_burn(amount);
    let accounts = vec![
        AccountMeta::new(*holder, true),
        AccountMeta::new(holder_balance_pda, false),
        AccountMeta::new(config_pda, false),
        AccountMeta::new_readonly(system_program_id(), false),
    ];
    let ix = Instruction { program_id: *token_program, accounts, data };
    assert(ix@.accounts =~= burn_view(token_program@, holder@, amount).accounts);
    Some(ix)
}

} // verus!
