//! The program's entry points: each runs the account constraints of its
//! instruction, then the instruction's handler, and gives the token-program
//! calls to make or the error that refuses the instruction.

use vstd::prelude::*;

use crate::error::CustomError;
use crate::instructions::approve::{self, approve_call, ApproveDelegate};
use crate::instructions::burn_token::{self, burn_call, BurnToken};
use crate::instructions::close_account::{
    self, close_constraint_error, close_handler_result, CloseAccount,
};
use crate::instructions::create_token::{
    self, create_token_error, is_create_token_plan, CreateToken, CreateTokenPlan,
};
use crate::instructions::delegate_transfer::{
    self, delegate_constraint_error, delegate_transfer_result, DelegateTransfer,
};
use crate::instructions::mint_to_wallet::{self, mint_to_wallet_result, MintToWallet};
use crate::instructions::revoke::{self, revoke_call, revoke_constraint_error, RevokeDelegate};
use crate::instructions::transfer_tokens::{self, transfer_call, TransferTokens};
use crate::solana::{mint_unpack_error, unpacked_mint_decimals};
use crate::state::{InstructionError, TokenCpi};

verus! {

/// A result with the program's own error, as an instruction's result.
pub open spec fn lift(r: Result<TokenCpi, CustomError>) -> Result<TokenCpi, InstructionError> {
    match r {
        Ok(cpi) => Ok(cpi),
        Err(e) => Err(InstructionError::Custom(e)),
    }
}

/// What `close_account` gives: its account constraints, then its handler.
pub open spec fn close_account_result(accounts: CloseAccount) -> Result<TokenCpi, CustomError> {
    match close_constraint_error(accounts) {
        Some(e) => Err(e),
        None => close_handler_result(accounts),
    }
}

/// What `revoke` gives: its account constraint, then its call.
pub open spec fn revoke_result(accounts: RevokeDelegate) -> Result<TokenCpi, CustomError> {
    match revoke_constraint_error(accounts) {
        Some(e) => Err(e),
        None => Ok(revoke_call(accounts)),
    }
}

/// What `delegate` gives: its account constraint, then its handler.
pub open spec fn delegate_result(accounts: DelegateTransfer, amount: u64, decimals: u8) -> Result<
    TokenCpi,
    CustomError,
> {
    match delegate_constraint_error(accounts) {
        Some(e) => Err(e),
        None => delegate_transfer_result(accounts, amount, decimals),
    }
}

fn lift_custom(r: Result<TokenCpi, CustomError>) -> (s: Result<TokenCpi, InstructionError>)
    ensures
        s == lift(r),
{
    match r {
        Ok(cpi) => Ok(cpi),
        Err(e) => Err(InstructionError::Custom(e)),
    }
}

/// 1. `create_token`: creates a Token-2022 mint with an embedded metadata
/// pointer and metadata.
pub fn create_token(
    accounts: &CreateToken,
    name: String,
    symbol: String,
    uri: String,
    decimals: u8,
) -> (r: Result<CreateTokenPlan, InstructionError>)
    ensures
        match create_token_error(name@, symbol@, uri@) {
            Some(e) => r == Err::<CreateTokenPlan, InstructionError>(InstructionError::Custom(e)),
            None => r matches Ok(plan) && is_create_token_plan(
                plan,
                *accounts,
                name,
                symbol,
                uri,
                decimals,
            ),
        },
{
    match create_token::create_token(accounts, name, symbol, uri, decimals) {
        Ok(plan) => Ok(plan),
        Err(e) => Err(InstructionError::Custom(e)),
    }
}

/// 2. `mint_to_wallet`: mints tokens into a wallet's associated token account.
pub fn mint_to_wallet(accounts: &MintToWallet, amount: u64) -> (r: Result<
    TokenCpi,
    InstructionError,
>)
    ensures
        r == lift(mint_to_wallet_result(*accounts, amount)),
{
    lift_custom(mint_to_wallet::mint_to_wallet(accounts, amount))
}

/// 3. `transfer_tokens`: moves tokens from the owner's account to another
/// wallet's.
pub fn transfer_tokens(accounts: &TransferTokens, amount: u64) -> (r: Result<
    TokenCpi,
    InstructionError,
>)
    ensures
        amount == 0 ==> r == Err::<TokenCpi, InstructionError>(
            InstructionError::Custom(CustomError::ZeroAmount),
        ),
        amount > 0 ==> match unpacked_mint_decimals(accounts.mint_data@) {
            Some(d) => r == Ok::<TokenCpi, InstructionError>(transfer_call(*accounts, amount, d)),
            None => r == Err::<TokenCpi, InstructionError>(
                InstructionError::Program(mint_unpack_error(accounts.mint_data@)),
            ),
        },
{
    transfer_tokens::transfer_tokens(accounts, amount)
}

/// 4. `approve`: the owner authorises a delegate to move up to `amount`
/// tokens out of the account.
pub fn approve(accounts: &ApproveDelegate, amount: u64) -> (r: Result<TokenCpi, InstructionError>)
    ensures
        r == Ok::<TokenCpi, InstructionError>(approve_call(*accounts, amount)),
{
    Ok(approve::handle(accounts, amount))
}

/// `revoke`: the owner removes the account's delegate.
pub fn revoke(accounts: &RevokeDelegate) -> (r: Result<TokenCpi, InstructionError>)
    ensures
        r == lift(revoke_result(*accounts)),
{
    if let Err(e) = accounts.validate() {
        return Err(InstructionError::Custom(e));
    }
    Ok(revoke::handle(accounts))
}

/// 5. `delegate`: the delegate moves tokens out of the owner's account.
pub fn delegate(accounts: &DelegateTransfer, amount: u64, decimals: u8) -> (r: Result<
    TokenCpi,
    InstructionError,
>)
    ensures
        r == lift(delegate_result(*accounts, amount, decimals)),
{
    if let Err(e) = accounts.validate() {
        return Err(InstructionError::Custom(e));
    }
    lift_custom(delegate_transfer::handle(accounts, amount, decimals))
}

/// 6. `burn`: the holder destroys tokens, reducing the supply for good.
pub fn burn(accounts: &BurnToken, amount: u64) -> (r: Result<TokenCpi, InstructionError>)
    ensures
        r == Ok::<TokenCpi, InstructionError>(burn_call(*accounts, amount)),
{
    Ok(burn_token::handle(accounts, amount))
}

/// 7. `close_account`: closes an empty token account and returns its rent to
/// the owner.
pub fn close_account(accounts: &CloseAccount) -> (r: Result<TokenCpi, InstructionError>)
    ensures
        r == lift(close_account_result(*accounts)),
{
    if let Err(e) = accounts.validate() {
        return Err(InstructionError::Custom(e));
    }
    lift_custom(close_account::handle(accounts))
}

} // verus!
