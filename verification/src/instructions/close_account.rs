//! `close_account`: close an empty token account and reclaim its rent.

use vstd::prelude::*;

use anchor_lang::solana_program::pubkey::Pubkey;

use crate::error::CustomError;
use crate::solana::keys_equal;
use crate::state::{TokenAccountState, TokenCpi};

verus! {

/// The accounts of `close_account`.
#[derive(Clone, Copy, Debug)]
pub struct CloseAccount {
    /// The owner, who signs and receives the lamports.
    pub owner: Pubkey,
    /// The token account to close.
    pub token_account: Pubkey,
    /// What that token account holds.
    pub token_account_state: TokenAccountState,
}

/// The account constraints of `close_account`, in their order: the account
/// must belong to the signer (`NotOwnerOfToken`), then be empty
/// (`ZeroAmount`).
pub open spec fn close_constraint_error(accounts: CloseAccount) -> Option<CustomError> {
    if accounts.token_account_state.owner != accounts.owner {
        Some(CustomError::NotOwnerOfToken)
    } else if accounts.token_account_state.amount != 0 {
        Some(CustomError::ZeroAmount)
    } else {
        None
    }
}

/// What `close_account` asks for: a `close_account` of the token account,
/// sending its lamports to the owner, signed by the owner.
pub open spec fn close_call(accounts: CloseAccount) -> TokenCpi {
    TokenCpi::CloseAccount {
        account: accounts.token_account,
        destination: accounts.owner,
        authority: accounts.owner,
    }
}

/// What the handler of `close_account` gives: its own checks, in their order,
/// are that the account is empty (`InsufficientFunds`) and belongs to the
/// signer (`NotOwnerOfToken`).
pub open spec fn close_handler_result(accounts: CloseAccount) -> Result<TokenCpi, CustomError> {
    if accounts.token_account_state.amount != 0 {
        Err(CustomError::InsufficientFunds)
    } else if accounts.token_account_state.owner != accounts.owner {
        Err(CustomError::NotOwnerOfToken)
    } else {
        Ok(close_call(accounts))
    }
}

impl CloseAccount {
    /// Checks the account constraints of `close_account`.
    pub fn validate(&self) -> (r: Result<(), CustomError>)
        ensures
            r is Ok <==> close_constraint_error(*self) is None,
            r matches Err(e) ==> close_constraint_error(*self) == Some(e),
    {
        if !keys_equal(&self.token_account_state.owner, &self.owner) {
            return Err(CustomError::NotOwnerOfToken);
        }
        if self.token_account_state.amount != 0 {
            return Err(CustomError::ZeroAmount);
        }
        Ok(())
    }
}

/// Closes the (empty) token account and returns its lamports to the owner.
pub fn handle(accounts: &CloseAccount) -> (r: Result<TokenCpi, CustomError>)
    ensures
        r == close_handler_result(*accounts),
{
    if accounts.token_account_state.amount != 0 {
        return Err(CustomError::InsufficientFunds);
    }
    if !keys_equal(&accounts.token_account_state.owner, &accounts.owner) {
        return Err(CustomError::NotOwnerOfToken);
    }
    Ok(
        TokenCpi::CloseAccount {
            account: accounts.token_account,
            destination: accounts.owner,
            authority: accounts.owner,
        },
    )
}

} // verus!
