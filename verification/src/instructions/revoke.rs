//! `revoke`: remove the delegate of a token account.

use vstd::prelude::*;

use anchor_lang::solana_program::pubkey::Pubkey;

use crate::error::CustomError;
use crate::solana::keys_equal;
use crate::state::{TokenAccountState, TokenCpi};

verus! {

/// The accounts of `revoke`.
#[derive(Clone, Copy, Debug)]
pub struct RevokeDelegate {
    /// The owner, who signs.
    pub owner: Pubkey,
    /// The token account whose delegate is removed.
    pub token_account: Pubkey,
    /// What the token account holds.
    pub token_account_state: TokenAccountState,
}

/// The account constraint of `revoke`: the token account must belong to the
/// signer, else `NotOwnerOfToken`.
pub open spec fn revoke_constraint_error(accounts: RevokeDelegate) -> Option<CustomError> {
    if accounts.token_account_state.owner != accounts.owner {
        Some(CustomError::NotOwnerOfToken)
    } else {
        None
    }
}

/// What `revoke` asks for: a `revoke` on the token account, signed by the
/// owner.
pub open spec fn revoke_call(accounts: RevokeDelegate) -> TokenCpi {
    TokenCpi::Revoke { source: accounts.token_account, authority: accounts.owner }
}

impl RevokeDelegate {
    /// Checks the account constraint of `revoke`.
    pub fn validate(&self) -> (r: Result<(), CustomError>)
        ensures
            r is Ok <==> revoke_constraint_error(*self) is None,
            r matches Err(e) ==> revoke_constraint_error(*self) == Some(e),
    {
        if !keys_equal(&self.token_account_state.owner, &self.owner) {
            return Err(CustomError::NotOwnerOfToken);
        }
        Ok(())
    }
}

/// Removes the delegate of the token account.
pub fn handle(accounts: &RevokeDelegate) -> (r: TokenCpi)
    ensures
        r == revoke_call(*accounts),
{
    TokenCpi::Revoke { source: accounts.token_account, authority: accounts.owner }
}

} // verus!
