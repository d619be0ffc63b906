//! `approve`: let a delegate move up to an amount out of the owner's account.

use vstd::prelude::*;

use anchor_lang::solana_program::pubkey::Pubkey;

use crate::state::TokenCpi;

verus! {

/// The accounts of `approve`.
#[derive(Clone, Copy, Debug)]
pub struct ApproveDelegate {
    /// The owner of the token account, who signs.
    pub owner: Pubkey,
    /// The token account that the delegate may draw on.
    pub token_account: Pubkey,
    /// The delegate.
    pub delegate: Pubkey,
}

/// What `approve` asks for: an `approve` of the delegate for the amount on the
/// owner's account, signed by the owner.
pub open spec fn approve_call(accounts: ApproveDelegate, amount: u64) -> TokenCpi {
    TokenCpi::Approve {
        to: accounts.token_account,
        delegate: accounts.delegate,
        authority: accounts.owner,
        amount,
    }
}

/// Authorises the delegate to move up to `amount` tokens out of the account.
pub fn handle(accounts: &ApproveDelegate, amount: u64) -> (r: TokenCpi)
    ensures
        r == approve_call(*accounts, amount),
{
    TokenCpi::Approve {
        to: accounts.token_account,
        delegate: accounts.delegate,
        authority: accounts.owner,
        amount,
    }
}

} // verus!
