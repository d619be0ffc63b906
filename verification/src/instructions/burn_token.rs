//! `burn`: destroy tokens that the signer holds.

use vstd::prelude::*;

use anchor_lang::solana_program::pubkey::Pubkey;

use crate::state::TokenCpi;

verus! {

/// The accounts of `burn`.
#[derive(Clone, Copy, Debug)]
pub struct BurnToken {
    /// The Token-2022 mint.
    pub mint: Pubkey,
    /// The owner's associated token account, from which the tokens go.
    pub from_ata: Pubkey,
    /// The holder, who signs.
    pub owner: Pubkey,
}

/// What `burn` asks for: a `burn` of the amount from the holder's account,
/// signed by the holder (no mint authority is involved).
pub open spec fn burn_call(accounts: BurnToken, amount: u64) -> TokenCpi {
    TokenCpi::Burn {
        mint: accounts.mint,
        from: accounts.from_ata,
        authority: accounts.owner,
        amount,
    }
}

/// Burns `amount` tokens from the holder's account.
pub fn handle(accounts: &BurnToken, amount: u64) -> (r: TokenCpi)
    ensures
        r == burn_call(*accounts, amount),
{
    TokenCpi::Burn {
        mint: accounts.mint,
        from: accounts.from_ata,
        authority: accounts.owner,
        amount,
    }
}

} // verus!
