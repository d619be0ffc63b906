//! `mint_to_wallet`: mint new tokens into a wallet's token account.

use vstd::prelude::*;

use anchor_lang::solana_program::pubkey::Pubkey;

use crate::error::CustomError;
use crate::state::TokenCpi;

verus! {

/// The accounts of `mint_to_wallet`.
#[derive(Clone, Copy, Debug)]
pub struct MintToWallet {
    /// The Token-2022 mint.
    pub mint: Pubkey,
    /// The receiving wallet's associated token account.
    pub destination_ata: Pubkey,
    /// The mint authority, who signs.
    pub authority: Pubkey,
}

/// What `mint_to_wallet` gives: `ZeroAmount` for a zero amount, else a
/// `mint_to` of the amount into the destination account, signed by the
/// authority.
pub open spec fn mint_to_wallet_result(accounts: MintToWallet, amount: u64) -> Result<
    TokenCpi,
    CustomError,
> {
    if amount == 0 {
        Err(CustomError::ZeroAmount)
    } else {
        Ok(
            TokenCpi::MintTo {
                mint: accounts.mint,
                to: accounts.destination_ata,
                authority: accounts.authority,
                amount,
            },
        )
    }
}

/// Mints `amount` tokens into the destination account.
pub fn mint_to_wallet(accounts: &MintToWallet, amount: u64) -> (r: Result<TokenCpi, CustomError>)
    ensures
        r == mint_to_wallet_result(*accounts, amount),
{
    if amount == 0 {
        return Err(CustomError::ZeroAmount);
    }
    Ok(
        TokenCpi::MintTo {
            mint: accounts.mint,
            to: accounts.destination_ata,
            authority: accounts.authority,
            amount,
        },
    )
}

} // verus!
