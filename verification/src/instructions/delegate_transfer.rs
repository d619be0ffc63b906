//! `delegate`: the delegate moves tokens out of the owner's account.

use vstd::prelude::*;

use anchor_lang::solana_program::pubkey::Pubkey;

use crate::error::CustomError;
use crate::solana::option_key_is;
use crate::state::{TokenAccountState, TokenCpi};

verus! {

/// The accounts of `delegate`.
#[derive(Clone, Copy, Debug)]
pub struct DelegateTransfer {
    /// The delegate, who signs.
    pub delegate: Pubkey,
    /// The owner's token account, from which the tokens go.
    pub from_ata: Pubkey,
    /// What that token account holds.
    pub from_ata_state: TokenAccountState,
    /// The receiver's associated token account.
    pub to_ata: Pubkey,
    /// The Token-2022 mint.
    pub mint: Pubkey,
}

/// The account constraint of `delegate`: the signer must be the delegate of
/// the source account, else `NotOwnerOfToken`.
pub open spec fn delegate_constraint_error(accounts: DelegateTransfer) -> Option<CustomError> {
    if accounts.from_ata_state.delegate != Some(accounts.delegate) {
        Some(CustomError::NotOwnerOfToken)
    } else {
        None
    }
}

/// What the handler of `delegate` gives: `ZeroAmount` for a zero amount,
/// `InsufficientFunds` when the source holds less than the amount, else a
/// `transfer_checked` of the amount signed by the delegate.
pub open spec fn delegate_transfer_result(
    accounts: DelegateTransfer,
    amount: u64,
    decimals: u8,
) -> Result<TokenCpi, CustomError> {
    if amount == 0 {
        Err(CustomError::ZeroAmount)
    } else if accounts.from_ata_state.amount < amount {
        Err(CustomError::InsufficientFunds)
    } else {
        Ok(
            TokenCpi::TransferChecked {
                from: accounts.from_ata,
                mint: accounts.mint,
                to: accounts.to_ata,
                authority: accounts.delegate,
                amount,
                decimals,
            },
        )
    }
}

impl DelegateTransfer {
    /// Checks the account constraint of `delegate`.
    pub fn validate(&self) -> (r: Result<(), CustomError>)
        ensures
            r is Ok <==> delegate_constraint_error(*self) is None,
            r matches Err(e) ==> delegate_constraint_error(*self) == Some(e),
    {
        if !option_key_is(&self.from_ata_state.delegate, &self.delegate) {
            return Err(CustomError::NotOwnerOfToken);
        }
        Ok(())
    }
}

/// Moves `amount` tokens (of a mint with `decimals` decimals) out of the
/// owner's account on the delegate's signature.
pub fn handle(accounts: &DelegateTransfer, amount: u64, decimals: u8) -> (r: Result<
    TokenCpi,
    CustomError,
>)
    ensures
        r == delegate_transfer_result(*accounts, amount, decimals),
{
    if amount == 0 {
        return Err(CustomError::ZeroAmount);
    }
    if accounts.from_ata_state.amount < amount {
        return Err(CustomError::InsufficientFunds);
    }
    Ok(
        TokenCpi::TransferChecked {
            from: accounts.from_ata,
            mint: accounts.mint,
            to: accounts.to_ata,
            authority: accounts.delegate,
            amount,
            decimals,
        },
    )
}

} // verus!
