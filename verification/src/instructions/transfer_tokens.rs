//! `transfer_tokens`: the owner moves tokens to another wallet.

use vstd::prelude::*;

use anchor_lang::solana_program::pubkey::Pubkey;

use crate::error::CustomError;
use crate::solana::{mint_unpack_error, unpack_mint_decimals, unpacked_mint_decimals};
use crate::state::{InstructionError, TokenCpi};

verus! {

/// The accounts of `transfer_tokens`.
#[derive(Clone, Debug)]
pub struct TransferTokens {
    /// The Token-2022 mint.
    pub mint: Pubkey,
    /// The data of the mint account.
    pub mint_data: Vec<u8>,
    /// The owner's associated token account, from which the tokens go.
    pub from_ata: Pubkey,
    /// The receiver's associated token account.
    pub to_ata: Pubkey,
    /// The owner, who signs.
    pub owner: Pubkey,
}

/// The `transfer_checked` that `transfer_tokens` asks for, once the mint's
/// decimals are known.
pub open spec fn transfer_call(accounts: TransferTokens, amount: u64, decimals: u8) -> TokenCpi {
    TokenCpi::TransferChecked {
        from: accounts.from_ata,
        mint: accounts.mint,
        to: accounts.to_ata,
        authority: accounts.owner,
        amount,
        decimals,
    }
}

/// Moves `amount` tokens from the owner's account to the receiver's.  A zero
/// amount is refused with `ZeroAmount`; then the mint's data must unpack as
/// an initialised Token-2022 mint (else the runtime's error that unpacking
/// gives), and its
/// decimals go into the `transfer_checked`.
pub fn transfer_tokens(accounts: &TransferTokens, amount: u64) -> (r: Result<
    TokenCpi,
    InstructionError,
>)
    ensures
        amount == 0 ==> r == Err::<TokenCpi, InstructionError>(
            InstructionError::Custom(CustomError::ZeroAmount),
        ),
        amount > 0 ==> match unpacked_mint_decimals(accounts.mint_data@) {
            Some(d) => r == Ok::<TokenCpi, InstructionError>(transfer_call(*accounts, amount, d)),
            None => r == Err::<TokenCpi, InstructionError>(
                InstructionError::Program(mint_unpack_error(accounts.mint_data@)),
            ),
        },
{
    if amount == 0 {
        return Err(InstructionError::Custom(CustomError::ZeroAmount));
    }
    let decimals = match unpack_mint_decimals(accounts.mint_data.as_slice()) {
        Ok(d) => d,
        Err(e) => return Err(InstructionError::Program(e)),
    };
    Ok(
        TokenCpi::TransferChecked {
            from: accounts.from_ata,
            mint: accounts.mint,
            to: accounts.to_ata,
            authority: accounts.owner,
            amount,
            decimals,
        },
    )
}

} // verus!
