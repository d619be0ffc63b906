//! Plain-value models of the accounts the program reads, the token-program
//! calls it asks for, and its error type.

use vstd::prelude::*;

use anchor_lang::solana_program::program_error::ProgramError;
use anchor_lang::solana_program::pubkey::Pubkey;

use crate::error::CustomError;

verus! {

/// What the instructions read of a Token-2022 token account.
#[derive(Clone, Copy, Debug, PartialEq, Eq)]
pub struct TokenAccountState {
    /// The wallet that owns the account.
    pub owner: Pubkey,
    /// The number of base units the account holds.
    pub amount: u64,
    /// The delegate that the owner approved, if any.
    pub delegate: Option<Pubkey>,
}

/// A call into the Token-2022 program, with the accounts and arguments that
/// the instruction hands it.  Field names follow `anchor_spl::token_2022`.
#[derive(Clone, Debug, PartialEq, Eq)]
pub enum TokenCpi {
    /// `mint_to`: create `amount` units of `mint` in `to`.
    MintTo { mint: Pubkey, to: Pubkey, authority: Pubkey, amount: u64 },
    /// `transfer_checked`: move `amount` units from `from` to `to`.
    TransferChecked {
        from: Pubkey,
        mint: Pubkey,
        to: Pubkey,
        authority: Pubkey,
        amount: u64,
        decimals: u8,
    },
    /// `approve`: let `delegate` move up to `amount` units out of `to`.
    Approve { to: Pubkey, delegate: Pubkey, authority: Pubkey, amount: u64 },
    /// `revoke`: remove the delegate of `source`.
    Revoke { source: Pubkey, authority: Pubkey },
    /// `burn`: destroy `amount` units held in `from`.
    Burn { mint: Pubkey, from: Pubkey, authority: Pubkey, amount: u64 },
    /// `close_account`: close `account` and send its lamports to `destination`.
    CloseAccount { account: Pubkey, destination: Pubkey, authority: Pubkey },
    /// `metadata_pointer_initialize`.
    MetadataPointerInitialize {
        mint: Pubkey,
        authority: Option<Pubkey>,
        metadata_address: Option<Pubkey>,
    },
    /// `initialize_mint2`.
    InitializeMint2 {
        mint: Pubkey,
        decimals: u8,
        mint_authority: Pubkey,
        freeze_authority: Option<Pubkey>,
    },
    /// `token_metadata_initialize`.
    TokenMetadataInitialize {
        mint: Pubkey,
        metadata: Pubkey,
        mint_authority: Pubkey,
        update_authority: Pubkey,
        name: String,
        symbol: String,
        uri: String,
    },
}

/// An error of the runtime (`ProgramError`), with the variants that the
/// library's calls are known to give told apart.
#[derive(Debug, PartialEq, Eq)]
pub enum RuntimeError {
    /// `ProgramError::InvalidAccountData`.
    InvalidAccountData,
    /// `ProgramError::UninitializedAccount`.
    UninitializedAccount,
    /// Any other `ProgramError`.
    Other(ProgramError),
}

/// Why an instruction was refused: one of the program's own errors, or an
/// error of the runtime (such as account data that does not unpack).
#[derive(Debug, PartialEq, Eq)]
pub enum InstructionError {
    Custom(CustomError),
    Program(RuntimeError),
}

} // verus!
