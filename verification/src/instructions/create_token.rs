//! `create_token`: create a Token-2022 mint that carries its own metadata
//! (the `MetadataPointer` and `TokenMetadata` extensions).

use vstd::prelude::*;

use anchor_lang::solana_program::pubkey::Pubkey;

use crate::error::CustomError;
use crate::solana::{
    metadata_pointer_mint_len, metadata_pointer_mint_len_spec, token_metadata_tlv_len,
    token_metadata_tlv_size, utf8_len, lemma_utf8_len_at_most_four_per_char,
};
use crate::state::TokenCpi;

verus! {

/// The longest token name, in characters.
pub const MAX_NAME_LEN: usize = 32;

/// The longest token symbol, in characters.
pub const MAX_SYMBOL_LEN: usize = 10;

/// The longest metadata URI, in characters.
pub const MAX_URI_LEN: usize = 200;

/// The accounts of `create_token`.
#[derive(Clone, Copy, Debug)]
pub struct CreateToken {
    /// The new mint account, which signs its own creation.
    pub mint: Pubkey,
    /// The payer, who becomes mint authority, metadata-pointer authority and
    /// metadata update authority.
    pub authority: Pubkey,
}

/// What `create_token` asks for once its checks pass.
#[derive(Clone, Debug, PartialEq, Eq)]
pub struct CreateTokenPlan {
    /// The account that pays for the new mint account.
    pub payer: Pubkey,
    /// The new mint account.
    pub mint: Pubkey,
    /// The size to create the mint account with: a mint with the
    /// `MetadataPointer` extension (`InitializeMint2` wants exactly that).
    pub space: u64,
    /// The size whose rent-exempt minimum is deposited in the new account:
    /// the mint with its pointer plus the `TokenMetadata` entry, so that the
    /// account can later grow to hold the metadata.
    pub funded_size: usize,
    /// The token-program calls that follow the account's creation, in order.
    pub initialize: Vec<TokenCpi>,
}

/// The first check of `create_token` that fails, if any: the name, then the
/// symbol, then the URI must be within their limits, counted in characters
/// as the error messages state them.
pub open spec fn create_token_error(name: Seq<char>, symbol: Seq<char>, uri: Seq<char>) -> Option<
    CustomError,
> {
    if name.len() > MAX_NAME_LEN {
        Some(CustomError::NameTooLong)
    } else if symbol.len() > MAX_SYMBOL_LEN {
        Some(CustomError::SymbolTooLong)
    } else if uri.len() > MAX_URI_LEN {
        Some(CustomError::UriTooLong)
    } else {
        None
    }
}

/// The calls that initialise the new mint, in order: the metadata pointer
/// (authority and metadata address: the authority and the mint itself), the
/// mint (with the given decimals, the authority as mint authority and no
/// freeze authority), then the metadata stored in the mint itself.
pub open spec fn create_token_calls(
    accounts: CreateToken,
    name: String,
    symbol: String,
    uri: String,
    decimals: u8,
) -> Seq<TokenCpi> {
    seq![
        TokenCpi::MetadataPointerInitialize {
            mint: accounts.mint,
            authority: Some(accounts.authority),
            metadata_address: Some(accounts.mint),
        },
        TokenCpi::InitializeMint2 {
            mint: accounts.mint,
            decimals,
            mint_authority: accounts.authority,
            freeze_authority: None,
        },
        TokenCpi::TokenMetadataInitialize {
            mint: accounts.mint,
            metadata: accounts.mint,
            mint_authority: accounts.authority,
            update_authority: accounts.authority,
            name,
            symbol,
            uri,
        },
    ]
}

/// Whether `plan` is what `create_token` asks for on these arguments.
pub open spec fn is_create_token_plan(
    plan: CreateTokenPlan,
    accounts: CreateToken,
    name: String,
    symbol: String,
    uri: String,
    decimals: u8,
) -> bool {
    &&& plan.payer == accounts.authority
    &&& plan.mint == accounts.mint
    &&& plan.space == metadata_pointer_mint_len_spec()
    &&& plan.funded_size == metadata_pointer_mint_len_spec() + token_metadata_tlv_len(
        utf8_len(name@),
        utf8_len(symbol@),
        utf8_len(uri@),
    )
    &&& plan.initialize@ == create_token_calls(accounts, name, symbol, uri, decimals)
}

/// Creates a Token-2022 mint with an embedded metadata pointer and metadata.
pub fn create_token(
    accounts: &CreateToken,
    name: String,
    symbol: String,
    uri: String,
    decimals: u8,
) -> (r: Result<CreateTokenPlan, CustomError>)
    ensures
        match create_token_error(name@, symbol@, uri@) {
            Some(e) => r == Err::<CreateTokenPlan, CustomError>(e),
            None => r matches Ok(plan) && is_create_token_plan(
                plan,
                *accounts,
                name,
                symbol,
                uri,
                decimals,
            ),
        },
{
    let name_len = name.as_str().unicode_len();
    let symbol_len = symbol.as_str().unicode_len();
    let uri_len = uri.as_str().unicode_len();
    let ghost calls = create_token_calls(*accounts, name, symbol, uri, decimals);
    if name_len > MAX_NAME_LEN {
        return Err(CustomError::NameTooLong);
    }
    if symbol_len > MAX_SYMBOL_LEN {
        return Err(CustomError::SymbolTooLong);
    }
    if uri_len > MAX_URI_LEN {
        return Err(CustomError::UriTooLong);
    }
    proof {
        lemma_utf8_len_at_most_four_per_char(name@);
        lemma_utf8_len_at_most_four_per_char(symbol@);
        lemma_utf8_len_at_most_four_per_char(uri@);
    }
    let base_mint_size = metadata_pointer_mint_len().unwrap();
    let metadata_size = token_metadata_tlv_size(&name, &symbol, &uri).unwrap();
    let full_size = base_mint_size.checked_add(metadata_size).unwrap();
    let mint_size = base_mint_size;

    let mut initialize: Vec<TokenCpi> = Vec::new();
    initialize.push(
        TokenCpi::MetadataPointerInitialize {
            mint: accounts.mint,
            authority: Some(accounts.authority),
            metadata_address: Some(accounts.mint),
        },
    );
    initialize.push(
        TokenCpi::InitializeMint2 {
            mint: accounts.mint,
            decimals,
            mint_authority: accounts.authority,
            freeze_authority: None,
        },
    );
    initialize.push(
        TokenCpi::TokenMetadataInitialize {
            mint: accounts.mint,
            metadata: accounts.mint,
            mint_authority: accounts.authority,
            update_authority: accounts.authority,
            name,
            symbol,
            uri,
        },
    );
    assert(initialize@ =~= calls);
    Ok(
        CreateTokenPlan {
            payer: accounts.authority,
            mint: accounts.mint,
            space: mint_size as u64,
            funded_size: full_size,
            initialize,
        },
    )
}

} // verus!
