//! Properties of the program as a whole, proved over the specifications of
//! its instructions.

use vstd::prelude::*;

use crate::error::CustomError;
use crate::instructions::approve::{approve_call, ApproveDelegate};
use crate::instructions::burn_token::{burn_call, BurnToken};
use crate::instructions::close_account::{
    close_call, close_constraint_error, close_handler_result, CloseAccount,
};
use crate::instructions::create_token::{
    create_token_error, is_create_token_plan, CreateToken, CreateTokenPlan, MAX_NAME_LEN,
    MAX_SYMBOL_LEN, MAX_URI_LEN,
};
use crate::instructions::delegate_transfer::DelegateTransfer;
use crate::instructions::mint_to_wallet::{mint_to_wallet_result, MintToWallet};
use crate::instructions::revoke::{revoke_call, RevokeDelegate};
use crate::instructions::transfer_tokens::{transfer_call, TransferTokens};
use crate::solana::{token_metadata_tlv_len, utf8_len};
use crate::state::TokenCpi;
use crate::tangaga::{close_account_result, delegate_result, revoke_result};

verus! {

/// `create_token` refuses exactly the names, symbols and URIs that are over
/// their limits of 32, 10 and 200 characters.
pub proof fn create_token_accepts_exactly_within_limits(
    name: Seq<char>,
    symbol: Seq<char>,
    uri: Seq<char>,
)
    ensures
        create_token_error(name, symbol, uri) is None <==> (name.len() <= MAX_NAME_LEN
            && symbol.len() <= MAX_SYMBOL_LEN && uri.len() <= MAX_URI_LEN),
{
}

/// The lamports that `create_token` deposits in the new mint are those for
/// the mint, its pointer, and the metadata that the last call writes: the
/// funded size exceeds the created size by exactly that metadata entry.
pub proof fn create_token_prefunds_metadata(
    plan: CreateTokenPlan,
    accounts: CreateToken,
    name: String,
    symbol: String,
    uri: String,
    decimals: u8,
)
    requires
        is_create_token_plan(plan, accounts, name, symbol, uri, decimals),
    ensures
        plan.initialize@.len() == 3,
        plan.initialize@[2] matches TokenCpi::TokenMetadataInitialize { name: n, symbol: s, uri: u, .. }
            && plan.funded_size == plan.space + token_metadata_tlv_len(
            utf8_len(n@),
            utf8_len(s@),
            utf8_len(u@),
        ),
        plan.space < plan.funded_size,
{
}

/// Tokens are minted, or moved by a delegate, only in positive amounts.
pub proof fn token_moves_need_positive_amount(
    mint: MintToWallet,
    delegated: DelegateTransfer,
    amount: u64,
    decimals: u8,
)
    ensures
        mint_to_wallet_result(mint, amount) is Ok ==> amount > 0,
        delegate_result(delegated, amount, decimals) is Ok ==> amount > 0,
        amount == 0 ==> mint_to_wallet_result(mint, amount) == Err::<TokenCpi, CustomError>(
            CustomError::ZeroAmount,
        ),
{
}

/// A delegate transfer is accepted only from the account's delegate, and only
/// for an amount the account holds; the delegate then signs the transfer.
pub proof fn delegate_spends_only_what_the_account_holds(
    accounts: DelegateTransfer,
    amount: u64,
    decimals: u8,
)
    ensures
        delegate_result(accounts, amount, decimals) is Ok <==> {
            &&& accounts.from_ata_state.delegate == Some(accounts.delegate)
            &&& 0 < amount <= accounts.from_ata_state.amount
        },
        delegate_result(accounts, amount, decimals) matches Ok(TokenCpi::TransferChecked {
            from,
            authority,
            amount: moved,
            ..
        }) ==> from == accounts.from_ata && authority == accounts.delegate && moved == amount,
{
}

/// With no delegate on the source account (as after a revoke), a delegate
/// transfer is refused with `NotOwnerOfToken`, whatever the amount, and no
/// token-program call is asked for, so the account's balance is left alone.
pub proof fn no_delegate_no_delegate_transfer(
    accounts: DelegateTransfer,
    amount: u64,
    decimals: u8,
)
    requires
        accounts.from_ata_state.delegate is None,
    ensures
        delegate_result(accounts, amount, decimals) == Err::<TokenCpi, CustomError>(
            CustomError::NotOwnerOfToken,
        ),
{
}

/// An owner who approved a delegate on an account can always revoke it: the
/// revoke is accepted and removes the delegate of the same account, on the
/// same signature.
pub proof fn owner_can_always_revoke(
    approval: ApproveDelegate,
    amount: u64,
    revocation: RevokeDelegate,
)
    requires
        revocation.owner == approval.owner,
        revocation.token_account == approval.token_account,
        revocation.token_account_state.owner == approval.owner,
    ensures
        approve_call(approval, amount) matches TokenCpi::Approve { to, authority, .. }
            && revoke_result(revocation) == Ok::<TokenCpi, CustomError>(
            TokenCpi::Revoke { source: to, authority },
        ),
{
}

/// Only the owner can revoke: a revoke by anyone else is refused with
/// `NotOwnerOfToken`.
pub proof fn only_the_owner_revokes(accounts: RevokeDelegate)
    ensures
        revoke_result(accounts) is Ok <==> accounts.token_account_state.owner == accounts.owner,
        accounts.token_account_state.owner != accounts.owner ==> revoke_result(accounts) == Err::<
            TokenCpi,
            CustomError,
        >(CustomError::NotOwnerOfToken),
{
}

/// Only the owner can close a token account, and only once it is empty; the
/// lamports then go back to the owner.
pub proof fn close_account_only_empty_and_owned(accounts: CloseAccount)
    ensures
        close_account_result(accounts) is Ok <==> {
            &&& accounts.token_account_state.owner == accounts.owner
            &&& accounts.token_account_state.amount == 0
        },
        close_account_result(accounts) is Ok ==> close_account_result(accounts) == Ok::<
            TokenCpi,
            CustomError,
        >(close_call(accounts)),
        close_call(accounts) matches TokenCpi::CloseAccount { destination, .. } && destination
            == accounts.owner,
{
}

/// Once the account constraints of `close_account` pass, its handler's own
/// checks cannot fail.
pub proof fn close_constraints_subsume_handler_checks(accounts: CloseAccount)
    requires
        close_constraint_error(accounts) is None,
    ensures
        close_handler_result(accounts) == Ok::<TokenCpi, CustomError>(close_call(accounts)),
{
}

/// Each refusal of `create_token` names the first string over its limit: a
/// name over 32 characters gives `NameTooLong` whatever the rest; a name
/// within it and a symbol over 10 give `SymbolTooLong`; both within and a URI
/// over 200 give `UriTooLong`.
pub proof fn create_token_names_the_first_string_over_its_limit(
    name: Seq<char>,
    symbol: Seq<char>,
    uri: Seq<char>,
)
    ensures
        name.len() > 32 ==> create_token_error(name, symbol, uri) == Some(CustomError::NameTooLong),
        name.len() <= 32 && symbol.len() > 10 ==> create_token_error(name, symbol, uri) == Some(
            CustomError::SymbolTooLong,
        ),
        name.len() <= 32 && symbol.len() <= 10 && uri.len() > 200 ==> create_token_error(
            name,
            symbol,
            uri,
        ) == Some(CustomError::UriTooLong),
{
}

/// An accepted `create_token` creates the given mint account, paid by the
/// authority, with room for the mint and its metadata pointer (234 bytes),
/// then initialises, in this order: the metadata pointer (under the
/// authority, pointing at the mint itself), the mint (with the decimals asked
/// for, the authority as mint authority and no freeze authority), and the
/// metadata with the name, symbol and URI given (in the mint, under the
/// authority).
pub proof fn create_token_initialises_the_mint_as_asked(
    plan: CreateTokenPlan,
    accounts: CreateToken,
    name: String,
    symbol: String,
    uri: String,
    decimals: u8,
)
    requires
        is_create_token_plan(plan, accounts, name, symbol, uri, decimals),
    ensures
        plan.payer == accounts.authority,
        plan.mint == accounts.mint,
        plan.space == 234,
        plan.funded_size == 234 + 92 + utf8_len(name@) + utf8_len(symbol@) + utf8_len(uri@),
        plan.initialize@.len() == 3,
        plan.initialize@[0] == (TokenCpi::MetadataPointerInitialize {
            mint: accounts.mint,
            authority: Some(accounts.authority),
            metadata_address: Some(accounts.mint),
        }),
        plan.initialize@[1] == (TokenCpi::InitializeMint2 {
            mint: accounts.mint,
            decimals: decimals,
            mint_authority: accounts.authority,
            freeze_authority: None,
        }),
        plan.initialize@[2] == (TokenCpi::TokenMetadataInitialize {
            mint: accounts.mint,
            metadata: accounts.mint,
            mint_authority: accounts.authority,
            update_authority: accounts.authority,
            name: name,
            symbol: symbol,
            uri: uri,
        }),
{
}

/// `mint_to_wallet` with a positive amount mints exactly that amount of the
/// given mint into the destination account, on the authority's signature.
pub proof fn mint_to_wallet_mints_the_amount_asked(accounts: MintToWallet, amount: u64)
    requires
        amount > 0,
    ensures
        mint_to_wallet_result(accounts, amount) == Ok::<TokenCpi, CustomError>(
            TokenCpi::MintTo {
                mint: accounts.mint,
                to: accounts.destination_ata,
                authority: accounts.authority,
                amount: amount,
            },
        ),
{
}

/// The transfer that `transfer_tokens` asks for moves exactly the amount
/// asked for, from the owner's account to the receiver's, of the given mint,
/// on the owner's signature, with the mint's decimals.
pub proof fn transfer_tokens_moves_the_amount_asked(
    accounts: TransferTokens,
    amount: u64,
    decimals: u8,
)
    ensures
        transfer_call(accounts, amount, decimals) == (TokenCpi::TransferChecked {
            from: accounts.from_ata,
            mint: accounts.mint,
            to: accounts.to_ata,
            authority: accounts.owner,
            amount: amount,
            decimals: decimals,
        }),
{
}

/// An accepted delegate transfer moves exactly the amount asked for, with the
/// decimals given, of the given mint, from the owner's account to the
/// receiver's, on the delegate's signature.
pub proof fn delegate_moves_the_amount_asked(
    accounts: DelegateTransfer,
    amount: u64,
    decimals: u8,
)
    requires
        delegate_result(accounts, amount, decimals) is Ok,
    ensures
        delegate_result(accounts, amount, decimals) == Ok::<TokenCpi, CustomError>(
            TokenCpi::TransferChecked {
                from: accounts.from_ata,
                mint: accounts.mint,
                to: accounts.to_ata,
                authority: accounts.delegate,
                amount: amount,
                decimals: decimals,
            },
        ),
{
}

/// `burn` destroys exactly the amount asked for, of the given mint, from the
/// holder's account, on the holder's own signature.
pub proof fn burn_destroys_the_amount_asked(accounts: BurnToken, amount: u64)
    ensures
        burn_call(accounts, amount) == (TokenCpi::Burn {
            mint: accounts.mint,
            from: accounts.from_ata,
            authority: accounts.owner,
            amount: amount,
        }),
{
}

/// `approve` lets the delegate given draw exactly the amount asked for on the
/// given account, on the owner's signature.
pub proof fn approve_allows_the_amount_asked(accounts: ApproveDelegate, amount: u64)
    ensures
        approve_call(accounts, amount) == (TokenCpi::Approve {
            to: accounts.token_account,
            delegate: accounts.delegate,
            authority: accounts.owner,
            amount: amount,
        }),
{
}

/// `revoke` removes the delegate of the given account, on the owner's
/// signature; `close_account` closes the given account and sends its lamports
/// to the owner, on the owner's signature.
pub proof fn revoke_and_close_act_on_the_given_account(
    revocation: RevokeDelegate,
    closing: CloseAccount,
)
    ensures
        revoke_call(revocation) == (TokenCpi::Revoke {
            source: revocation.token_account,
            authority: revocation.owner,
        }),
        close_call(closing) == (TokenCpi::CloseAccount {
            account: closing.token_account,
            destination: closing.owner,
            authority: closing.owner,
        }),
{
}

} // verus!
