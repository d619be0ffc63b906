//! The outside Solana types that the library carries, and the trusted calls
//! into `anchor-lang` / `anchor-spl` that the instruction logic makes.

use vstd::prelude::*;

use anchor_lang::solana_program::program_error::ProgramError;
use anchor_lang::solana_program::pubkey::Pubkey;

use crate::state::RuntimeError;
use anchor_spl::token_2022::spl_token_2022::extension::{ExtensionType, StateWithExtensions};
use anchor_spl::token_2022::spl_token_2022::state::Mint as MintState;
use anchor_spl::token_2022_extensions::spl_token_metadata_interface::state::TokenMetadata;

verus! {

/// An account address (`solana_program::pubkey::Pubkey`), carried opaquely.
#[verifier::external_type_specification]
#[verifier::external_body]
pub struct ExPubkey(anchor_lang::solana_program::pubkey::Pubkey);

/// The runtime's error type (`solana_program::program_error::ProgramError`),
/// carried opaquely.
#[verifier::external_type_specification]
#[verifier::external_body]
pub struct ExProgramError(anchor_lang::solana_program::program_error::ProgramError);

/// `Pubkey`'s derived `Clone`: `Pubkey` is `Copy`, so the clone is the same
/// address.
pub assume_specification[ <anchor_lang::solana_program::pubkey::Pubkey as Clone>::clone ](
    key: &Pubkey,
) -> (r: Pubkey)
    ensures
        r == *key,
;

/// Compares two addresses with `Pubkey`'s derived `PartialEq`, which compares
/// the 32 address bytes: the result is true exactly when the two values are
/// the same address.
#[verifier::external_body]
pub fn keys_equal(a: &Pubkey, b: &Pubkey) -> (r: bool)
    ensures
        r == (*a == *b),
{
    a == b
}

/// Whether an optional address is the given address.
pub fn option_key_is(a: &Option<Pubkey>, b: &Pubkey) -> (r: bool)
    ensures
        r == (*a == Some(*b)),
{
    match a {
        Some(k) => keys_equal(k, b),
        None => false,
    }
}

/// The byte length of the UTF-8 encoding of a string.
pub open spec fn utf8_len(s: Seq<char>) -> nat {
    vstd::utf8::encode_utf8(s).len()
}

/// A character takes at most four bytes in UTF-8.
pub proof fn lemma_utf8_len_at_most_four_per_char(s: Seq<char>)
    ensures
        utf8_len(s) <= 4 * s.len(),
    decreases s.len(),
{
    if s.len() > 0 {
        lemma_utf8_len_at_most_four_per_char(s.drop_first());
    }
}

/// The size of a Token-2022 mint account whose only extension is
/// `MetadataPointer`: the base account (165 bytes), the account-type byte, and
/// one TLV entry made of a 2-byte type, a 2-byte length and the 64-byte
/// `MetadataPointer` value (two 32-byte optional addresses).
pub open spec fn metadata_pointer_mint_len_spec() -> nat {
    165 + 1 + (2 + 2 + 64)
}

/// The size of a `TokenMetadata` TLV entry with the given string lengths and
/// no additional metadata: an 8-byte discriminator, a 4-byte length, then the
/// Borsh encoding of the value (update authority 32, mint 32, each string as a
/// 4-byte length and its bytes, and an empty vector as a 4-byte length).
pub open spec fn token_metadata_tlv_len(name_len: nat, symbol_len: nat, uri_len: nat) -> nat {
    8 + 4 + 32 + 32 + (4 + name_len) + (4 + symbol_len) + (4 + uri_len) + 4
}

/// `spl_token_2022::extension::ExtensionType::try_calculate_account_len::<Mint>`
/// with the single extension `MetadataPointer`.  In the source, a non-empty
/// extension list gives the sum of the TLV sizes plus the base account and the
/// account-type byte (234 here, which is not the multisig length that would be
/// adjusted), and no error: so the call returns `Ok` of that size.
#[verifier::external_body]
pub fn metadata_pointer_mint_len() -> (r: Result<usize, ProgramError>)
    ensures
        r is Ok,
        r->Ok_0 == metadata_pointer_mint_len_spec(),
{
    ExtensionType::try_calculate_account_len::<MintState>(&[ExtensionType::MetadataPointer])
}

/// `spl_token_metadata_interface::state::TokenMetadata::tlv_size_of` on a
/// value built from the three strings, the other fields left at their
/// defaults.  The source counts the Borsh-encoded bytes and adds the TLV
/// header; Borsh refuses only strings longer than `u32::MAX` bytes, which the
/// `requires` leaves out, as it leaves out a total that would not fit a
/// `usize`.
#[verifier::external_body]
pub fn token_metadata_tlv_size(name: &String, symbol: &String, uri: &String) -> (r: Result<
    usize,
    ProgramError,
>)
    requires
        utf8_len(name@) <= u32::MAX,
        utf8_len(symbol@) <= u32::MAX,
        utf8_len(uri@) <= u32::MAX,
        token_metadata_tlv_len(utf8_len(name@), utf8_len(symbol@), utf8_len(uri@)) <= usize::MAX,
    ensures
        r is Ok,
        r->Ok_0 == token_metadata_tlv_len(utf8_len(name@), utf8_len(symbol@), utf8_len(uri@)),
{
    let token_metadata = TokenMetadata {
        name: name.clone(),
        symbol: symbol.clone(),
        uri: uri.clone(),
        ..Default::default()
    };
    token_metadata.tlv_size_of()
}

/// Whether the 4-byte `COption` tag at `at` is one that
/// `spl_token_2022::state::unpack_coption_key` accepts (`[0,0,0,0]` for none,
/// `[1,0,0,0]` for some).
pub open spec fn coption_tag_ok(data: Seq<u8>, at: int) -> bool {
    &&& data[at] == 0 || data[at] == 1
    &&& data[at + 1] == 0
    &&& data[at + 2] == 0
    &&& data[at + 3] == 0
}

/// What `StateWithExtensions::<Mint>::unpack` accepts, and the `decimals` of
/// the mint it reads.  The base mint is 82 bytes: mint authority (`COption`,
/// 36 bytes), supply (8), decimals (byte 44), `is_initialized` (byte 45, which
/// must be 1), freeze authority (`COption`, 36).  A 355-byte buffer (a
/// multisig) is refused.  Longer buffers must have zero padding up to byte
/// 165, the mint account type (1) at byte 165, and at least one more byte.
pub open spec fn unpacked_mint_decimals(data: Seq<u8>) -> Option<u8> {
    if data.len() < 82 || data.len() == 355 {
        None
    } else if !coption_tag_ok(data, 0) || data[45] != 1 || !coption_tag_ok(data, 46) {
        None
    } else if data.len() == 82 {
        Some(data[44])
    } else if data.len() <= 166 || data[165] != 1 || (exists|i: int|
        82 <= i < 165 && #[trigger] data[i] != 0) {
        None
    } else {
        Some(data[44])
    }
}

/// The error with which `StateWithExtensions::<Mint>::unpack` refuses data
/// that it does not accept: `UninitializedAccount` when the base mint is
/// well formed but its `is_initialized` byte is 0 (the base mint is checked
/// before any extension data), else `InvalidAccountData`.
pub open spec fn mint_unpack_error(data: Seq<u8>) -> RuntimeError {
    if data.len() >= 82 && data.len() != 355 && coption_tag_ok(data, 0) && data[45] == 0
        && coption_tag_ok(data, 46) {
        RuntimeError::UninitializedAccount
    } else {
        RuntimeError::InvalidAccountData
    }
}

/// `spl_token_2022::extension::StateWithExtensions::<Mint>::unpack` on the
/// mint account's data, taking `base.decimals`; a refusal's `ProgramError` is
/// told apart by its variant.  The contract restates the checks of the source
/// (length, `COption` tags, initialised flag, padding and account type) and
/// which of `InvalidAccountData` and `UninitializedAccount` each refusal
/// gives; the source gives no other error.
#[verifier::external_body]
pub fn unpack_mint_decimals(data: &[u8]) -> (r: Result<u8, RuntimeError>)
    ensures
        r is Ok <==> unpacked_mint_decimals(data@) is Some,
        r matches Ok(d) ==> unpacked_mint_decimals(data@) == Some(d),
        r matches Err(e) ==> e == mint_unpack_error(data@),
{
    match StateWithExtensions::<MintState>::unpack(data) {
        Ok(mint) => Ok(mint.base.decimals),
        Err(ProgramError::InvalidAccountData) => Err(RuntimeError::InvalidAccountData),
        Err(ProgramError::UninitializedAccount) => Err(RuntimeError::UninitializedAccount),
        Err(other) => Err(RuntimeError::Other(other)),
    }
}

} // verus!
