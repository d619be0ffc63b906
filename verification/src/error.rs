//! The program's own error codes.

use vstd::prelude::*;

verus! {

/// The errors that the program's own checks raise.
#[derive(Clone, Copy, Debug, PartialEq, Eq, Structural)]
pub enum CustomError {
    /// The token name is longer than the limit.
    NameTooLong,
    /// The token symbol is longer than the limit.
    SymbolTooLong,
    /// The metadata URI is longer than the limit.
    UriTooLong,
    /// An amount of zero was asked for (also raised by `close_account` for a non-empty account).
    ZeroAmount,
    /// The signer is not the mint authority.
    UnauthorizedMinter,
    /// The signer does not own (or is not the delegate of) the token account.
    NotOwnerOfToken,
    /// The token account holds less than the amount asked for.
    InsufficientFunds,
    /// The receiving account's mint is not the expected one.
    MintMismatch,
}

/// The message that goes with each error.
pub open spec fn error_message(e: CustomError) -> Seq<char> {
    match e {
        CustomError::NameTooLong => "代币名称不能超过 32 个字符"@,
        CustomError::SymbolTooLong => "代币符号不能超过 10 个字符"@,
        CustomError::UriTooLong => "URI 不能超过 200 个字符"@,
        CustomError::ZeroAmount => "铸造/转账数量必须大于 0"@,
        CustomError::UnauthorizedMinter => "不是授权的铸币者"@,
        CustomError::NotOwnerOfToken => "不是代币的所有者"@,
        CustomError::InsufficientFunds => "余额不足，无法完成转账"@,
        CustomError::MintMismatch => "转入账户的 mint 与预期不匹配"@,
    }
}

impl CustomError {
    /// The human-readable message of the error.
    pub fn message(&self) -> (r: &'static str)
        ensures
            r@ == error_message(*self),
    {
        match self {
            CustomError::NameTooLong => "代币名称不能超过 32 个字符",
            CustomError::SymbolTooLong => "代币符号不能超过 10 个字符",
            CustomError::UriTooLong => "URI 不能超过 200 个字符",
            CustomError::ZeroAmount => "铸造/转账数量必须大于 0",
            CustomError::UnauthorizedMinter => "不是授权的铸币者",
            CustomError::NotOwnerOfToken => "不是代币的所有者",
            CustomError::InsufficientFunds => "余额不足，无法完成转账",
            CustomError::MintMismatch => "转入账户的 mint 与预期不匹配",
        }
    }
}

} // verus!
