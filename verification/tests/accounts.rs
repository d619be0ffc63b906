use anchor_lang::solana_program::pubkey::Pubkey;
use tangaga::error::CustomError;
use tangaga::instructions::approve::{self, ApproveDelegate};
use tangaga::instructions::burn_token::{self, BurnToken};
use tangaga::instructions::close_account::{self, CloseAccount};
use tangaga::instructions::revoke::{self, RevokeDelegate};
use tangaga::state::{InstructionError, TokenAccountState, TokenCpi};

fn key(n: u8) -> Pubkey {
    Pubkey::new_from_array([n; 32])
}

fn state(owner: Pubkey, amount: u64) -> TokenAccountState {
    TokenAccountState { owner, amount, delegate: None }
}

#[test]
fn approve_authorises_the_delegate() {
    let accounts = ApproveDelegate { owner: key(5), token_account: key(3), delegate: key(7) };
    let expected = TokenCpi::Approve { to: key(3), delegate: key(7), authority: key(5), amount: 100 };
    assert_eq!(approve::handle(&accounts, 100), expected.clone());
    assert_eq!(tangaga::tangaga::approve(&accounts, 100), Ok(expected));
}

#[test]
fn revoke_by_the_owner() {
    let accounts = RevokeDelegate { owner: key(5), token_account: key(3), token_account_state: state(key(5), 9) };
    assert_eq!(accounts.validate(), Ok(()));
    assert_eq!(
        tangaga::tangaga::revoke(&accounts),
        Ok(TokenCpi::Revoke { source: key(3), authority: key(5) })
    );
    assert_eq!(revoke::handle(&accounts), TokenCpi::Revoke { source: key(3), authority: key(5) });
}

#[test]
fn revoke_by_another_signer_is_refused() {
    let accounts = RevokeDelegate { owner: key(6), token_account: key(3), token_account_state: state(key(5), 9) };
    assert_eq!(accounts.validate(), Err(CustomError::NotOwnerOfToken));
    assert_eq!(
        tangaga::tangaga::revoke(&accounts),
        Err(InstructionError::Custom(CustomError::NotOwnerOfToken))
    );
}

#[test]
fn owner_can_revoke_what_they_approved() {
    let approval = ApproveDelegate { owner: key(5), token_account: key(3), delegate: key(7) };
    let revocation = RevokeDelegate { owner: key(5), token_account: key(3), token_account_state: state(key(5), 0) };
    match (approve::handle(&approval, 10), tangaga::tangaga::revoke(&revocation)) {
        (TokenCpi::Approve { to, authority, .. }, Ok(TokenCpi::Revoke { source, authority: a })) => {
            assert_eq!(to, source);
            assert_eq!(authority, a);
        }
        other => panic!("unexpected {:?}", other),
    }
}

#[test]
fn burn_is_signed_by_the_holder() {
    let accounts = BurnToken { mint: key(1), from_ata: key(3), owner: key(5) };
    let expected = TokenCpi::Burn { mint: key(1), from: key(3), authority: key(5), amount: 25 };
    assert_eq!(burn_token::handle(&accounts, 25), expected.clone());
    assert_eq!(tangaga::tangaga::burn(&accounts, 25), Ok(expected));
}

#[test]
fn close_account_returns_rent_to_the_owner() {
    let accounts = CloseAccount { owner: key(5), token_account: key(3), token_account_state: state(key(5), 0) };
    assert_eq!(
        tangaga::tangaga::close_account(&accounts),
        Ok(TokenCpi::CloseAccount { account: key(3), destination: key(5), authority: key(5) })
    );
}

#[test]
fn close_account_refuses_a_stranger_first() {
    let accounts = CloseAccount { owner: key(6), token_account: key(3), token_account_state: state(key(5), 4) };
    assert_eq!(accounts.validate(), Err(CustomError::NotOwnerOfToken));
    assert_eq!(
        tangaga::tangaga::close_account(&accounts),
        Err(InstructionError::Custom(CustomError::NotOwnerOfToken))
    );
}

#[test]
fn close_account_refuses_a_non_empty_account() {
    let accounts = CloseAccount { owner: key(5), token_account: key(3), token_account_state: state(key(5), 4) };
    assert_eq!(accounts.validate(), Err(CustomError::ZeroAmount));
    assert_eq!(
        tangaga::tangaga::close_account(&accounts),
        Err(InstructionError::Custom(CustomError::ZeroAmount))
    );
}

#[test]
fn close_account_handler_checks_balance_then_owner() {
    let accounts = CloseAccount { owner: key(6), token_account: key(3), token_account_state: state(key(5), 4) };
    assert_eq!(close_account::handle(&accounts), Err(CustomError::InsufficientFunds));
    let accounts = CloseAccount { owner: key(6), token_account: key(3), token_account_state: state(key(5), 0) };
    assert_eq!(close_account::handle(&accounts), Err(CustomError::NotOwnerOfToken));
}

#[test]
fn error_messages() {
    assert_eq!(CustomError::NameTooLong.message(), "代币名称不能超过 32 个字符");
    assert_eq!(CustomError::SymbolTooLong.message(), "代币符号不能超过 10 个字符");
    assert_eq!(CustomError::UriTooLong.message(), "URI 不能超过 200 个字符");
    assert_eq!(CustomError::ZeroAmount.message(), "铸造/转账数量必须大于 0");
    assert_eq!(CustomError::UnauthorizedMinter.message(), "不是授权的铸币者");
    assert_eq!(CustomError::NotOwnerOfToken.message(), "不是代币的所有者");
    assert_eq!(CustomError::InsufficientFunds.message(), "余额不足，无法完成转账");
    assert_eq!(CustomError::MintMismatch.message(), "转入账户的 mint 与预期不匹配");
}
