use anchor_lang::solana_program::program_option::COption;
use anchor_lang::solana_program::program_pack::Pack;
use anchor_lang::solana_program::pubkey::Pubkey;
use anchor_spl::token_2022::spl_token_2022::state::Mint;
use tangaga::error::CustomError;
use tangaga::instructions::delegate_transfer::{self, DelegateTransfer};
use tangaga::instructions::mint_to_wallet::{mint_to_wallet, MintToWallet};
use tangaga::instructions::transfer_tokens::{transfer_tokens, TransferTokens};
use tangaga::state::{InstructionError, RuntimeError, TokenAccountState, TokenCpi};

fn key(n: u8) -> Pubkey {
    Pubkey::new_from_array([n; 32])
}

fn mint_bytes(decimals: u8) -> Vec<u8> {
    let mint = Mint {
        mint_authority: COption::Some(key(9)),
        supply: 1_000,
        decimals,
        is_initialized: true,
        freeze_authority: COption::None,
    };
    let mut data = vec![0u8; Mint::LEN];
    Mint::pack(mint, &mut data).unwrap();
    data
}

fn transfer_accounts(mint_data: Vec<u8>) -> TransferTokens {
    TransferTokens { mint: key(1), mint_data, from_ata: key(3), to_ata: key(4), owner: key(5) }
}

#[test]
fn mint_to_wallet_mints_into_the_destination() {
    let accounts = MintToWallet { mint: key(1), destination_ata: key(2), authority: key(3) };
    assert_eq!(
        mint_to_wallet(&accounts, 500),
        Ok(TokenCpi::MintTo { mint: key(1), to: key(2), authority: key(3), amount: 500 })
    );
}

#[test]
fn mint_to_wallet_rejects_zero() {
    let accounts = MintToWallet { mint: key(1), destination_ata: key(2), authority: key(3) };
    assert_eq!(mint_to_wallet(&accounts, 0), Err(CustomError::ZeroAmount));
    assert_eq!(
        tangaga::tangaga::mint_to_wallet(&accounts, 0),
        Err(InstructionError::Custom(CustomError::ZeroAmount))
    );
}

#[test]
fn transfer_tokens_reads_the_decimals_of_the_mint() {
    let r = transfer_tokens(&transfer_accounts(mint_bytes(6)), 42);
    assert_eq!(
        r,
        Ok(TokenCpi::TransferChecked {
            from: key(3),
            mint: key(1),
            to: key(4),
            authority: key(5),
            amount: 42,
            decimals: 6,
        })
    );
}

#[test]
fn transfer_tokens_reads_a_mint_with_extensions() {
    let mut data = mint_bytes(2);
    data.resize(165, 0);
    data.push(1); // account type: mint
    data.extend_from_slice(&[0u8; 68]);
    let r = tangaga::tangaga::transfer_tokens(&transfer_accounts(data), 7);
    assert!(matches!(r, Ok(TokenCpi::TransferChecked { decimals: 2, amount: 7, .. })));
}

#[test]
fn transfer_tokens_rejects_zero_before_reading_the_mint() {
    let r = transfer_tokens(&transfer_accounts(vec![]), 0);
    assert_eq!(r, Err(InstructionError::Custom(CustomError::ZeroAmount)));
}

#[test]
fn transfer_tokens_rejects_short_mint_data() {
    let r = transfer_tokens(&transfer_accounts(vec![0u8; 10]), 1);
    assert_eq!(r, Err(InstructionError::Program(RuntimeError::InvalidAccountData)));
}

#[test]
fn transfer_tokens_rejects_an_uninitialized_mint() {
    let r = transfer_tokens(&transfer_accounts(vec![0u8; 82]), 1);
    assert_eq!(r, Err(InstructionError::Program(RuntimeError::UninitializedAccount)));
    // The base mint is checked before the extension data.
    let mut data = vec![0u8; 82];
    data.resize(170, 7);
    let r = transfer_tokens(&transfer_accounts(data), 1);
    assert_eq!(r, Err(InstructionError::Program(RuntimeError::UninitializedAccount)));
}

#[test]
fn transfer_tokens_rejects_a_bad_initialised_flag_or_tag() {
    let mut data = mint_bytes(2);
    data[45] = 2;
    let r = transfer_tokens(&transfer_accounts(data), 1);
    assert_eq!(r, Err(InstructionError::Program(RuntimeError::InvalidAccountData)));
    let mut data = vec![0u8; 82];
    data[0] = 2;
    let r = transfer_tokens(&transfer_accounts(data), 1);
    assert_eq!(r, Err(InstructionError::Program(RuntimeError::InvalidAccountData)));
}

#[test]
fn transfer_tokens_rejects_multisig_length_and_wrong_account_type() {
    let mut data = mint_bytes(2);
    data.resize(355, 0);
    assert!(matches!(
        transfer_tokens(&transfer_accounts(data), 1),
        Err(InstructionError::Program(RuntimeError::InvalidAccountData))
    ));
    let mut data = mint_bytes(2);
    data.resize(165, 0);
    data.push(2); // account type: token account
    data.extend_from_slice(&[0u8; 8]);
    assert!(matches!(
        transfer_tokens(&transfer_accounts(data), 1),
        Err(InstructionError::Program(RuntimeError::InvalidAccountData))
    ));
    let mut data = mint_bytes(2);
    data.resize(166, 0);
    assert!(matches!(
        transfer_tokens(&transfer_accounts(data), 1),
        Err(InstructionError::Program(RuntimeError::InvalidAccountData))
    ));
}

fn delegate_accounts(delegate: Option<Pubkey>, balance: u64) -> DelegateTransfer {
    DelegateTransfer {
        delegate: key(7),
        from_ata: key(3),
        from_ata_state: TokenAccountState { owner: key(5), amount: balance, delegate },
        to_ata: key(4),
        mint: key(1),
    }
}

#[test]
fn delegate_moves_tokens_on_the_delegates_signature() {
    let r = tangaga::tangaga::delegate(&delegate_accounts(Some(key(7)), 100), 100, 6);
    assert_eq!(
        r,
        Ok(TokenCpi::TransferChecked {
            from: key(3),
            mint: key(1),
            to: key(4),
            authority: key(7),
            amount: 100,
            decimals: 6,
        })
    );
}

#[test]
fn delegate_requires_the_signer_to_be_the_delegate() {
    for d in [None, Some(key(8))] {
        let accounts = delegate_accounts(d, 100);
        assert_eq!(accounts.validate(), Err(CustomError::NotOwnerOfToken));
        // The account constraint comes before the handler's checks.
        assert_eq!(
            tangaga::tangaga::delegate(&accounts, 0, 6),
            Err(InstructionError::Custom(CustomError::NotOwnerOfToken))
        );
    }
}

#[test]
fn delegate_after_revoke_is_refused() {
    // After a revoke the source account has no delegate.
    let accounts = delegate_accounts(None, 100);
    for amount in [0, 1, 100] {
        assert_eq!(
            tangaga::tangaga::delegate(&accounts, amount, 6),
            Err(InstructionError::Custom(CustomError::NotOwnerOfToken))
        );
    }
}

#[test]
fn delegate_rejects_zero_and_overdraft() {
    let accounts = delegate_accounts(Some(key(7)), 100);
    assert_eq!(delegate_transfer::handle(&accounts, 0, 6), Err(CustomError::ZeroAmount));
    assert_eq!(delegate_transfer::handle(&accounts, 101, 6), Err(CustomError::InsufficientFunds));
    assert_eq!(
        tangaga::tangaga::delegate(&accounts, 101, 6),
        Err(InstructionError::Custom(CustomError::InsufficientFunds))
    );
}
