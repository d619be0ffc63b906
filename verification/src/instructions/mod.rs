//! The program's instructions: for each, the accounts it reads, the checks it
//! makes and the token-program call it asks for.

pub mod approve;
pub mod burn_token;
pub mod close_account;
pub mod create_token;
pub mod delegate_transfer;
pub mod mint_to_wallet;
pub mod revoke;
pub mod transfer_tokens;

pub use approve::ApproveDelegate;
pub use burn_token::BurnToken;
pub use close_account::CloseAccount;
pub use create_token::{create_token, CreateToken, CreateTokenPlan};
pub use delegate_transfer::DelegateTransfer;
pub use mint_to_wallet::{mint_to_wallet, MintToWallet};
pub use revoke::RevokeDelegate;
pub use transfer_tokens::{transfer_tokens, TransferTokens};
