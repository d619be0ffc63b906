//! A verified model of the `tangaga` Token-2022 program: the checks that each
//! instruction makes on its accounts and arguments, and the exact token-program
//! calls that it then asks for.

pub mod error;
pub mod solana;
pub mod state;
pub mod instructions;
pub mod tangaga;
pub mod laws;
