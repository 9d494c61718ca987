use vstd::prelude::*;

verus! {

/// Why an instruction was rejected.
#[derive(Clone, Copy, Debug, PartialEq, Eq, Structural)]
pub enum FundErrorCode {
    NotOwnedByProgram,
    NotRentExempt,
    AlreadyInitialized,
    InvalidVaultNonce,
    InvalidVault,
    InvalidMintAuthority,
    InvalidMint,
    Unauthorized,
    NotInitialized,
    FundClosed,
    BalanceOverflow,
    MissingAccount,
    InsufficientBalance,
    RoundOverflow,
}

} // verus!
