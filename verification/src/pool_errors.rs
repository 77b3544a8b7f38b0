//! Errors surfaced by the liquidity-pool ledger.

use vstd::prelude::*;

verus! {

/// Every failure of a pool operation, one variant per cause.
#[derive(Clone, Copy, Debug, PartialEq, Eq, Structural)]
pub enum ErrorCode {
    /// User has insufficient LP token balance.
    InsufficientLpBalance,
    /// Only admin (or an authority, where allowed) can call this function.
    Unauthorized,
    /// Overflow or math error.
    MathError,
    /// Rewards have ended.
    RewardsEnded,
    /// Invalid token mint provided.
    InvalidTokenMint,
    /// Invalid owner.
    InvalidOwner,
    /// Rewards have not started yet.
    RewardsNotStarted,
    /// No LP tokens found.
    NoLPTokens,
    /// Insufficient reward balance.
    InsufficientRewardBalance,
    /// Token account not provided when required.
    TokenAccountNotProvided,
    /// Invalid token account provided.
    InvalidTokenAccount,
    /// Insufficient funds to withdraw.
    InsufficientFunds,
    /// Invalid token amount provided.
    InvalidTokenAmount,
    /// Previous period has not ended.
    PreviousPeriodNotEnded,
    /// Invalid reward vault provided.
    InvalidRewardVault,
    /// Authority already exists.
    AuthorityAlreadyExists,
    /// Maximum number of authorities reached.
    MaxAuthoritiesReached,
    /// Cannot remove the last authority.
    CannotRemoveLastAuthority,
    /// Authority not found.
    AuthorityNotFound,
    /// Invalid PDA address.
    InvalidPdaAddress,
}

/// Older name for the same error set, kept for callers of the vault API.
pub type VaultError = ErrorCode;

} // verus!
