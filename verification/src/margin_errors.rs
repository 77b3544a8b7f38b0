//! Errors surfaced by the margin-account ledger.

use vstd::prelude::*;

verus! {

/// Every failure of a margin operation, one variant per cause.
#[derive(Clone, Copy, Debug, PartialEq, Eq, Structural)]
pub enum ErrorCode {
    /// Insufficient margin balance for withdrawal or settlement.
    InsufficientMargin,
    /// Invalid withdrawal amount.
    InvalidWithdrawalAmount,
    /// Withdrawal timelock not expired.
    WithdrawalTimelockNotExpired,
    /// No pending withdrawal request.
    NoPendingWithdrawal,
    /// Invalid authority.
    InvalidAuthority,
    /// Arithmetic overflow.
    ArithmeticOverflow,
    /// Account already initialized.
    AlreadyInitialized,
    /// Negative PnL not large enough to wipe account.
    InsufficientNegativePnl,
    /// Invalid owner.
    InvalidOwner,
    /// Unauthorized liquidation.
    UnauthorizedLiquidation,
    /// Unauthorized account.
    UnauthorizedAccount,
    /// Existing withdrawal request.
    ExistingWithdrawalRequest,
    /// Unauthorized execution.
    UnauthorizedExecution,
    /// Insufficient withdrawable margin.
    InsufficientWithdrawableMargin,
    /// Position is liquidatable.
    LiquidatablePosition,
    /// Zero deposit amount.
    ZeroDepositAmount,
    /// Unauthorized operation.
    Unauthorized,
    /// Authority already exists.
    AuthorityAlreadyExists,
    /// Maximum number of authorities reached.
    MaxAuthoritiesReached,
    /// Cannot remove the last authority.
    CannotRemoveLastAuthority,
    /// Authority not found.
    AuthorityNotFound,
}

/// Older name for the same error set, kept for callers of the margin API.
pub type MarginError = ErrorCode;

} // verus!
