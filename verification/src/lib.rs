//! Accounting core of a pooled-liquidity venue for a leveraged-trading
//! protocol: NAV-based share accounting over two asset classes, a streaming
//! reward distributor, and a timelocked two-phase withdrawal state machine
//! for margin accounts with proportional PnL settlement against the pool.
//!
//! The host runtime (account storage, token transfers, the oracle feed) is
//! outside this crate; every operation here takes the values it needs (prices,
//! timestamps, supplies) as plain arguments and returns the amounts the host
//! must move.

pub mod asset;
pub mod feed;
pub mod laws;
pub mod margin_errors;
pub mod margin_ops;
pub mod margin_state;
pub mod oracle_math;
pub mod pool_errors;
pub mod pool_ops;
pub mod pool_state;
pub mod rewards;
pub mod settlement;
