//! The two asset classes the vaults hold.

use vstd::prelude::*;

verus! {

/// Which of the two supported reserves an operation touches.
///
/// `Sol` is the oracle-priced asset (9 native decimals); `Usdc` is the
/// stable asset (6 native decimals, valued 1:1 against USD). Callers resolve
/// the asset kind once, at the edge, before entering the accounting core.
#[derive(Clone, Copy, Debug, PartialEq, Eq, Structural)]
pub enum AssetKind {
    Sol,
    Usdc,
}

} // verus!
