//! Error kinds of the vesting core.

use vstd::prelude::*;

verus! {

/// Every way an operation of the vesting core can refuse to act.
/// All validation failures surface immediately to the caller with no
/// partial mutation; none are retried internally.
#[derive(Clone, Copy, Debug, PartialEq, Eq, Structural)]
pub enum VestingError {
    /// The caller identity does not match the admin role required for an
    /// administrative operation.
    Unauthorized,
    /// A caller-supplied percentage exceeds 100.
    InvalidPercentage,
    /// The computed claimable amount is zero.
    NothingToClaim,
    /// The current time has not passed the cliff.
    EarlyClaim,
    /// Reserved for a claim-window-closed condition; never produced by the
    /// canonical flow, kept for interface parity.
    LateClaim,
    /// A claim or release was attempted after revocation.
    VestingRevoked,
    /// A revocation was requested while the escrow balance is zero.
    NothingToReclaim,
    /// A configuration already exists for this deployment key.
    AlreadyInitialized,
    /// A record already exists for this beneficiary identity.
    AlreadyEnrolled,
}

} // verus!
