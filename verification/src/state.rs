//! Vesting state: the per-deployment configuration and the per-beneficiary
//! record, with their well-formedness conditions.

use vstd::prelude::*;

verus! {

/// An identity on the surrounding ledger (an account, a holding, a signer),
/// held as 256 bits of plain data. The core never inspects an identity
/// beyond comparing it for equality.
#[derive(Clone, Copy, Debug, PartialEq, Eq, Structural)]
pub struct AccountId {
    pub w0: u64,
    pub w1: u64,
    pub w2: u64,
    pub w3: u64,
}

/// One vesting configuration per administered asset and deployment.
///
/// `authority` signs outgoing transfers from the escrow; `admin` is the only
/// identity allowed to perform administrative operations. Both are set at
/// initialization and never change, as are the asset reference, the escrow
/// reference, the decimal scaling and the schedule. Only `percent_available`
/// (through `release`), `auto_vesting` and `revoked` (through `reconfigure`
/// and `revoke`) ever move.
#[derive(Clone, Copy, Debug, PartialEq, Eq, Structural)]
pub struct ConfigVesting {
    /// Delegated signing identity for transfers out of the escrow.
    pub authority: AccountId,
    /// Identity allowed to reconfigure, release and revoke.
    pub admin: AccountId,
    /// The administered asset.
    pub token_mint: AccountId,
    /// The custody holding of the deposited entitlement pool.
    pub escrow_wallet: AccountId,
    /// Scaling applied to human-denominated amounts at deposit time.
    pub decimals: u8,
    /// Release percentage currently authorized, always in `[0, 100]`.
    pub percent_available: u8,
    /// Start of the schedule.
    pub start_time: i64,
    /// Seconds from `start_time` to the cliff.
    pub cliff_duration: u64,
    /// Seconds from the cliff to full vesting.
    pub vesting_duration: u64,
    /// Terminal switch: once true, no claim or percentage change takes
    /// effect again.
    pub revoked: bool,
    /// Mode selector for the release calculator: automatic (schedule-driven)
    /// or manual (admin-supplied percentage).
    pub auto_vesting: bool,
}

impl ConfigVesting {
    /// The moment before which no claim is permitted.
    pub open spec fn spec_cliff_time(self) -> int {
        self.start_time + self.cliff_duration
    }

    /// The moment at which the schedule is fully vested.
    pub open spec fn spec_vesting_time(self) -> int {
        self.spec_cliff_time() + self.vesting_duration
    }

    /// Well-formedness: the release percentage is a true percentage and the
    /// whole schedule fits the time axis.
    pub open spec fn wf(self) -> bool {
        &&& self.percent_available <= 100
        &&& self.spec_vesting_time() <= i64::MAX
    }

    /// Computes the cliff time, `start_time + cliff_duration`.
    pub fn cliff_time(&self) -> (r: i64)
        requires
            self.wf(),
        ensures
            r == self.spec_cliff_time(),
    {
        proof {
            assert(self.spec_cliff_time() <= self.spec_vesting_time());
        }
        (self.start_time as i128 + self.cliff_duration as i128) as i64
    }

    /// Computes the full-vesting time, `cliff_time + vesting_duration`.
    pub fn vesting_time(&self) -> (r: i64)
        requires
            self.wf(),
        ensures
            r == self.spec_vesting_time(),
    {
        (self.start_time as i128 + self.cliff_duration as i128 + self.vesting_duration as i128)
            as i64
    }
}

/// One record per enrolled beneficiary: the entitlement, set once at
/// enrollment, and the cumulative amount already paid out.
#[derive(Clone, Copy, Debug, PartialEq, Eq, Structural)]
pub struct Beneficiary {
    /// Destination identity for claimed tokens.
    pub beneficiary_wallet: AccountId,
    /// Total entitlement, immutable after enrollment.
    pub total_tokens: u64,
    /// Cumulative amount paid out; never decreases, never exceeds
    /// `total_tokens`.
    pub claimed_tokens: u64,
}

impl Beneficiary {
    /// Well-formedness: no beneficiary is ever paid more than entitled.
    pub open spec fn wf(self) -> bool {
        self.claimed_tokens <= self.total_tokens
    }
}

} // verus!
