//! The guarantees of the vesting core, stated once over whole operation
//! histories and proved from the operation models: a beneficiary is never
//! paid more than entitled, the cumulative claim never decreases, claiming
//! twice without time passing pays nothing the second time, and revocation
//! is terminal.

use vstd::prelude::*;

use crate::calculator::lemma_compute_percent_in_range;
use crate::engine::spec_claim;
use crate::engine::spec_claimable_now;
use crate::engine::spec_max_claimable;
use crate::engine::spec_reconfigure;
use crate::engine::spec_release;
use crate::engine::spec_revoke;
use crate::errors::VestingError;
use crate::state::AccountId;
use crate::state::Beneficiary;
use crate::state::ConfigVesting;

verus! {

/// One operation applied to an initialized configuration and an enrolled
/// beneficiary, together with everything the environment feeds it: the
/// clock reading for time-gated operations and the escrow balance for a
/// revocation.
pub enum VestingOp {
    Release { caller: AccountId, percent: u8, auto_vesting: bool, vesting_revoked: bool, now: i64 },
    Reconfigure { caller: AccountId, auto_vesting: bool, revoked: bool },
    Revoke { caller: AccountId, escrow_balance: u64 },
    Claim { now: i64 },
}

/// The state after one operation: the successful outcome of its model, or
/// the same state when the model refuses — every error leaves the ledger
/// untouched.
pub open spec fn spec_step(config: ConfigVesting, record: Beneficiary, op: VestingOp) -> (
    ConfigVesting,
    Beneficiary,
) {
    match op {
        VestingOp::Release { caller, percent, auto_vesting, vesting_revoked, now } => match
            spec_release(config, caller, percent, auto_vesting, vesting_revoked, now as int) {
            Ok(c) => (c, record),
            Err(_) => (config, record),
        },
        VestingOp::Reconfigure { caller, auto_vesting, revoked } => match spec_reconfigure(
            config,
            caller,
            auto_vesting,
            revoked,
        ) {
            Ok(c) => (c, record),
            Err(_) => (config, record),
        },
        VestingOp::Revoke { caller, escrow_balance } => match spec_revoke(
            config,
            caller,
            escrow_balance,
        ) {
            Ok((c, _)) => (c, record),
            Err(_) => (config, record),
        },
        VestingOp::Claim { now } => match spec_claim(config, record, now as int) {
            Ok((r, _)) => (config, r),
            Err(_) => (config, record),
        },
    }
}

/// The state after a whole history of operations, applied in order.
pub open spec fn spec_run(
    config: ConfigVesting,
    record: Beneficiary,
    ops: Seq<VestingOp>,
) -> (ConfigVesting, Beneficiary)
    decreases ops.len(),
{
    if ops.len() == 0 {
        (config, record)
    } else {
        let next = spec_step(config, record, ops[0]);
        spec_run(next.0, next.1, ops.subrange(1, ops.len() as int))
    }
}

/// One operation preserves every invariant of the ledger: the
/// configuration stays well-formed with its identities and schedule
/// untouched, the entitlement is immutable, the cumulative claim never
/// exceeds it and never decreases, and a recorded revocation never
/// reverts.
pub proof fn lemma_step_preserves_invariants(
    config: ConfigVesting,
    record: Beneficiary,
    op: VestingOp,
)
    requires
        config.wf(),
        record.wf(),
    ensures
        spec_step(config, record, op).0.wf(),
        spec_step(config, record, op).1.wf(),
        spec_step(config, record, op).1.total_tokens == record.total_tokens,
        spec_step(config, record, op).1.claimed_tokens >= record.claimed_tokens,
        config.revoked ==> spec_step(config, record, op).0.revoked,
        spec_step(config, record, op).0.admin == config.admin,
        spec_step(config, record, op).0.start_time == config.start_time,
        spec_step(config, record, op).0.cliff_duration == config.cliff_duration,
        spec_step(config, record, op).0.vesting_duration == config.vesting_duration,
{
    match op {
        VestingOp::Release { caller, percent, auto_vesting, vesting_revoked, now } => {
            if spec_release(config, caller, percent, auto_vesting, vesting_revoked, now as int)
                matches Ok(_) {
                lemma_compute_percent_in_range(
                    now as int,
                    config.spec_cliff_time(),
                    config.spec_vesting_time(),
                    config.vesting_duration as int,
                    auto_vesting,
                    percent,
                );
            }
        },
        VestingOp::Reconfigure { .. } => {},
        VestingOp::Revoke { .. } => {},
        VestingOp::Claim { now } => {
            if spec_claim(config, record, now as int) matches Ok(_) {
                assert(record.total_tokens * config.percent_available / 100
                    <= record.total_tokens) by (nonlinear_arith)
                    requires
                        config.percent_available <= 100,
                ;
            }
        },
    }
}

/// Over any history of operations: the configuration stays well-formed,
/// the entitlement never changes, the cumulative claim never exceeds the
/// entitlement and never decreases, and once revoked the configuration
/// stays revoked.
pub proof fn lemma_run_preserves_invariants(
    config: ConfigVesting,
    record: Beneficiary,
    ops: Seq<VestingOp>,
)
    requires
        config.wf(),
        record.wf(),
    ensures
        spec_run(config, record, ops).0.wf(),
        spec_run(config, record, ops).1.wf(),
        spec_run(config, record, ops).1.total_tokens == record.total_tokens,
        spec_run(config, record, ops).1.claimed_tokens >= record.claimed_tokens,
        config.revoked ==> spec_run(config, record, ops).0.revoked,
    decreases ops.len(),
{
    if ops.len() > 0 {
        lemma_step_preserves_invariants(config, record, ops[0]);
        let next = spec_step(config, record, ops[0]);
        lemma_run_preserves_invariants(next.0, next.1, ops.subrange(1, ops.len() as int));
    }
}

/// Claiming twice in immediate succession, with no time passing and no
/// release in between, pays once: the second claim finds nothing left and
/// is refused.
pub proof fn lemma_claim_idempotent(
    config: ConfigVesting,
    record: Beneficiary,
    updated: Beneficiary,
    amount: u64,
    now: int,
)
    requires
        config.wf(),
        spec_claim(config, record, now) == Ok::<(Beneficiary, u64), VestingError>(
            (updated, amount),
        ),
    ensures
        spec_claim(config, updated, now) == Err::<(Beneficiary, u64), VestingError>(
            VestingError::NothingToClaim,
        ),
{
    assert(record.total_tokens * config.percent_available / 100 <= record.total_tokens)
        by (nonlinear_arith)
        requires
            config.percent_available <= 100,
    ;
    assert(updated.claimed_tokens == spec_max_claimable(
        record.total_tokens,
        config.percent_available,
    ));
    assert(spec_claimable_now(updated, config.percent_available) == 0);
}

/// Revocation is terminal: whatever operations follow a revoked state, the
/// configuration stays revoked and every claim against it is refused as
/// revoked, whatever `percent_available` holds.
pub proof fn lemma_revocation_terminal(
    config: ConfigVesting,
    record: Beneficiary,
    ops: Seq<VestingOp>,
    now: int,
)
    requires
        config.wf(),
        record.wf(),
        config.revoked,
    ensures
        spec_run(config, record, ops).0.revoked,
        spec_claim(spec_run(config, record, ops).0, spec_run(config, record, ops).1, now)
            == Err::<(Beneficiary, u64), VestingError>(VestingError::VestingRevoked),
{
    lemma_run_preserves_invariants(config, record, ops);
}

} // verus!
