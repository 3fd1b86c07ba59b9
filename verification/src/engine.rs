//! The operation engine: configuration lifecycle (initialize, reconfigure,
//! release, revoke), enrollment, and claim settlement.
//!
//! Each operation is a pure decision: it takes the state the caller loaded
//! plus the facts only the environment knows (the clock reading, the escrow
//! balance, whether a record already exists), and returns the new state
//! together with the transfer the caller must request, or the error that
//! refuses the operation. A spec-level model of every operation states the
//! result exactly; the executable functions are proved equal to it.
//!
//! Where an operation also requests a transfer, the caller commits the
//! returned state only after the transfer service reports success, so the
//! operation as a whole is all-or-nothing.

use vstd::pervasive::unreached;
use vstd::prelude::*;

use crate::calculator::pow10;
use crate::calculator::scaled_amount;
use crate::calculator::spec_compute_percent;
use crate::calculator::compute_percent;
use crate::errors::VestingError;
use crate::state::AccountId;
use crate::state::Beneficiary;
use crate::state::ConfigVesting;

verus! {

/// The amount currently authorized for a beneficiary in total:
/// `floor(total_tokens * percent_available / 100)`.
pub open spec fn spec_max_claimable(total_tokens: u64, percent_available: u8) -> int {
    total_tokens * percent_available / 100
}

/// The portion of the authorized amount not yet paid out, saturating at
/// zero: never negative, whatever the record holds.
pub open spec fn spec_claimable_now(record: Beneficiary, percent_available: u8) -> int {
    let max_claimable = spec_max_claimable(record.total_tokens, percent_available);
    if max_claimable > record.claimed_tokens {
        max_claimable - record.claimed_tokens
    } else {
        0
    }
}

/// What `initialize_vesting` decides: refuse a duplicate configuration,
/// else create the configuration (zero released, not revoked, manual mode)
/// together with the deposit to move from the admin's holding into escrow.
pub open spec fn spec_initialize_vesting(
    config_exists: bool,
    admin: AccountId,
    authority: AccountId,
    token_mint: AccountId,
    escrow_wallet: AccountId,
    amount: u64,
    decimals: u8,
    start_time: i64,
    cliff_duration: u64,
    vesting_duration: u64,
) -> Result<(ConfigVesting, u64), VestingError> {
    if config_exists {
        Err(VestingError::AlreadyInitialized)
    } else {
        Ok(
            (
                ConfigVesting {
                    authority,
                    admin,
                    token_mint,
                    escrow_wallet,
                    decimals,
                    percent_available: 0,
                    start_time,
                    cliff_duration,
                    vesting_duration,
                    revoked: false,
                    auto_vesting: false,
                },
                (amount * pow10(decimals as nat)) as u64,
            ),
        )
    }
}

/// What `add_beneficiary` decides: only the admin enrolls, a beneficiary is
/// enrolled at most once, and a fresh record starts with nothing claimed.
pub open spec fn spec_add_beneficiary(
    config: ConfigVesting,
    record_exists: bool,
    caller: AccountId,
    beneficiary_wallet: AccountId,
    total_tokens: u64,
) -> Result<Beneficiary, VestingError> {
    if caller != config.admin {
        Err(VestingError::Unauthorized)
    } else if record_exists {
        Err(VestingError::AlreadyEnrolled)
    } else {
        Ok(Beneficiary { beneficiary_wallet, total_tokens, claimed_tokens: 0 })
    }
}

/// What `release` decides: admin-only, refused after revocation (whether
/// recorded or asserted by the caller), the requested percentage must be a
/// percentage, the cliff must have passed; then the release calculator's
/// result becomes the stored `percent_available` and nothing else moves.
pub open spec fn spec_release(
    config: ConfigVesting,
    caller: AccountId,
    percent: u8,
    auto_vesting: bool,
    vesting_revoked: bool,
    now: int,
) -> Result<ConfigVesting, VestingError> {
    if caller != config.admin {
        Err(VestingError::Unauthorized)
    } else if config.revoked || vesting_revoked {
        Err(VestingError::VestingRevoked)
    } else if percent > 100 {
        Err(VestingError::InvalidPercentage)
    } else if now <= config.spec_cliff_time() {
        Err(VestingError::EarlyClaim)
    } else {
        Ok(
            ConfigVesting {
                percent_available: spec_compute_percent(
                    now,
                    config.spec_cliff_time(),
                    config.spec_vesting_time(),
                    config.vesting_duration as int,
                    auto_vesting,
                    percent,
                ) as u8,
                ..config
            },
        )
    }
}

/// What `reconfigure` decides: admin-only; the mode is overwritten, and the
/// revocation flag can be set but never cleared — revocation stays
/// terminal.
pub open spec fn spec_reconfigure(
    config: ConfigVesting,
    caller: AccountId,
    auto_vesting: bool,
    revoked: bool,
) -> Result<ConfigVesting, VestingError> {
    if caller != config.admin {
        Err(VestingError::Unauthorized)
    } else {
        Ok(ConfigVesting { auto_vesting, revoked: config.revoked || revoked, ..config })
    }
}

/// What `revoke` decides: admin-only, refused while the escrow is empty;
/// then the configuration is revoked for good and the whole escrow balance
/// moves back to the admin's holding.
pub open spec fn spec_revoke(
    config: ConfigVesting,
    caller: AccountId,
    escrow_balance: u64,
) -> Result<(ConfigVesting, u64), VestingError> {
    if caller != config.admin {
        Err(VestingError::Unauthorized)
    } else if escrow_balance == 0 {
        Err(VestingError::NothingToReclaim)
    } else {
        Ok((ConfigVesting { revoked: true, ..config }, escrow_balance))
    }
}

/// What `claim` decides: refused after revocation or before the cliff or
/// when nothing is claimable; otherwise the record's cumulative claim rises
/// by exactly the claimable amount, which is also the transfer to request
/// from escrow to the beneficiary.
pub open spec fn spec_claim(config: ConfigVesting, record: Beneficiary, now: int) -> Result<
    (Beneficiary, u64),
    VestingError,
> {
    if config.revoked {
        Err(VestingError::VestingRevoked)
    } else if now <= config.spec_cliff_time() {
        Err(VestingError::EarlyClaim)
    } else if spec_claimable_now(record, config.percent_available) == 0 {
        Err(VestingError::NothingToClaim)
    } else {
        let claimable = spec_claimable_now(record, config.percent_available);
        Ok(
            (
                Beneficiary {
                    claimed_tokens: (record.claimed_tokens + claimable) as u64,
                    ..record
                },
                claimable as u64,
            ),
        )
    }
}

/// Creates the vesting configuration and the deposit request that funds its
/// escrow. `config_exists` is what the configuration store reports for the
/// deployment key; a duplicate is rejected, never merged. The caller must
/// request the returned deposit transfer (admin holding to escrow,
/// authorized by the admin) and commit the configuration only if that
/// transfer succeeds.
pub fn initialize_vesting(
    config_exists: bool,
    admin: AccountId,
    authority: AccountId,
    token_mint: AccountId,
    escrow_wallet: AccountId,
    amount: u64,
    decimals: u8,
    start_time: i64,
    cliff_duration: u64,
    vesting_duration: u64,
) -> (r: Result<(ConfigVesting, u64), VestingError>)
    requires
        amount * pow10(decimals as nat) <= u64::MAX,
        start_time + cliff_duration + vesting_duration <= i64::MAX,
    ensures
        r == spec_initialize_vesting(
            config_exists,
            admin,
            authority,
            token_mint,
            escrow_wallet,
            amount,
            decimals,
            start_time,
            cliff_duration,
            vesting_duration,
        ),
        r matches Ok((config, deposit)) ==> config.wf() && deposit == amount * pow10(
            decimals as nat,
        ),
{
    if config_exists {
        return Err(VestingError::AlreadyInitialized);
    }
    let deposit: u64 = match scaled_amount(amount, decimals) {
        Some(v) => v,
        None => unreached(),
    };
    let config = ConfigVesting {
        authority,
        admin,
        token_mint,
        escrow_wallet,
        decimals,
        percent_available: 0,
        start_time,
        cliff_duration,
        vesting_duration,
        revoked: false,
        auto_vesting: false,
    };
    Ok((config, deposit))
}

/// Enrolls a beneficiary: an administrative action, creating one record
/// with nothing claimed yet. `record_exists` is what the registry reports
/// for the beneficiary identity; a duplicate is rejected.
pub fn add_beneficiary(
    config: &ConfigVesting,
    record_exists: bool,
    caller: AccountId,
    beneficiary_wallet: AccountId,
    total_tokens: u64,
) -> (r: Result<Beneficiary, VestingError>)
    ensures
        r == spec_add_beneficiary(*config, record_exists, caller, beneficiary_wallet, total_tokens),
        r matches Ok(record) ==> record.wf() && record.claimed_tokens == 0
            && record.total_tokens == total_tokens,
{
    if !(caller == config.admin) {
        return Err(VestingError::Unauthorized);
    }
    if record_exists {
        return Err(VestingError::AlreadyEnrolled);
    }
    Ok(Beneficiary { beneficiary_wallet, total_tokens, claimed_tokens: 0 })
}

/// Stores the release percentage the calculator authorizes at `now`,
/// gated on the admin role, on revocation and on the cliff. On an error
/// the configuration is left untouched.
pub fn release(
    config: &mut ConfigVesting,
    caller: AccountId,
    percent: u8,
    auto_vesting: bool,
    vesting_revoked: bool,
    now: i64,
) -> (r: Result<(), VestingError>)
    requires
        old(config).wf(),
    ensures
        final(config).wf(),
        match spec_release(*old(config), caller, percent, auto_vesting, vesting_revoked, now as int) {
            Ok(c) => r == Ok::<(), VestingError>(()) && *final(config) == c,
            Err(e) => r == Err::<(), VestingError>(e) && *final(config) == *old(config),
        },
{
    if !(caller == config.admin) {
        return Err(VestingError::Unauthorized);
    }
    if config.revoked || vesting_revoked {
        return Err(VestingError::VestingRevoked);
    }
    if percent > 100 {
        return Err(VestingError::InvalidPercentage);
    }
    let cliff_time = config.cliff_time();
    if now <= cliff_time {
        return Err(VestingError::EarlyClaim);
    }
    let vesting_time = config.vesting_time();
    let p = compute_percent(now, cliff_time, vesting_time, config.vesting_duration, auto_vesting, percent);
    config.percent_available = p;
    Ok(())
}

/// Overwrites the vesting mode and, one-directionally, the revocation
/// flag: a revoked configuration can never be un-revoked. Admin-only; on
/// an error the configuration is left untouched.
pub fn reconfigure_vesting(
    config: &mut ConfigVesting,
    caller: AccountId,
    auto_vesting: bool,
    revoked: bool,
) -> (r: Result<(), VestingError>)
    requires
        old(config).wf(),
    ensures
        final(config).wf(),
        match spec_reconfigure(*old(config), caller, auto_vesting, revoked) {
            Ok(c) => r == Ok::<(), VestingError>(()) && *final(config) == c,
            Err(e) => r == Err::<(), VestingError>(e) && *final(config) == *old(config),
        },
        old(config).revoked ==> final(config).revoked,
{
    if !(caller == config.admin) {
        return Err(VestingError::Unauthorized);
    }
    config.auto_vesting = auto_vesting;
    config.revoked = config.revoked || revoked;
    Ok(())
}

/// Revokes the configuration for good and returns the full escrow balance
/// as the transfer to request (escrow back to the admin's holding,
/// authorized by the delegated signer). The caller commits the revoked
/// configuration only if that transfer succeeds; on an error the
/// configuration is left untouched.
pub fn revoke_vesting(config: &mut ConfigVesting, caller: AccountId, escrow_balance: u64) -> (r:
    Result<u64, VestingError>)
    requires
        old(config).wf(),
    ensures
        final(config).wf(),
        match spec_revoke(*old(config), caller, escrow_balance) {
            Ok((c, reclaim)) => r == Ok::<u64, VestingError>(reclaim) && *final(config) == c
                && c.revoked,
            Err(e) => r == Err::<u64, VestingError>(e) && *final(config) == *old(config),
        },
{
    if !(caller == config.admin) {
        return Err(VestingError::Unauthorized);
    }
    if escrow_balance == 0 {
        return Err(VestingError::NothingToReclaim);
    }
    config.revoked = true;
    Ok(escrow_balance)
}

/// Settles a claim: computes the claimable amount under the current
/// release percentage and returns the updated record together with the
/// transfer to request (escrow to the beneficiary, authorized by the
/// delegated signer). The caller commits the returned record only if that
/// transfer succeeds, so a failed transfer leaves no partial credit.
///
/// On success the cumulative claim rises by exactly the transferred
/// amount, never exceeds the entitlement, and never exceeds the amount the
/// current percentage authorizes.
pub fn claim(config: &ConfigVesting, record: &Beneficiary, now: i64) -> (r: Result<
    (Beneficiary, u64),
    VestingError,
>)
    requires
        config.wf(),
    ensures
        r == spec_claim(*config, *record, now as int),
        config.revoked ==> r == Err::<(Beneficiary, u64), VestingError>(
            VestingError::VestingRevoked,
        ),
        r matches Ok((updated, amount)) ==> {
            &&& amount > 0
            &&& updated.claimed_tokens == record.claimed_tokens + amount
            &&& updated.claimed_tokens <= spec_max_claimable(
                record.total_tokens,
                config.percent_available,
            )
            &&& updated.claimed_tokens <= updated.total_tokens
            &&& updated.total_tokens == record.total_tokens
            &&& updated.beneficiary_wallet == record.beneficiary_wallet
        },
{
    if config.revoked {
        return Err(VestingError::VestingRevoked);
    }
    let cliff_time = config.cliff_time();
    if now <= cliff_time {
        return Err(VestingError::EarlyClaim);
    }
    proof {
        assert(record.total_tokens * config.percent_available <= u64::MAX * 100)
            by (nonlinear_arith)
            requires
                record.total_tokens <= u64::MAX && config.percent_available <= 100,
        ;
        assert(record.total_tokens * config.percent_available / 100 <= record.total_tokens)
            by (nonlinear_arith)
            requires
                config.percent_available <= 100,
        ;
    }
    let max_claimable: u64 = ((record.total_tokens as u128) * (config.percent_available as u128)
        / 100) as u64;
    proof {
        assert(max_claimable == spec_max_claimable(record.total_tokens, config.percent_available));
    }
    let claimable_now: u64 = if max_claimable > record.claimed_tokens {
        max_claimable - record.claimed_tokens
    } else {
        0
    };
    if claimable_now == 0 {
        return Err(VestingError::NothingToClaim);
    }
    let updated = Beneficiary {
        beneficiary_wallet: record.beneficiary_wallet,
        total_tokens: record.total_tokens,
        claimed_tokens: record.claimed_tokens + claimable_now,
    };
    Ok((updated, claimable_now))
}

} // verus!
