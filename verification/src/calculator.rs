//! The release calculator: a pure function from the schedule, the current
//! time and the mode to the release percentage currently authorized, plus
//! the decimal scaling applied to deposits.

use vstd::prelude::*;

verus! {

/// `10^e`, the decimal scaling factor.
pub open spec fn pow10(e: nat) -> nat
    decreases e,
{
    if e == 0 {
        1
    } else {
        10 * pow10((e - 1) as nat)
    }
}

pub proof fn lemma_pow10_pos(e: nat)
    ensures
        pow10(e) >= 1,
    decreases e,
{
    if e > 0 {
        lemma_pow10_pos((e - 1) as nat);
    }
}

pub proof fn lemma_pow10_adds(a: nat, b: nat)
    ensures
        pow10(a + b) == pow10(a) * pow10(b),
    decreases b,
{
    if b == 0 {
        assert(pow10(a) * pow10(0) == pow10(a) * 1);
    } else {
        lemma_pow10_adds(a, (b - 1) as nat);
        assert(pow10(a + b) == 10 * pow10((a + b - 1) as nat));
        assert(pow10(a) * (10 * pow10((b - 1) as nat)) == 10 * (pow10(a) * pow10(
            (b - 1) as nat,
        ))) by (nonlinear_arith);
    }
}

/// Scales a human-denominated amount by `10^decimals`, the exact quantity
/// deposited into escrow; `None` exactly when the product does not fit the
/// amount type.
pub fn scaled_amount(amount: u64, decimals: u8) -> (r: Option<u64>)
    ensures
        match r {
            Some(v) => v == amount * pow10(decimals as nat),
            None => amount * pow10(decimals as nat) > u64::MAX,
        },
{
    let mut acc: u64 = amount;
    let mut i: u8 = 0;
    proof {
        assert(pow10(0) == 1);
        assert(amount * pow10(0) == amount);
    }
    while i < decimals
        invariant
            i <= decimals,
            acc == amount * pow10(i as nat),
        decreases decimals - i,
    {
        proof {
            assert(pow10((i + 1) as nat) == 10 * pow10(i as nat));
            assert(amount * (10 * pow10(i as nat)) == 10 * (amount * pow10(i as nat)))
                by (nonlinear_arith);
        }
        match acc.checked_mul(10) {
            Some(v) => {
                acc = v;
            },
            None => {
                proof {
                    lemma_pow10_adds((i + 1) as nat, (decimals - i - 1) as nat);
                    lemma_pow10_pos((decimals - i - 1) as nat);
                    assert(amount * ((pow10((i + 1) as nat)) * pow10((decimals - i - 1) as nat))
                        >= amount * pow10((i + 1) as nat)) by (nonlinear_arith)
                        requires
                            pow10((decimals - i - 1) as nat) >= 1,
                    ;
                }
                return None;
            },
        }
        i = i + 1;
    }
    Some(acc)
}

/// The release percentage authorized at `now` under the given schedule and
/// mode, always in `[0, 100]`.
///
/// Manual mode returns the requested percentage as-is (the caller has
/// already validated it). Automatic mode is fully vested at or after the
/// vesting time, zero before the cliff, and otherwise grows linearly with
/// truncating division, under-paying within a period rather than ever
/// rounding up; a zero vesting duration past the cliff counts as fully
/// vested.
pub open spec fn spec_compute_percent(
    now: int,
    cliff_time: int,
    vesting_time: int,
    vesting_duration: int,
    auto_vesting: bool,
    requested_percent: u8,
) -> int {
    if !auto_vesting {
        requested_percent as int
    } else if now >= vesting_time {
        100
    } else if now < cliff_time {
        0
    } else if vesting_duration == 0 {
        100
    } else {
        (now - cliff_time) * 100 / vesting_duration
    }
}

/// The calculator's result is a percentage whenever the requested
/// percentage is one and the vesting time is derived from the cliff and
/// the duration.
pub proof fn lemma_compute_percent_in_range(
    now: int,
    cliff_time: int,
    vesting_time: int,
    vesting_duration: int,
    auto_vesting: bool,
    requested_percent: u8,
)
    requires
        requested_percent <= 100,
        vesting_time == cliff_time + vesting_duration,
        vesting_duration >= 0,
    ensures
        0 <= spec_compute_percent(
            now,
            cliff_time,
            vesting_time,
            vesting_duration,
            auto_vesting,
            requested_percent,
        ) <= 100,
{
    if auto_vesting && now < vesting_time && now >= cliff_time && vesting_duration != 0 {
        assert((now - cliff_time) * 100 / vesting_duration < 100) by (nonlinear_arith)
            requires
                0 <= now - cliff_time < vesting_duration,
        ;
        assert((now - cliff_time) * 100 / vesting_duration >= 0) by (nonlinear_arith)
            requires
                now - cliff_time >= 0 && vesting_duration > 0,
        ;
    }
}

/// Computes the release percentage authorized at `now`.
pub fn compute_percent(
    now: i64,
    cliff_time: i64,
    vesting_time: i64,
    vesting_duration: u64,
    auto_vesting: bool,
    requested_percent: u8,
) -> (r: u8)
    requires
        requested_percent <= 100,
        vesting_time == cliff_time + vesting_duration,
    ensures
        r == spec_compute_percent(
            now as int,
            cliff_time as int,
            vesting_time as int,
            vesting_duration as int,
            auto_vesting,
            requested_percent,
        ),
        r <= 100,
{
    if !auto_vesting {
        requested_percent
    } else if now >= vesting_time {
        100
    } else if now < cliff_time {
        0
    } else if vesting_duration == 0 {
        100
    } else {
        let elapsed: u64 = (now as i128 - cliff_time as i128) as u64;
        proof {
            assert(elapsed < vesting_duration);
        }
        let p: u128 = (elapsed as u128) * 100 / (vesting_duration as u128);
        proof {
            assert(elapsed * 100 / (vesting_duration as int) < 100) by (nonlinear_arith)
                requires
                    0 <= elapsed < vesting_duration,
            ;
        }
        p as u8
    }
}

} // verus!
