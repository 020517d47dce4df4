//! Reward arithmetic of the staking pools: base yield, risk and performance
//! adjustment, vesting, emission capping and early-withdrawal penalties,
//! all in basis points (10000 = 1x) and whole token units.
use vstd::prelude::*;

verus! {

/// Seconds in a (365-day) year.
pub const SECONDS_PER_YEAR: i128 = 31_536_000;

/// 10000 basis points = 1x.
pub const BASIS_POINTS: i128 = 10_000;

/// Highest yield, in basis points, that an adjusted APY is capped at.
pub const MAX_ADJUSTED_APY: u32 = 1_000_000;

/// Highest performance multiplier, in basis points.
pub const MAX_PERFORMANCE_MULTIPLIER: u32 = 15_500;

/// Early-withdrawal penalty at the start of the lock, in basis points.
pub const MAX_EARLY_PENALTY_BPS: u64 = 2_000;

/// Failures of the reward-distribution contract.
#[derive(Clone, Copy, Debug, PartialEq, Eq, Structural)]
pub enum Error {
    NotInitialized,
    AlreadyInitialized,
    Unauthorized,
    PoolNotFound,
    StakeNotFound,
    InsufficientStake,
    BelowMinimumStake,
    PoolPaused,
    ContractPaused,
    InvalidEmissionRate,
    ExceedsInflationCap,
    LockPeriodNotMet,
    VestingNotStarted,
    NoRewardsAvailable,
    InvalidVestingSchedule,
    InvalidPerformanceMultiplier,
    TokenNotRegistered,
    InsufficientRewardBalance,
    InvalidRiskAdjustment,
    InvalidAPY,
    BatchSizeTooLarge,
    InvalidPoolStatus,
}

/// Shape of a vesting schedule.
#[derive(Clone, Copy, Debug, PartialEq, Eq, Structural)]
pub enum VestingCurve {
    Linear,
    /// A quarter of the total after each quarter of the vesting period.
    Stepped,
    /// Vested share grows with the square of elapsed time.
    Exponential,
}

/// State of a reward pool.
#[derive(Clone, Copy, Debug, PartialEq, Eq, Structural)]
pub enum RewardStatus {
    Active,
    Paused,
    Completed,
}

#[derive(Clone, Copy, Debug, PartialEq, Eq)]
pub struct VestingSchedule {
    /// Seconds before vesting starts.
    pub cliff_duration: u64,
    /// Length of the vesting period after the cliff.
    pub vesting_duration: u64,
    pub curve: VestingCurve,
    pub start_time: u64,
    pub total_amount: i128,
    pub claimed_amount: i128,
}

#[derive(Clone, Copy, Debug, PartialEq, Eq)]
pub struct EmissionConfig {
    pub max_emission_rate: i128,
    /// Basis points of supply per year.
    pub inflation_cap: u32,
    /// Seconds between rate adjustments.
    pub adjustment_interval: u64,
    pub last_adjustment: u64,
}

#[derive(Clone, Copy, Debug, PartialEq, Eq)]
pub struct PerformanceMetrics {
    pub pool_id: u32,
    /// Basis points.
    pub utilization_rate: u32,
    /// Basis points.
    pub claim_ratio: u32,
    /// 0 to 10000.
    pub volatility_score: u32,
    /// 0 to 10000.
    pub counterparty_risk: u32,
}

/// The reward-distribution contract's arithmetic.
pub struct RewardDistribution;

/// Integer division rounding toward zero, as integer division in Rust does.
pub open spec fn div_trunc(a: int, b: int) -> int {
    if a >= 0 {
        a / b
    } else {
        -((-a) / b)
    }
}

/// `base_rewards` scaled by `20000 - risk_adjustment_factor` basis points:
/// a lower factor (higher risk) gives higher rewards.
pub open spec fn risk_adjusted(base_rewards: int, risk_adjustment_factor: int) -> int {
    div_trunc(base_rewards * (20_000 - risk_adjustment_factor), 10_000)
}

pub open spec fn fits_i128(x: int) -> bool {
    i128::MIN <= x <= i128::MAX
}

/// Applies the risk adjustment to `base_rewards`.
pub fn apply_risk_adjustment(base_rewards: i128, risk_adjustment_factor: u32) -> (r: i128)
    requires
        fits_i128(base_rewards * (20_000 - risk_adjustment_factor)),
    ensures
        r == risk_adjusted(base_rewards as int, risk_adjustment_factor as int),
{
    let inverse_factor: i128 = 20_000 - risk_adjustment_factor as i128;
    let scaled: i128 = base_rewards * inverse_factor;
    scaled / 10_000
}

/// `rewards` scaled by `multiplier` basis points.
pub open spec fn with_multiplier(rewards: int, multiplier: int) -> int {
    div_trunc(rewards * multiplier, 10_000)
}

/// Applies a performance multiplier (basis points) to `rewards`.
pub fn apply_performance_multiplier(rewards: i128, multiplier: u32) -> (r: i128)
    requires
        fits_i128(rewards * multiplier),
    ensures
        r == with_multiplier(rewards as int, multiplier as int),
{
    let scaled: i128 = rewards * multiplier as i128;
    scaled / 10_000
}

/// Rewards of `stake_amount` staked for `stake_duration` seconds at
/// `base_apy` basis points a year.
pub open spec fn base_rewards_of(stake_amount: int, stake_duration: int, base_apy: int) -> int {
    div_trunc(stake_amount * base_apy * stake_duration, SECONDS_PER_YEAR * BASIS_POINTS as int)
}

/// Base rewards: amount x APY x duration / (one year x 10000).
pub fn calculate_base_rewards(stake_amount: i128, stake_duration: u64, base_apy: u32) -> (r: i128)
    requires
        fits_i128(stake_amount * base_apy),
        fits_i128(stake_amount * base_apy * stake_duration),
    ensures
        r == base_rewards_of(stake_amount as int, stake_duration as int, base_apy as int),
{
    let by_apy: i128 = stake_amount * base_apy as i128;
    let scaled: i128 = by_apy * stake_duration as i128;
    scaled / (SECONDS_PER_YEAR * BASIS_POINTS)
}

/// Multiplier bonus in basis points for the pool's metrics, before the cap.
pub open spec fn bonus_sum(m: PerformanceMetrics) -> int {
    10_000 + (if m.utilization_rate > 8_000 {
        2_000int
    } else if m.utilization_rate > 6_000 {
        1_000int
    } else {
        0int
    }) + (if m.claim_ratio < 1_000 {
        1_500int
    } else if m.claim_ratio < 2_000 {
        750int
    } else {
        0int
    }) + (if m.volatility_score < 2_000 {
        1_000int
    } else if m.volatility_score < 4_000 {
        500int
    } else {
        0int
    }) + (if m.counterparty_risk < 2_000 {
        1_000int
    } else if m.counterparty_risk < 4_000 {
        500int
    } else {
        0int
    })
}

/// Performance multiplier for the pool's metrics: 1x plus bonuses for high
/// utilisation and low claim ratio, volatility and counterparty risk,
/// capped at `MAX_PERFORMANCE_MULTIPLIER`.
pub fn calculate_performance_bonus(metrics: &PerformanceMetrics) -> (r: u32)
    ensures
        r == (if bonus_sum(*metrics) > MAX_PERFORMANCE_MULTIPLIER {
            MAX_PERFORMANCE_MULTIPLIER as int
        } else {
            bonus_sum(*metrics)
        }),
        10_000 <= r <= MAX_PERFORMANCE_MULTIPLIER,
{
    let mut multiplier: u32 = 10_000;
    if metrics.utilization_rate > 8_000 {
        multiplier += 2_000;
    } else if metrics.utilization_rate > 6_000 {
        multiplier += 1_000;
    }
    if metrics.claim_ratio < 1_000 {
        multiplier += 1_500;
    } else if metrics.claim_ratio < 2_000 {
        multiplier += 750;
    }
    if metrics.volatility_score < 2_000 {
        multiplier += 1_000;
    } else if metrics.volatility_score < 4_000 {
        multiplier += 500;
    }
    if metrics.counterparty_risk < 2_000 {
        multiplier += 1_000;
    } else if metrics.counterparty_risk < 4_000 {
        multiplier += 500;
    }
    if multiplier > MAX_PERFORMANCE_MULTIPLIER {
        multiplier = MAX_PERFORMANCE_MULTIPLIER;
    }
    multiplier
}

/// APY after risk adjustment and the performance multiplier, before the cap.
pub open spec fn adjusted_yield_of(base_apy: int, risk_adjustment_factor: int, performance_multiplier: int) -> int {
    div_trunc(
        div_trunc(base_apy * (20_000 - risk_adjustment_factor), 10_000) * performance_multiplier,
        10_000,
    )
}

/// Risk- and performance-adjusted APY in basis points, capped at
/// `MAX_ADJUSTED_APY`. A result below zero (a factor above 20000) is
/// reported as 0.
pub fn calculate_risk_adjusted_yield(
    base_apy: u32,
    risk_adjustment_factor: u32,
    performance_multiplier: u32,
) -> (r: u32)
    ensures
        adjusted_yield_of(base_apy as int, risk_adjustment_factor as int, performance_multiplier as int) > MAX_ADJUSTED_APY
            ==> r == MAX_ADJUSTED_APY,
        0 <= adjusted_yield_of(base_apy as int, risk_adjustment_factor as int, performance_multiplier as int) <= MAX_ADJUSTED_APY
            ==> r == adjusted_yield_of(base_apy as int, risk_adjustment_factor as int, performance_multiplier as int),
        adjusted_yield_of(base_apy as int, risk_adjustment_factor as int, performance_multiplier as int) < 0
            ==> r == 0,
{
    let factor: i128 = 20_000 - risk_adjustment_factor as i128;
    assert(-0x1_0000_0000 * 0x1_0000_0000 <= base_apy as i128 * factor <= 0x1_0000_0000 * 0x1_0000_0000) by (nonlinear_arith)
        requires 0 <= base_apy <= u32::MAX, -0x1_0000_0000 <= factor <= 20_000;
    let adjusted: i128 = (base_apy as i128 * factor) / 10_000;
    assert(-0x1_0000_0000 * 0x1_0000_0000 <= adjusted <= 0x1_0000_0000 * 0x1_0000_0000);
    assert(-0x1_0000_0000 * 0x1_0000_0000 * 0x1_0000_0000 <= adjusted * performance_multiplier as i128 <= 0x1_0000_0000 * 0x1_0000_0000 * 0x1_0000_0000) by (nonlinear_arith)
        requires 0 <= performance_multiplier <= u32::MAX, -0x1_0000_0000 * 0x1_0000_0000 <= adjusted <= 0x1_0000_0000 * 0x1_0000_0000;
    let final_apy: i128 = (adjusted * performance_multiplier as i128) / 10_000;
    if final_apy > MAX_ADJUSTED_APY as i128 {
        MAX_ADJUSTED_APY
    } else if final_apy < 0 {
        0
    } else {
        final_apy as u32
    }
}

/// Amount vested under curve `curve` after `elapsed` of `vesting_duration`
/// seconds (elapsed below the duration), before subtracting claims.
pub open spec fn curve_vested(curve: VestingCurve, total: int, elapsed: int, vesting_duration: int) -> int {
    match curve {
        VestingCurve::Linear => div_trunc(total * elapsed, vesting_duration),
        VestingCurve::Stepped => div_trunc(total * (elapsed / (vesting_duration / 4)), 4),
        VestingCurve::Exponential => {
            let progress = elapsed * 10_000 / vesting_duration;
            div_trunc(total * (progress * progress / 10_000), 10_000)
        },
    }
}

/// `x` clamped to the range of `i128`.
pub open spec fn clamp_i128(x: int) -> int {
    if x > i128::MAX {
        i128::MAX as int
    } else if x < i128::MIN {
        i128::MIN as int
    } else {
        x
    }
}

/// Claimable amount of `s` at `now`: nothing before the cliff ends, all
/// that is unclaimed once the vesting period is over, and in between what
/// the curve has vested less what was claimed (saturating).
pub open spec fn vested_of(s: VestingSchedule, now: u64) -> int {
    let begin = s.start_time + s.cliff_duration;
    if now < begin {
        0
    } else if now - begin >= s.vesting_duration {
        s.total_amount - s.claimed_amount
    } else {
        clamp_i128(
            curve_vested(s.curve, s.total_amount as int, now - begin, s.vesting_duration as int)
                - s.claimed_amount,
        )
    }
}

/// Saturating `a - b` on `i128`.
fn saturating_sub_i128(a: i128, b: i128) -> (r: i128)
    ensures
        r == clamp_i128(a - b),
{
    match a.checked_sub(b) {
        Some(d) => d,
        None => if b > 0 {
            i128::MIN
        } else {
            i128::MAX
        },
    }
}

/// Amount of `schedule` that can be claimed at `now`.
pub fn calculate_vested_amount(schedule: &VestingSchedule, now: u64) -> (r: Result<i128, Error>)
    requires
        schedule.start_time + schedule.cliff_duration <= u64::MAX,
        fits_i128(schedule.total_amount - schedule.claimed_amount),
        fits_i128(schedule.total_amount * schedule.vesting_duration),
        fits_i128(schedule.total_amount * 10_000),
        schedule.curve == VestingCurve::Stepped ==> schedule.vesting_duration >= 4,
    ensures
        r == Ok::<i128, Error>(vested_of(*schedule, now) as i128),
{
    let begin: u64 = schedule.start_time + schedule.cliff_duration;
    if now < begin {
        return Ok(0);
    }
    let elapsed: u64 = now - begin;
    let vesting_duration: u64 = schedule.vesting_duration;
    if elapsed >= vesting_duration {
        return Ok(schedule.total_amount - schedule.claimed_amount);
    }
    let total: i128 = schedule.total_amount;
    let vested: i128 = match schedule.curve {
        VestingCurve::Linear => {
            assert(fits_i128(total * elapsed)) by (nonlinear_arith)
                requires fits_i128(total * vesting_duration), 0 <= elapsed < vesting_duration;
            (total * elapsed as i128) / vesting_duration as i128
        },
        VestingCurve::Stepped => {
            let step: u64 = vesting_duration / 4;
            let quarters: u64 = elapsed / step;
            assert(quarters <= elapsed) by (nonlinear_arith)
                requires quarters == elapsed / step, step >= 1, elapsed >= 0;
            assert(fits_i128(total * quarters)) by (nonlinear_arith)
                requires fits_i128(total * vesting_duration), 0 <= quarters <= elapsed, elapsed < vesting_duration;
            (total * quarters as i128) / 4
        },
        VestingCurve::Exponential => {
            assert(elapsed as u128 * 10_000 < vesting_duration as u128 * 10_000) by (nonlinear_arith)
                requires elapsed < vesting_duration;
            let scaled: u128 = elapsed as u128 * 10_000;
            let progress: u128 = scaled / vesting_duration as u128;
            assert(progress <= 10_000) by (nonlinear_arith)
                requires progress == scaled / (vesting_duration as u128), scaled == elapsed * 10_000, elapsed < vesting_duration;
            assert(progress * progress <= 10_000 * 10_000) by (nonlinear_arith)
                requires progress <= 10_000;
            let squared: u128 = progress * progress;
            let exponential_progress: u128 = squared / 10_000;
            assert(exponential_progress <= 10_000) by (nonlinear_arith)
                requires exponential_progress == squared / 10_000, squared <= 10_000 * 10_000;
            assert(fits_i128(total * exponential_progress)) by (nonlinear_arith)
                requires fits_i128(total * 10_000), 0 <= exponential_progress <= 10_000;
            (total * exponential_progress as i128) / 10_000
        },
    };
    Ok(saturating_sub_i128(vested, schedule.claimed_amount))
}

/// Emission rate allowed by the inflation cap: at most
/// `total_supply x inflation_cap / 10000` per year, per second.
pub open spec fn max_rate_of(total_supply: int, inflation_cap: int) -> int {
    div_trunc(div_trunc(total_supply * inflation_cap, 10_000), SECONDS_PER_YEAR as int)
}

/// The emission rate, lowered to what the inflation cap allows.
pub fn calculate_emission_adjustment(
    current_rate: i128,
    total_supply: i128,
    inflation_cap: u32,
    time_elapsed: u64,
) -> (r: i128)
    requires
        fits_i128(total_supply * inflation_cap),
    ensures
        r == (if current_rate > max_rate_of(total_supply as int, inflation_cap as int) {
            max_rate_of(total_supply as int, inflation_cap as int)
        } else {
            current_rate as int
        }),
{
    let max_annual_inflation: i128 = (total_supply * inflation_cap as i128) / 10_000;
    let max_rate: i128 = max_annual_inflation / SECONDS_PER_YEAR;
    if current_rate > max_rate {
        max_rate
    } else {
        current_rate
    }
}

/// Penalty for withdrawing `amount` after `time_staked` of a
/// `lock_period`: none once the lock is over, else a rate falling linearly
/// from `MAX_EARLY_PENALTY_BPS` at the start.
pub open spec fn early_penalty_of(amount: int, lock_period: int, time_staked: int) -> int {
    if time_staked >= lock_period {
        0
    } else {
        div_trunc(amount * ((MAX_EARLY_PENALTY_BPS * (lock_period - time_staked)) / lock_period), 10_000)
    }
}

/// Early-withdrawal penalty on `amount`.
pub fn calculate_early_withdrawal_penalty(amount: i128, lock_period: u64, time_staked: u64) -> (r: i128)
    requires
        fits_i128(amount * MAX_EARLY_PENALTY_BPS),
    ensures
        r == early_penalty_of(amount as int, lock_period as int, time_staked as int),
{
    if time_staked >= lock_period {
        return 0;
    }
    let time_remaining: u64 = lock_period - time_staked;
    assert(MAX_EARLY_PENALTY_BPS * time_remaining <= MAX_EARLY_PENALTY_BPS * lock_period) by (nonlinear_arith)
        requires time_remaining <= lock_period;
    let scaled: u128 = MAX_EARLY_PENALTY_BPS as u128 * time_remaining as u128;
    let rate: u128 = scaled / lock_period as u128;
    assert(rate <= MAX_EARLY_PENALTY_BPS) by (nonlinear_arith)
        requires rate == scaled / (lock_period as u128), scaled == 2000 * time_remaining, time_remaining <= lock_period, lock_period > 0;
    let rate: i128 = rate as i128;
    assert(fits_i128(amount * rate)) by (nonlinear_arith)
        requires fits_i128(amount * 2000), 0 <= rate <= 2000;
    (amount * rate) / 10_000
}

} // verus!
