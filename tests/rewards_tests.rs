use stellar_insured::rewards::{
    apply_performance_multiplier, apply_risk_adjustment, calculate_base_rewards,
    calculate_early_withdrawal_penalty, calculate_emission_adjustment,
    calculate_performance_bonus, calculate_risk_adjusted_yield, calculate_vested_amount,
    PerformanceMetrics, VestingCurve, VestingSchedule,
};

#[test]
fn test_base_rewards_calculation() {
    let rewards = calculate_base_rewards(1_000_0000000, 31_536_000, 1_000);
    assert!(rewards > 0);
    assert_eq!(rewards, 100_0000000);
}

#[test]
fn test_risk_adjustment() {
    let base_rewards = 100_0000000;
    let adjusted = apply_risk_adjustment(base_rewards, 8_000);
    assert!(adjusted > base_rewards);
    assert_eq!(adjusted, 120_0000000);
}

#[test]
fn test_performance_multiplier() {
    assert_eq!(apply_performance_multiplier(100_0000000, 12_000), 120_0000000);
}

#[test]
fn negative_values_round_toward_zero() {
    assert_eq!(apply_performance_multiplier(-15, 10_001), -15);
    assert_eq!(apply_risk_adjustment(-3, 10_000), -3);
}

#[test]
fn performance_bonus_tiers_and_cap() {
    let best = PerformanceMetrics {
        pool_id: 1,
        utilization_rate: 9_000,
        claim_ratio: 500,
        volatility_score: 1_000,
        counterparty_risk: 1_000,
    };
    assert_eq!(calculate_performance_bonus(&best), 15_500);
    let middling = PerformanceMetrics {
        pool_id: 1,
        utilization_rate: 7_000,
        claim_ratio: 1_500,
        volatility_score: 3_000,
        counterparty_risk: 9_000,
    };
    assert_eq!(calculate_performance_bonus(&middling), 12_250);
    let none = PerformanceMetrics {
        pool_id: 1,
        utilization_rate: 0,
        claim_ratio: 9_000,
        volatility_score: 9_000,
        counterparty_risk: 9_000,
    };
    assert_eq!(calculate_performance_bonus(&none), 10_000);
}

#[test]
fn risk_adjusted_yield() {
    assert_eq!(calculate_risk_adjusted_yield(1_000, 8_000, 12_000), 1_440);
    assert_eq!(calculate_risk_adjusted_yield(4_000_000, 0, 15_500), 1_000_000);
    assert_eq!(calculate_risk_adjusted_yield(1_000, 30_000, 10_000), 0);
}

#[test]
fn emission_is_capped_by_inflation() {
    let supply: i128 = 31_536_000 * 10_000;
    assert_eq!(calculate_emission_adjustment(500, supply, 100, 0), 100);
    assert_eq!(calculate_emission_adjustment(50, supply, 100, 0), 50);
}

#[test]
fn early_withdrawal_penalty_falls_linearly() {
    assert_eq!(calculate_early_withdrawal_penalty(10_000, 100, 0), 2_000);
    assert_eq!(calculate_early_withdrawal_penalty(10_000, 100, 50), 1_000);
    assert_eq!(calculate_early_withdrawal_penalty(10_000, 100, 100), 0);
    assert_eq!(calculate_early_withdrawal_penalty(10_000, 100, 150), 0);
}

fn schedule(curve: VestingCurve) -> VestingSchedule {
    VestingSchedule {
        cliff_duration: 100,
        vesting_duration: 1_000,
        curve,
        start_time: 1_000,
        total_amount: 10_000,
        claimed_amount: 1_000,
    }
}

#[test]
fn vesting_before_cliff_and_after_period() {
    let s = schedule(VestingCurve::Linear);
    assert_eq!(calculate_vested_amount(&s, 1_050), Ok(0));
    assert_eq!(calculate_vested_amount(&s, 2_100), Ok(9_000));
    assert_eq!(calculate_vested_amount(&s, 5_000), Ok(9_000));
}

#[test]
fn vesting_curves_midway() {
    // half of the period has elapsed after the cliff
    let now = 1_000 + 100 + 500;
    assert_eq!(calculate_vested_amount(&schedule(VestingCurve::Linear), now), Ok(4_000));
    assert_eq!(calculate_vested_amount(&schedule(VestingCurve::Stepped), now), Ok(4_000));
    assert_eq!(calculate_vested_amount(&schedule(VestingCurve::Exponential), now), Ok(1_500));
    // when less has vested than was claimed, the difference is negative
    assert_eq!(calculate_vested_amount(&schedule(VestingCurve::Linear), 1_150), Ok(-500));
}
