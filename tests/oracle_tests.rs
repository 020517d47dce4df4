use stellar_insured::consensus::{
    compute_consensus, MAX_PRICE, detect_jump, deviation_from, max_deviation_bps, median, sort_prices,
};
use stellar_insured::errors::ContractError;
use stellar_insured::oracle::{OracleValidation, HISTORY_MAX_ENTRIES};

const GOV: u64 = 1;
const ASSET: u64 = 77;
const T0: u64 = 1_000_000;

/// An oracle with governance `GOV` and the sources 11, 12, 13.
fn oracle() -> OracleValidation {
    let mut o = OracleValidation::new();
    o.initialize(GOV).unwrap();
    for s in [11u64, 12, 13] {
        o.add_source(GOV, s).unwrap();
    }
    o
}

#[test]
fn median_of_odd_and_even_lists() {
    assert_eq!(median(&vec![10, 20, 30]), 20);
    assert_eq!(median(&vec![10, 20, 30, 40]), 25);
    assert_eq!(median(&vec![7]), 7);
}

#[test]
fn sorting_orders_prices() {
    assert_eq!(sort_prices(&vec![30, 10, 20, 10]), vec![10, 10, 20, 30]);
    assert_eq!(sort_prices(&vec![]), Vec::<i128>::new());
}

#[test]
fn deviation_in_basis_points() {
    assert_eq!(deviation_from(105, 100), 500);
    assert_eq!(deviation_from(95, 100), 500);
    assert_eq!(max_deviation_bps(&vec![100, 101, 500], 101), 39504);
    assert!(detect_jump(130, 100));
    assert!(!detect_jump(120, 100));
}

#[test]
fn quorum_not_met_with_two_fresh_sources() {
    let mut o = oracle();
    o.submit_price(11, ASSET, 100, 90, T0).unwrap();
    o.submit_price(12, ASSET, 101, 90, T0).unwrap();
    let r = o.evaluate_consensus(ASSET, T0);
    assert!(!r.is_valid);
    assert_eq!(r.sources_used, 2);
    assert_eq!(r.price, 0);
    assert_eq!(o.get_price(ASSET), Err(ContractError::NotFound));
    assert!(o.get_price_history(ASSET).is_empty());
}

#[test]
fn outlier_breaks_deviation_bound() {
    let mut o = oracle();
    o.submit_price(11, ASSET, 100, 90, T0).unwrap();
    o.submit_price(12, ASSET, 101, 90, T0).unwrap();
    o.submit_price(13, ASSET, 500, 90, T0).unwrap();
    let r = o.evaluate_consensus(ASSET, T0);
    assert_eq!(r.sources_used, 3);
    assert_eq!(r.price, 101);
    assert!(r.deviation > 500);
    assert!(!r.is_valid);
    assert!(o.get_price_history(ASSET).is_empty());
}

#[test]
fn valid_consensus_is_recorded() {
    let mut o = oracle();
    o.submit_price(11, ASSET, 100, 90, T0).unwrap();
    o.submit_price(12, ASSET, 102, 90, T0).unwrap();
    o.submit_price(13, ASSET, 101, 90, T0).unwrap();
    assert_eq!(o.get_price(ASSET), Ok(101));
    let h = o.get_price_history(ASSET);
    assert_eq!(h.len(), 1);
    assert_eq!(h[0].price, 101);
    assert_eq!(h[0].sources, 3);
    assert!(!h[0].anomaly);
}

#[test]
fn history_keeps_the_latest_entries() {
    let mut o = oracle();
    for s in [11u64, 12, 13] {
        o.submit_price(s, ASSET, 1000, 90, T0).unwrap();
    }
    let before = o.get_price_history(ASSET).len();
    assert_eq!(before, 1);
    for k in 0..HISTORY_MAX_ENTRIES as u64 {
        let r = o.evaluate_consensus(ASSET, T0 + 1 + k % 2);
        assert!(r.is_valid);
    }
    let h = o.get_price_history(ASSET);
    assert_eq!(h.len(), HISTORY_MAX_ENTRIES);
    // the point recorded at T0 by the third submission is gone
    assert_eq!(h[0].timestamp, T0 + 1);
    assert_eq!(h[HISTORY_MAX_ENTRIES - 1].timestamp, T0 + 2);
}

#[test]
fn anomaly_switches_reads_to_fallback() {
    let mut o = oracle();
    o.set_fallback_price(GOV, ASSET, 111).unwrap();
    for s in [11u64, 12, 13] {
        o.submit_price(s, ASSET, 100, 90, T0).unwrap();
    }
    assert_eq!(o.get_price(ASSET), Ok(100));
    for s in [11u64, 12, 13] {
        o.submit_price(s, ASSET, 130, 90, T0 + 10).unwrap();
    }
    assert!(o.is_anomaly(ASSET));
    assert_eq!(o.get_price(ASSET), Ok(111));
    for s in [11u64, 12, 13] {
        o.submit_price(s, ASSET, 135, 90, T0 + 20).unwrap();
    }
    assert!(!o.is_anomaly(ASSET));
    assert_eq!(o.get_price(ASSET), Ok(135));
}

#[test]
fn stale_sources_lose_quality() {
    let mut o = oracle();
    o.submit_price(11, ASSET, 100, 90, T0).unwrap();
    assert_eq!(o.get_source_quality(11), 100);
    let r = o.evaluate_consensus(ASSET, T0 + 301);
    assert_eq!(r.sources_used, 0);
    assert_eq!(o.get_source_quality(11), 90);
    assert_eq!(o.get_source_quality(99), 0);
}

#[test]
fn missing_sources_lose_quality() {
    let mut o = oracle();
    o.submit_price(11, ASSET, 100, 90, T0).unwrap();
    // 12 and 13 have never submitted: each round costs them a penalty
    assert_eq!(o.get_source_quality(12), 90);
    assert_eq!(o.get_source_quality(13), 90);
    assert_eq!(o.get_source_quality(11), 100);
    o.evaluate_consensus(ASSET, T0 + 1);
    assert_eq!(o.get_source_quality(12), 80);
    assert_eq!(o.get_source_quality(11), 100);
}

#[test]
fn anomaly_threshold_against_last_point() {
    let mut o = oracle();
    for s in [11u64, 12, 13] {
        o.submit_price(s, ASSET, 100, 90, T0).unwrap();
    }
    assert!(o.detect_anomaly(ASSET, 130));
    assert!(!o.detect_anomaly(ASSET, 120));
    assert!(!o.detect_anomaly(ASSET + 1, 130));
}

#[test]
fn largest_price_is_accepted() {
    let mut o = oracle();
    assert_eq!(o.submit_price(11, ASSET, MAX_PRICE, 90, T0), Ok(()));
    assert_eq!(o.submit_price(11, ASSET, MAX_PRICE + 1, 90, T0), Err(ContractError::InvalidInput));
}

#[test]
fn submission_is_checked() {
    let mut o = oracle();
    assert_eq!(o.submit_price(99, ASSET, 100, 90, T0), Err(ContractError::Unauthorized));
    assert_eq!(o.submit_price(11, ASSET, 0, 90, T0), Err(ContractError::InvalidInput));
    assert_eq!(o.submit_price(11, ASSET, 100, 101, T0), Err(ContractError::InvalidInput));
    assert_eq!(o.set_paused(42, true), Err(ContractError::Unauthorized));
    o.set_paused(GOV, true).unwrap();
    assert_eq!(o.submit_price(11, ASSET, 100, 90, T0), Err(ContractError::Paused));
    o.set_paused(GOV, false).unwrap();
    o.remove_source(GOV, 11).unwrap();
    assert!(!o.is_approved_source(11));
    assert_eq!(o.submit_price(11, ASSET, 100, 90, T0), Err(ContractError::Unauthorized));
    assert_eq!(o.initialize(GOV), Err(ContractError::AlreadyInitialized));
    let mut fresh = OracleValidation::new();
    assert_eq!(fresh.add_source(GOV, 5), Err(ContractError::NotInitialized));
}

#[test]
fn consensus_of_plain_lists() {
    let r = compute_consensus(&vec![30, 10, 20, 40], 5);
    assert_eq!(r.price, 25);
    assert_eq!(r.sources_used, 4);
    assert!(!r.is_valid);
    let ok = compute_consensus(&vec![1000, 1001, 999], 5);
    assert!(ok.is_valid);
    assert_eq!(ok.price, 1000);
    assert_eq!(ok.deviation, 10);
    assert_eq!(ok.timestamp, 5);
}
