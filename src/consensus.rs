//! Pure arithmetic of the price-consensus round: ordering the fresh prices,
//! taking their median and measuring the spread around it.
use vstd::prelude::*;

verus! {

/// Largest price (in the asset's smallest unit) that the oracle accepts:
/// the largest for which a deviation in basis points fits in `i128`.
pub const MAX_PRICE: i128 = 17_014_118_346_046_923_173_168_730_371_588_410;

/// Largest spread, in basis points, that a valid consensus tolerates.
pub const MAX_PRICE_DEVIATION_BPS: i128 = 500;

/// Fewest fresh submissions from which a consensus is computed.
pub const MIN_SOURCES_FOR_CONSENSUS: u32 = 3;

/// Jump from the last recorded price, in basis points, that counts as an anomaly.
pub const ANOMALY_MULTIPLIER_BPS: i128 = 2000;

/// Outcome of one consensus round.
#[derive(Clone, Copy, Debug, PartialEq, Eq)]
pub struct ConsensusResult {
    /// Median of the fresh prices (0 when there are too few of them).
    pub price: i128,
    /// How many fresh prices took part.
    pub sources_used: u32,
    /// Largest deviation from the median, in basis points.
    pub deviation: i128,
    /// Quorum met and deviation within bound.
    pub is_valid: bool,
    pub timestamp: u64,
}

/// A price that the oracle may hold: positive and at most `MAX_PRICE`.
pub open spec fn valid_price(p: i128) -> bool {
    0 < p <= MAX_PRICE
}

pub open spec fn all_valid_prices(s: Seq<i128>) -> bool {
    forall|i: int| 0 <= i < s.len() ==> valid_price(#[trigger] s[i])
}

pub open spec fn is_sorted(s: Seq<i128>) -> bool {
    forall|i: int, j: int| 0 <= i <= j < s.len() ==> s[i] <= s[j]
}

pub open spec fn price_leq() -> spec_fn(i128, i128) -> bool {
    |a: i128, b: i128| a <= b
}

/// The prices in ascending order.
pub open spec fn sorted_prices(s: Seq<i128>) -> Seq<i128> {
    s.sort_by(price_leq())
}

/// Sorting by `<=` yields an ascending sequence holding the same prices.
pub proof fn lemma_sorted_prices(s: Seq<i128>)
    ensures
        is_sorted(sorted_prices(s)),
        sorted_prices(s).to_multiset() == s.to_multiset(),
        sorted_prices(s).len() == s.len(),
        forall|x: i128| sorted_prices(s).contains(x) ==> s.contains(x),
{
    lemma_price_leq_total();
    s.lemma_sort_by_ensures(price_leq());
    let r = sorted_prices(s);
    assert forall|i: int, j: int| 0 <= i <= j < r.len() implies r[i] <= r[j] by {
        if i < j {
            assert(price_leq()(r[i], r[j]));
        }
    }
    vstd::seq_lib::to_multiset_len(s);
    vstd::seq_lib::to_multiset_len(r);
    assert forall|x: i128| r.contains(x) implies s.contains(x) by {
        vstd::seq_lib::to_multiset_contains(s, x);
        vstd::seq_lib::to_multiset_contains(r, x);
    }
}

proof fn lemma_price_leq_total()
    ensures
        vstd::relations::total_ordering(price_leq()),
{
}

/// An ascending sequence with the same prices as `s` is `sorted_prices(s)`.
pub proof fn lemma_sorted_is_sorted_prices(r: Seq<i128>, s: Seq<i128>)
    requires
        is_sorted(r),
        r.to_multiset() == s.to_multiset(),
    ensures
        r == sorted_prices(s),
{
    lemma_price_leq_total();
    lemma_sorted_prices(s);
    assert(vstd::relations::sorted_by(r, price_leq()));
    assert(vstd::relations::sorted_by(sorted_prices(s), price_leq()));
    vstd::seq_lib::lemma_sorted_unique(r, sorted_prices(s), price_leq());
}

/// Median of an ascending sequence: the middle element, or the mean of the
/// two middle elements (rounded down) when the length is even.
pub open spec fn median_of(s: Seq<i128>) -> int {
    let n = s.len();
    if n == 0 {
        0
    } else if n % 2 == 1 {
        s[(n / 2) as int] as int
    } else {
        (s[(n / 2 - 1) as int] + s[(n / 2) as int]) / 2
    }
}

pub open spec fn abs_diff(a: int, b: int) -> int {
    if a >= b {
        a - b
    } else {
        b - a
    }
}

/// Deviation of `p` from `m` in basis points, rounded down.
pub open spec fn deviation_bps(p: int, m: int) -> int {
    abs_diff(p, m) * 10_000 / m
}

/// Largest deviation, in basis points, of any element of `s` from `m`.
pub open spec fn max_deviation_of(s: Seq<i128>, m: int) -> int
    decreases s.len(),
{
    if s.len() == 0 {
        0
    } else {
        let rest = max_deviation_of(s.drop_last(), m);
        let d = deviation_bps(s.last() as int, m);
        if d > rest {
            d
        } else {
            rest
        }
    }
}

/// The consensus over the fresh prices `prices` at time `now`.
pub open spec fn consensus_of(prices: Seq<i128>, now: u64) -> ConsensusResult {
    if prices.len() < MIN_SOURCES_FOR_CONSENSUS {
        ConsensusResult {
            price: 0,
            sources_used: prices.len() as u32,
            deviation: 0,
            is_valid: false,
            timestamp: now,
        }
    } else {
        let sorted = sorted_prices(prices);
        let m = median_of(sorted);
        let dev = max_deviation_of(sorted, m);
        ConsensusResult {
            price: m as i128,
            sources_used: prices.len() as u32,
            deviation: dev as i128,
            is_valid: dev <= MAX_PRICE_DEVIATION_BPS,
            timestamp: now,
        }
    }
}

/// Whether moving from the recorded price `prev` to `new_price` is an anomaly.
pub open spec fn is_anomalous_jump(new_price: int, prev: int) -> bool {
    prev != 0 && deviation_bps(new_price, prev) > ANOMALY_MULTIPLIER_BPS
}

/// Sorts the prices ascending with a bubble sort; the result holds the
/// same prices.
pub fn sort_prices(prices: &Vec<i128>) -> (r: Vec<i128>)
    ensures
        r@.len() == prices@.len(),
        r@.to_multiset() == prices@.to_multiset(),
        is_sorted(r@),
        r@ == sorted_prices(prices@),
{
    broadcast use {
        vstd::multiset::group_multiset_axioms,
        vstd::multiset::group_multiset_properties,
    };

    let mut v: Vec<i128> = prices.clone();
    assert(v@ =~= prices@);
    let n: usize = v.len();
    let mut i: usize = 0;
    while i < n
        invariant
            n == v@.len(),
            i <= n,
            v@.to_multiset() == prices@.to_multiset(),
            // the last i slots hold the i largest values, in order
            forall|a: int, b: int| n - i <= a <= b < n ==> v@[a] <= v@[b],
            forall|a: int, b: int| 0 <= a < n - i <= b < n ==> v@[a] <= v@[b],
        decreases n - i,
    {
        let limit: usize = n - i - 1;
        let mut j: usize = 0;
        while j < limit
            invariant
                n == v@.len(),
                i < n,
                limit == n - i - 1,
                j <= limit,
                v@.to_multiset() == prices@.to_multiset(),
                forall|a: int, b: int| n - i <= a <= b < n ==> v@[a] <= v@[b],
                forall|a: int, b: int| 0 <= a < n - i <= b < n ==> v@[a] <= v@[b],
                // v[j] is the largest of the first j + 1 slots
                forall|a: int| 0 <= a <= j ==> v@[a] <= v@[j as int],
            decreases limit - j,
        {
            let a = v[j];
            let b = v[j + 1];
            if a > b {
                let ghost before = v@;
                v.set(j, b);
                v.set(j + 1, a);
                let ghost mid = before.update(j as int, b);
                assert(v@ == mid.update(j + 1, a));
                proof {
                    vstd::seq_lib::to_multiset_update(before, j as int, b);
                    vstd::seq_lib::to_multiset_update(mid, j + 1, a);
                    vstd::seq_lib::to_multiset_contains(before, a);
                    assert(before.contains(a)) by {
                        assert(before[j as int] == a);
                    }
                }
                assert(v@.to_multiset() =~= before.to_multiset());
            }
            j = j + 1;
        }
        i = i + 1;
    }
    proof {
        lemma_sorted_is_sorted_prices(v@, prices@);
    }
    v
}

/// Median of an ascending, non-empty list of valid prices.
pub fn median(sorted: &Vec<i128>) -> (m: i128)
    requires
        is_sorted(sorted@),
        all_valid_prices(sorted@),
    ensures
        m as int == median_of(sorted@),
        sorted@.len() > 0 ==> valid_price(m),
{
    let n: usize = sorted.len();
    if n == 0 {
        return 0;
    }
    if n % 2 == 1 {
        sorted[n / 2]
    } else {
        let a = sorted[n / 2 - 1];
        let b = sorted[n / 2];
        assert(sorted@[(n / 2 - 1) as int] <= sorted@[(n / 2) as int]);
        assert(valid_price(a) && valid_price(b));
        // a <= b, so a + (b - a) / 2 is (a + b) / 2 without an overflowing sum
        let m = a + (b - a) / 2;
        assert(m == (a + b) / 2) by (nonlinear_arith)
            requires m == a + (b - a) / 2, a <= b, 0 < a;
        m
    }
}

/// Deviation of `p` from `m` in basis points; both are valid prices.
pub fn deviation_from(p: i128, m: i128) -> (d: i128)
    requires
        valid_price(p),
        valid_price(m),
    ensures
        d as int == deviation_bps(p as int, m as int),
        d >= 0,
{
    let diff: i128 = if p >= m { p - m } else { m - p };
    assert(diff * 10_000 <= MAX_PRICE * 10_000) by (nonlinear_arith)
        requires 0 <= diff <= MAX_PRICE;
    let scaled: i128 = diff * 10_000;
    let d = scaled / m;
    assert(0 <= d) by (nonlinear_arith)
        requires d == scaled / m, scaled >= 0, m > 0;
    d
}

/// Largest deviation, in basis points, of any listed price from `m`.
pub fn max_deviation_bps(prices: &Vec<i128>, m: i128) -> (d: i128)
    requires
        all_valid_prices(prices@),
        valid_price(m),
    ensures
        d as int == max_deviation_of(prices@, m as int),
        d >= 0,
{
    let mut max: i128 = 0;
    let mut i: usize = 0;
    while i < prices.len()
        invariant
            i <= prices@.len(),
            all_valid_prices(prices@),
            valid_price(m),
            max >= 0,
            max as int == max_deviation_of(prices@.subrange(0, i as int), m as int),
        decreases prices@.len() - i,
    {
        let d = deviation_from(prices[i], m);
        assert(prices@.subrange(0, i + 1).drop_last() =~= prices@.subrange(0, i as int));
        if d > max {
            max = d;
        }
        i = i + 1;
    }
    assert(prices@.subrange(0, i as int) =~= prices@);
    max
}

/// Median and spread of the fresh prices, and whether they form a valid
/// consensus: at least `MIN_SOURCES_FOR_CONSENSUS` prices within
/// `MAX_PRICE_DEVIATION_BPS` of their median.
pub fn compute_consensus(prices: &Vec<i128>, now: u64) -> (r: ConsensusResult)
    requires
        all_valid_prices(prices@),
        prices@.len() <= u32::MAX,
    ensures
        r == consensus_of(prices@, now),
        prices@.len() < MIN_SOURCES_FOR_CONSENSUS ==> !r.is_valid,
        r.is_valid ==> valid_price(r.price),
{
    let count: usize = prices.len();
    if count < MIN_SOURCES_FOR_CONSENSUS as usize {
        return ConsensusResult {
            price: 0,
            sources_used: count as u32,
            deviation: 0,
            is_valid: false,
            timestamp: now,
        };
    }
    let sorted = sort_prices(prices);
    proof {
        lemma_sorted_prices(prices@);
        assert forall|i: int| 0 <= i < sorted@.len() implies valid_price(#[trigger] sorted@[i]) by {
            assert(sorted@.contains(sorted@[i]));
            assert(prices@.contains(sorted@[i]));
            let k = choose|k: int| 0 <= k < prices@.len() && prices@[k] == sorted@[i];
            assert(valid_price(prices@[k]));
        }
    }
    let m = median(&sorted);
    let dev = max_deviation_bps(&sorted, m);
    ConsensusResult {
        price: m,
        sources_used: count as u32,
        deviation: dev,
        is_valid: dev <= MAX_PRICE_DEVIATION_BPS,
        timestamp: now,
    }
}

/// Whether a new consensus price jumps from the last recorded price by more
/// than `ANOMALY_MULTIPLIER_BPS`.
pub fn detect_jump(new_price: i128, prev: i128) -> (r: bool)
    requires
        valid_price(new_price),
        valid_price(prev),
    ensures
        r == is_anomalous_jump(new_price as int, prev as int),
{
    let d = deviation_from(new_price, prev);
    d > ANOMALY_MULTIPLIER_BPS
}

} // verus!
