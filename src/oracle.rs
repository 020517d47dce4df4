//! Oracle price-consensus engine: approved sources submit prices, each
//! submission re-runs a quorum/median/deviation round, valid results are
//! recorded in a capped per-asset history with anomaly flagging, and reads
//! fall back to a governance-set price while an anomaly stands.
use vstd::prelude::*;
use std::collections::HashMap;
use crate::consensus::{
    all_valid_prices, compute_consensus, consensus_of, detect_jump, is_anomalous_jump, valid_price,
    ConsensusResult, MAX_PRICE,
};
use crate::errors::ContractError;

verus! {

broadcast use vstd::std_specs::hash::group_hash_axioms;

/// Age, in seconds, beyond which a submission no longer counts.
pub const STALENESS_THRESHOLD_SECS: u64 = 300;

/// Most points kept in an asset's price history.
pub const HISTORY_MAX_ENTRIES: usize = 100;

/// Quality penalty for a source whose submission is missing or stale in a
/// round.
pub const QUALITY_DECAY_PER_MISS: u32 = 10;

/// Quality score of a newly approved source.
pub const INITIAL_QUALITY: u32 = 100;

/// Quality assumed for a source that has no recorded score.
pub const UNSCORED_QUALITY: u32 = 50;

/// Highest self-reported confidence a source may give.
pub const MAX_CONFIDENCE: u32 = 100;

/// Latest price reported by one source.
#[derive(Clone, Copy, Debug, PartialEq, Eq)]
pub struct PriceSubmission {
    pub source: u64,
    pub price: i128,
    pub timestamp: u64,
    pub confidence: u32,
}

/// One recorded consensus price.
#[derive(Clone, Copy, Debug, PartialEq, Eq)]
pub struct PricePoint {
    pub price: i128,
    pub timestamp: u64,
    /// How many sources agreed.
    pub sources: u32,
    pub anomaly: bool,
}

/// A submission counts in a round at `now` if it is at most
/// `STALENESS_THRESHOLD_SECS` old (one from the future counts too).
pub open spec fn is_fresh(sub: PriceSubmission, now: u64) -> bool {
    now as int - sub.timestamp as int <= STALENESS_THRESHOLD_SECS as int
}

/// Prices of the fresh submissions of the listed sources, in list order.
pub open spec fn fresh_prices(
    sources: Seq<u64>,
    subs: Map<u64, PriceSubmission>,
    now: u64,
) -> Seq<i128>
    decreases sources.len(),
{
    if sources.len() == 0 {
        seq![]
    } else {
        let prev = fresh_prices(sources.drop_last(), subs, now);
        let s = sources.last();
        if subs.contains_key(s) && is_fresh(subs[s], now) {
            prev.push(subs[s].price)
        } else {
            prev
        }
    }
}

pub open spec fn sat_sub(a: u32, b: u32) -> u32 {
    if a >= b {
        (a - b) as u32
    } else {
        0
    }
}

pub open spec fn quality_in(q: Map<u64, u32>, s: u64) -> u32 {
    if q.contains_key(s) {
        q[s]
    } else {
        UNSCORED_QUALITY
    }
}

/// Quality scores after a round: each listed source whose submission is
/// missing or stale loses `QUALITY_DECAY_PER_MISS`, down to zero.
pub open spec fn decayed_quality(
    sources: Seq<u64>,
    subs: Map<u64, PriceSubmission>,
    now: u64,
    q: Map<u64, u32>,
) -> Map<u64, u32>
    decreases sources.len(),
{
    if sources.len() == 0 {
        q
    } else {
        let q1 = decayed_quality(sources.drop_last(), subs, now, q);
        let s = sources.last();
        if !subs.contains_key(s) || !is_fresh(subs[s], now) {
            q1.insert(s, sat_sub(quality_in(q1, s), QUALITY_DECAY_PER_MISS))
        } else {
            q1
        }
    }
}

/// History after recording `p`: appended, the oldest point dropped first
/// when the history is full.
pub open spec fn capped_push(h: Seq<PricePoint>, p: PricePoint) -> Seq<PricePoint> {
    if h.len() >= HISTORY_MAX_ENTRIES {
        h.subrange(1, h.len() as int).push(p)
    } else {
        h.push(p)
    }
}

/// Mathematical state of an oracle contract.
pub struct OracleView {
    pub governance: Option<u64>,
    pub paused: bool,
    pub sources: Seq<u64>,
    pub submissions: Map<u64, PriceSubmission>,
    pub aggregated: Map<u64, i128>,
    pub history: Map<u64, Seq<PricePoint>>,
    pub fallback: Map<u64, i128>,
    pub quality: Map<u64, u32>,
    pub anomaly: Map<u64, bool>,
}

impl OracleView {
    pub open spec fn history_of(self, asset: u64) -> Seq<PricePoint> {
        if self.history.contains_key(asset) {
            self.history[asset]
        } else {
            seq![]
        }
    }

    pub open spec fn anomaly_of(self, asset: u64) -> bool {
        self.anomaly.contains_key(asset) && self.anomaly[asset]
    }

    /// Quality score as reported to readers (0 for an unknown source).
    pub open spec fn reported_quality(self, source: u64) -> u32 {
        if self.quality.contains_key(source) {
            self.quality[source]
        } else {
            0
        }
    }

    /// The price that a read returns: the recorded consensus unless an
    /// anomaly stands, else the fallback; none when neither applies.
    pub open spec fn price_of(self, asset: u64) -> Option<i128> {
        if !self.anomaly_of(asset) && self.aggregated.contains_key(asset) {
            Some(self.aggregated[asset])
        } else if self.fallback.contains_key(asset) {
            Some(self.fallback[asset])
        } else {
            None
        }
    }

    pub open spec fn fresh(self, now: u64) -> Seq<i128> {
        fresh_prices(self.sources, self.submissions, now)
    }

    /// Whether recording `price` now flags an anomaly for `asset`.
    pub open spec fn jump_flagged(self, asset: u64, price: i128) -> bool {
        let h = self.history_of(asset);
        h.len() > 0 && is_anomalous_jump(price as int, h.last().price as int)
    }

    /// State after recording the valid consensus `r` for `asset`.
    pub open spec fn record(self, asset: u64, r: ConsensusResult) -> OracleView {
        let flagged = self.jump_flagged(asset, r.price);
        let point = PricePoint {
            price: r.price,
            timestamp: r.timestamp,
            sources: r.sources_used,
            anomaly: flagged,
        };
        OracleView {
            anomaly: self.anomaly.insert(asset, flagged),
            aggregated: self.aggregated.insert(asset, r.price),
            history: self.history.insert(asset, capped_push(self.history_of(asset), point)),
            ..self
        }
    }

    /// State after a consensus round for `asset` at `now`.
    pub open spec fn after_round(self, asset: u64, now: u64) -> OracleView {
        let decayed = OracleView {
            quality: decayed_quality(self.sources, self.submissions, now, self.quality),
            ..self
        };
        let r = consensus_of(self.fresh(now), now);
        if r.is_valid {
            decayed.record(asset, r)
        } else {
            decayed
        }
    }

    /// Invariant of every reachable oracle state.
    pub open spec fn wf(self) -> bool {
        &&& self.sources.len() < u32::MAX
        &&& forall|s: u64| #[trigger]
            self.submissions.contains_key(s) ==> valid_price(self.submissions[s].price)
        &&& forall|a: u64| #[trigger]
            self.aggregated.contains_key(a) ==> valid_price(self.aggregated[a])
        &&& forall|a: u64| #[trigger]
            self.history.contains_key(a) ==> history_ok(self.history[a])
    }
}

/// A history holds at most `HISTORY_MAX_ENTRIES` points, each a valid price.
pub open spec fn history_ok(h: Seq<PricePoint>) -> bool {
    &&& h.len() <= HISTORY_MAX_ENTRIES
    &&& forall|i: int| 0 <= i < h.len() ==> valid_price(#[trigger] h[i].price)
}

/// Outcome of the governance check for `caller`.
pub open spec fn governance_check(v: OracleView, caller: u64) -> Result<(), ContractError> {
    match v.governance {
        None => Err(ContractError::NotInitialized),
        Some(g) => if g == caller {
            Ok(())
        } else {
            Err(ContractError::Unauthorized)
        },
    }
}

/// Outcome of the checks on a price submission, in the order they apply.
pub open spec fn submission_check(v: OracleView, source: u64, price: i128, confidence: u32) -> Result<
    (),
    ContractError,
> {
    if v.paused {
        Err(ContractError::Paused)
    } else if !v.sources.contains(source) {
        Err(ContractError::Unauthorized)
    } else if !valid_price(price) || confidence > MAX_CONFIDENCE {
        Err(ContractError::InvalidInput)
    } else {
        Ok(())
    }
}

/// Fresh prices come from stored submissions, so they are valid prices.
proof fn lemma_fresh_prices_valid(sources: Seq<u64>, subs: Map<u64, PriceSubmission>, now: u64)
    requires
        forall|s: u64| #[trigger] subs.contains_key(s) ==> valid_price(subs[s].price),
    ensures
        all_valid_prices(fresh_prices(sources, subs, now)),
        fresh_prices(sources, subs, now).len() <= sources.len(),
    decreases sources.len(),
{
    if sources.len() > 0 {
        lemma_fresh_prices_valid(sources.drop_last(), subs, now);
    }
}

/// With fewer fresh submissions than the quorum, a round is invalid, reports
/// how many fresh prices there were, and records nothing for the asset.
pub proof fn lemma_quorum_invariant(v: OracleView, asset: u64, now: u64)
    requires
        v.wf(),
        v.fresh(now).len() < crate::consensus::MIN_SOURCES_FOR_CONSENSUS,
    ensures
        !consensus_of(v.fresh(now), now).is_valid,
        consensus_of(v.fresh(now), now).sources_used == v.fresh(now).len(),
        v.after_round(asset, now).aggregated == v.aggregated,
        v.after_round(asset, now).history == v.history,
        v.after_round(asset, now).anomaly == v.anomaly,
{
}

/// Recording into a full history drops exactly the oldest point: the length
/// stays at the cap, the rest shift down by one, and the new point is last.
/// Below the cap the point is appended. The cap is never exceeded.
pub proof fn lemma_history_cap(h: Seq<PricePoint>, p: PricePoint)
    requires
        h.len() <= HISTORY_MAX_ENTRIES,
    ensures
        capped_push(h, p).len() <= HISTORY_MAX_ENTRIES,
        capped_push(h, p).last() == p,
        h.len() == HISTORY_MAX_ENTRIES ==> capped_push(h, p).len() == HISTORY_MAX_ENTRIES
            && forall|i: int|
            0 <= i < HISTORY_MAX_ENTRIES - 1 ==> #[trigger] capped_push(h, p)[i] == h[i + 1],
        h.len() < HISTORY_MAX_ENTRIES ==> capped_push(h, p) == h.push(p),
{
}

/// Recording a consensus for an asset whose history is full keeps the
/// history at the cap: its oldest point is gone and the new point is last.
pub proof fn lemma_record_keeps_cap(v: OracleView, asset: u64, r: ConsensusResult)
    requires
        v.history_of(asset).len() == HISTORY_MAX_ENTRIES,
    ensures
        v.record(asset, r).history_of(asset).len() == HISTORY_MAX_ENTRIES,
        v.record(asset, r).history_of(asset).first() == v.history_of(asset)[1],
        v.record(asset, r).history_of(asset).last().price == r.price,
        v.record(asset, r).history_of(asset).last().timestamp == r.timestamp,
{
}

/// A consensus recorded as an anomaly is not what reads return: they return
/// the fallback price, or nothing when none is set. A consensus recorded
/// without an anomaly is what reads return.
pub proof fn lemma_anomaly_gates_price(v: OracleView, asset: u64, r: ConsensusResult)
    ensures
        v.jump_flagged(asset, r.price) ==> v.record(asset, r).price_of(asset) == (if v.fallback.contains_key(asset) {
            Some(v.fallback[asset])
        } else {
            None
        }),
        !v.jump_flagged(asset, r.price) ==> v.record(asset, r).price_of(asset) == Some(r.price),
        v.record(asset, r).anomaly_of(asset) == v.jump_flagged(asset, r.price),
{
}

/// The list with every occurrence of `x` taken out, order kept.
fn without(v: &Vec<u64>, x: u64) -> (r: Vec<u64>)
    ensures
        r@ == v@.filter(|s: u64| s != x),
{
    let ghost pred = |s: u64| s != x;
    let mut kept: Vec<u64> = Vec::new();
    let mut i: usize = 0;
    while i < v.len()
        invariant
            i <= v@.len(),
            pred == (|s: u64| s != x),
            kept@ == v@.subrange(0, i as int).filter(pred),
        decreases v@.len() - i,
    {
        let s = v[i];
        proof {
            let pre = v@.subrange(0, i as int);
            assert(v@.subrange(0, i + 1) =~= pre.push(s));
            pre.lemma_filter_push(s, pred);
        }
        if s != x {
            kept.push(s);
        }
        i = i + 1;
    }
    assert(v@.subrange(0, i as int) =~= v@);
    kept
}

/// The oracle contract's state.
pub struct OracleValidation {
    governance: Option<u64>,
    paused: bool,
    sources: Vec<u64>,
    submissions: HashMap<u64, PriceSubmission>,
    aggregated: HashMap<u64, i128>,
    history: HashMap<u64, Vec<PricePoint>>,
    fallback: HashMap<u64, i128>,
    quality: HashMap<u64, u32>,
    anomaly: HashMap<u64, bool>,
}

impl View for OracleValidation {
    type V = OracleView;

    closed spec fn view(&self) -> OracleView {
        OracleView {
            governance: self.governance,
            paused: self.paused,
            sources: self.sources@,
            submissions: self.submissions@,
            aggregated: self.aggregated@,
            history: self.history@.map_values(|v: Vec<PricePoint>| v@),
            fallback: self.fallback@,
            quality: self.quality@,
            anomaly: self.anomaly@,
        }
    }
}

impl OracleValidation {
    /// A contract that has not been initialised.
    pub fn new() -> (r: Self)
        ensures
            r@.wf(),
            r@.governance.is_none(),
            !r@.paused,
            r@.sources.len() == 0,
            r@.submissions.is_empty(),
            r@.aggregated.is_empty(),
            r@.history.is_empty(),
            r@.fallback.is_empty(),
            r@.quality.is_empty(),
            r@.anomaly.is_empty(),
    {
        let r = OracleValidation {
            governance: None,
            paused: false,
            sources: Vec::new(),
            submissions: HashMap::new(),
            aggregated: HashMap::new(),
            history: HashMap::new(),
            fallback: HashMap::new(),
            quality: HashMap::new(),
            anomaly: HashMap::new(),
        };
        assert(r@.history =~= Map::empty());
        r
    }

    /// Checks that `caller` is the governance address.
    fn require_governance(&self, caller: u64) -> (r: Result<(), ContractError>)
        ensures
            r == governance_check(self@, caller),
    {
        match self.governance {
            None => Err(ContractError::NotInitialized),
            Some(g) => if g == caller {
                Ok(())
            } else {
                Err(ContractError::Unauthorized)
            },
        }
    }

    /// Sets the governance address once, with an empty source list.
    pub fn initialize(&mut self, governance: u64) -> (r: Result<(), ContractError>)
        requires
            old(self)@.wf(),
        ensures
            final(self)@.wf(),
            old(self)@.governance.is_some() ==> r == Err::<(), ContractError>(
                ContractError::AlreadyInitialized,
            ) && final(self)@ == old(self)@,
            old(self)@.governance.is_none() ==> r.is_ok() && final(self)@ == (OracleView {
                governance: Some(governance),
                sources: Seq::empty(),
                paused: false,
                ..old(self)@
            }),
    {
        if self.governance.is_some() {
            return Err(ContractError::AlreadyInitialized);
        }
        self.governance = Some(governance);
        self.sources = Vec::new();
        self.paused = false;
        Ok(())
    }

    /// Approves `source` (governance only); its quality starts at
    /// `INITIAL_QUALITY`.
    pub fn add_source(&mut self, caller: u64, source: u64) -> (r: Result<(), ContractError>)
        requires
            old(self)@.wf(),
        ensures
            final(self)@.wf(),
            governance_check(old(self)@, caller).is_err() ==> r == governance_check(
                old(self)@,
                caller,
            ) && final(self)@ == old(self)@,
            governance_check(old(self)@, caller).is_ok() && old(self)@.sources.len() + 1
                >= u32::MAX ==> r == Err::<(), ContractError>(ContractError::Overflow)
                && final(self)@ == old(self)@,
            governance_check(old(self)@, caller).is_ok() && old(self)@.sources.len() + 1
                < u32::MAX ==> r.is_ok() && final(self)@ == (OracleView {
                sources: old(self)@.sources.push(source),
                quality: old(self)@.quality.insert(source, INITIAL_QUALITY),
                ..old(self)@
            }),
    {
        self.require_governance(caller)?;
        if self.sources.len() + 1 >= u32::MAX as usize {
            return Err(ContractError::Overflow);
        }
        self.sources.push(source);
        self.quality.insert(source, INITIAL_QUALITY);
        Ok(())
    }

    /// Withdraws every approval of `source` (governance only).
    pub fn remove_source(&mut self, caller: u64, source: u64) -> (r: Result<(), ContractError>)
        requires
            old(self)@.wf(),
        ensures
            final(self)@.wf(),
            governance_check(old(self)@, caller).is_err() ==> r == governance_check(
                old(self)@,
                caller,
            ) && final(self)@ == old(self)@,
            governance_check(old(self)@, caller).is_ok() ==> r.is_ok() && final(self)@ == (
            OracleView { sources: old(self)@.sources.filter(|s: u64| s != source), ..old(self)@ }),
    {
        self.require_governance(caller)?;
        let kept = without(&self.sources, source);
        proof {
            self.sources@.lemma_filter_len(|s: u64| s != source);
        }
        self.sources = kept;
        Ok(())
    }

    /// Pauses or resumes price submission (governance only).
    pub fn set_paused(&mut self, caller: u64, paused: bool) -> (r: Result<(), ContractError>)
        requires
            old(self)@.wf(),
        ensures
            final(self)@.wf(),
            governance_check(old(self)@, caller).is_err() ==> r == governance_check(
                old(self)@,
                caller,
            ) && final(self)@ == old(self)@,
            governance_check(old(self)@, caller).is_ok() ==> r.is_ok() && final(self)@ == (
            OracleView { paused, ..old(self)@ }),
    {
        self.require_governance(caller)?;
        self.paused = paused;
        Ok(())
    }

    /// Sets the price that reads fall back to for `asset` (governance only).
    pub fn set_fallback_price(&mut self, caller: u64, asset: u64, price: i128) -> (r: Result<
        (),
        ContractError,
    >)
        requires
            old(self)@.wf(),
        ensures
            final(self)@.wf(),
            governance_check(old(self)@, caller).is_err() ==> r == governance_check(
                old(self)@,
                caller,
            ) && final(self)@ == old(self)@,
            governance_check(old(self)@, caller).is_ok() ==> r.is_ok() && final(self)@ == (
            OracleView { fallback: old(self)@.fallback.insert(asset, price), ..old(self)@ }),
    {
        self.require_governance(caller)?;
        self.fallback.insert(asset, price);
        Ok(())
    }

    /// One consensus round at `now`: gathers the fresh prices of the
    /// approved sources in list order, decays the quality of each source
    /// whose submission is missing or stale, and computes the consensus.
    fn run_round(&mut self, now: u64) -> (r: ConsensusResult)
        requires
            old(self)@.wf(),
        ensures
            final(self)@ == (OracleView {
                quality: decayed_quality(
                    old(self)@.sources,
                    old(self)@.submissions,
                    now,
                    old(self)@.quality,
                ),
                ..old(self)@
            }),
            r == consensus_of(old(self)@.fresh(now), now),
            r.is_valid ==> valid_price(r.price),
    {
        let ghost v0 = self@;
        let mut prices: Vec<i128> = Vec::new();
        let mut i: usize = 0;
        while i < self.sources.len()
            invariant
                v0 == old(self)@,
                v0.wf(),
                i <= v0.sources.len(),
                self@ == (OracleView {
                    quality: decayed_quality(
                        v0.sources.subrange(0, i as int),
                        v0.submissions,
                        now,
                        v0.quality,
                    ),
                    ..v0
                }),
                prices@ == fresh_prices(v0.sources.subrange(0, i as int), v0.submissions, now),
            decreases v0.sources.len() - i,
        {
            let source = self.sources[i];
            let ghost pre = v0.sources.subrange(0, i as int);
            assert(v0.sources.subrange(0, i + 1).drop_last() =~= pre);
            assert(v0.sources.subrange(0, i + 1).last() == source);
            let fresh: bool = match self.submissions.get(&source) {
                Some(sub) => {
                    let sub = *sub;
                    if now.saturating_sub(sub.timestamp) <= STALENESS_THRESHOLD_SECS {
                        prices.push(sub.price);
                        true
                    } else {
                        false
                    }
                },
                None => false,
            };
            if !fresh {
                let score: u32 = match self.quality.get(&source) {
                    Some(q) => *q,
                    None => UNSCORED_QUALITY,
                };
                self.quality.insert(source, score.saturating_sub(QUALITY_DECAY_PER_MISS));
            }
            i = i + 1;
        }
        assert(v0.sources.subrange(0, i as int) =~= v0.sources);
        proof {
            lemma_fresh_prices_valid(v0.sources, v0.submissions, now);
        }
        compute_consensus(&prices, now)
    }

    /// Whether recording `price` for `asset` would be flagged as an anomaly:
    /// it moves more than `ANOMALY_MULTIPLIER_BPS` from the asset's last
    /// recorded price.
    pub fn detect_anomaly(&self, asset: u64, price: i128) -> (r: bool)
        requires
            self@.wf(),
            valid_price(price),
        ensures
            r == self@.jump_flagged(asset, price),
    {
        match self.history.get(&asset) {
            None => false,
            Some(h) => {
                assert(h@ == self@.history_of(asset));
                if h.len() == 0 {
                    false
                } else {
                    let prev = h[h.len() - 1].price;
                    assert(valid_price(h@[h@.len() - 1].price));
                    detect_jump(price, prev)
                }
            },
        }
    }

    /// Records the valid consensus `r` for `asset`: sets the anomaly flag,
    /// the aggregated price, and appends to the capped history.
    fn store_consensus(&mut self, asset: u64, r: ConsensusResult)
        requires
            old(self)@.wf(),
            valid_price(r.price),
        ensures
            final(self)@ == old(self)@.record(asset, r),
            final(self)@.wf(),
    {
        let ghost v0 = self@;
        let anomaly = self.detect_anomaly(asset, r.price);
        self.anomaly.insert(asset, anomaly);
        self.aggregated.insert(asset, r.price);
        let point = PricePoint {
            price: r.price,
            timestamp: r.timestamp,
            sources: r.sources_used,
            anomaly,
        };
        let mut h: Vec<PricePoint> = match self.history.remove(&asset) {
            Some(h) => h,
            None => Vec::new(),
        };
        assert(h@ == v0.history_of(asset));
        if h.len() >= HISTORY_MAX_ENTRIES {
            h.remove(0);
            assert(h@ =~= v0.history_of(asset).subrange(1, v0.history_of(asset).len() as int));
        }
        h.push(point);
        assert(h@ == capped_push(v0.history_of(asset), point));
        self.history.insert(asset, h);
        assert(self@.history =~= v0.history.insert(
            asset,
            capped_push(v0.history_of(asset), point),
        ));
        assert(self@ == v0.record(asset, r));
        proof {
            let n = v0.record(asset, r);
            assert forall|a: u64| #[trigger] n.history.contains_key(a) implies history_ok(
                n.history[a],
            ) by {
                if a == asset {
                    let old_h = v0.history_of(asset);
                    assert(history_ok(old_h));
                    let nh = capped_push(old_h, point);
                    assert forall|i: int| 0 <= i < nh.len() implies valid_price(
                        #[trigger] nh[i].price,
                    ) by {
                        if i < nh.len() - 1 {
                            if old_h.len() >= HISTORY_MAX_ENTRIES {
                                assert(nh[i] == old_h[i + 1]);
                            } else {
                                assert(nh[i] == old_h[i]);
                            }
                        }
                    }
                }
            }
        }
    }

    /// Re-runs consensus for `asset` at `now` and records a valid result.
    pub fn evaluate_consensus(&mut self, asset: u64, now: u64) -> (r: ConsensusResult)
        requires
            old(self)@.wf(),
        ensures
            final(self)@.wf(),
            r == consensus_of(old(self)@.fresh(now), now),
            final(self)@ == old(self)@.after_round(asset, now),
    {
        let r = self.run_round(now);
        if r.is_valid {
            self.store_consensus(asset, r);
        }
        r
    }

    /// A source reports `price` for `asset` at `now`; its previous
    /// submission is replaced and a consensus round follows. Prices must be
    /// positive and at most `MAX_PRICE` (above it a deviation in basis
    /// points would not fit in `i128`); others are refused with
    /// `InvalidInput`, as is a confidence above `MAX_CONFIDENCE`.
    pub fn submit_price(
        &mut self,
        source: u64,
        asset: u64,
        price: i128,
        confidence: u32,
        now: u64,
    ) -> (r: Result<(), ContractError>)
        requires
            old(self)@.wf(),
        ensures
            final(self)@.wf(),
            r == submission_check(old(self)@, source, price, confidence),
            r.is_err() ==> final(self)@ == old(self)@,
            r.is_ok() ==> final(self)@ == (OracleView {
                submissions: old(self)@.submissions.insert(
                    source,
                    PriceSubmission { source, price, timestamp: now, confidence },
                ),
                ..old(self)@
            }).after_round(asset, now),
    {
        if self.paused {
            return Err(ContractError::Paused);
        }
        if !self.is_approved_source(source) {
            return Err(ContractError::Unauthorized);
        }
        if price <= 0 || price > MAX_PRICE {
            return Err(ContractError::InvalidInput);
        }
        if confidence > MAX_CONFIDENCE {
            return Err(ContractError::InvalidInput);
        }
        let sub = PriceSubmission { source, price, timestamp: now, confidence };
        self.submissions.insert(source, sub);
        self.evaluate_consensus(asset, now);
        Ok(())
    }

    /// Whether `source` is in the approved list.
    pub fn is_approved_source(&self, source: u64) -> (r: bool)
        ensures
            r == self@.sources.contains(source),
    {
        let mut i: usize = 0;
        while i < self.sources.len()
            invariant
                i <= self.sources@.len(),
                forall|k: int| 0 <= k < i ==> self.sources@[k] != source,
            decreases self.sources@.len() - i,
        {
            if self.sources[i] == source {
                assert(self.sources@[i as int] == source);
                return true;
            }
            i = i + 1;
        }
        false
    }

    /// The recorded quality score of `source` (0 when it has none).
    pub fn get_source_quality(&self, source: u64) -> (r: u32)
        ensures
            r == self@.reported_quality(source),
    {
        match self.quality.get(&source) {
            Some(q) => *q,
            None => 0,
        }
    }

    /// Whether the last recorded consensus for `asset` was flagged.
    pub fn is_anomaly(&self, asset: u64) -> (r: bool)
        ensures
            r == self@.anomaly_of(asset),
    {
        match self.anomaly.get(&asset) {
            Some(f) => *f,
            None => false,
        }
    }

    /// The recorded price history of `asset`, oldest first.
    pub fn get_price_history(&self, asset: u64) -> (r: Vec<PricePoint>)
        ensures
            r@ == self@.history_of(asset),
    {
        match self.history.get(&asset) {
            Some(h) => {
                let c = h.clone();
                assert(c@ =~= h@);
                c
            },
            None => Vec::new(),
        }
    }

    /// The consensus price of `asset`, or its fallback while an anomaly
    /// stands or before any consensus; `NotFound` when neither exists.
    pub fn get_price(&self, asset: u64) -> (r: Result<i128, ContractError>)
        ensures
            match self@.price_of(asset) {
                Some(p) => r == Ok::<i128, ContractError>(p),
                None => r == Err::<i128, ContractError>(ContractError::NotFound),
            },
    {
        if !self.is_anomaly(asset) {
            match self.aggregated.get(&asset) {
                Some(p) => {
                    return Ok(*p);
                },
                None => {},
            }
        }
        match self.fallback.get(&asset) {
            Some(p) => Ok(*p),
            None => Err(ContractError::NotFound),
        }
    }
}

} // verus!
