//! Structured-event vocabulary and the summaries that event verification and
//! monitoring produce over the protocol's contracts.
use vstd::prelude::*;

verus! {

/// Area of the protocol an event belongs to.
#[derive(Clone, Copy, Debug, PartialEq, Eq, Structural)]
pub enum EventCategory {
    Policy,
    Claim,
    RiskPool,
    Governance,
    Treasury,
    Authorization,
    Compliance,
    Emergency,
    CrossChain,
    Monitoring,
}

/// How serious an event is.
#[derive(Clone, Copy, Debug, PartialEq, Eq, Structural)]
pub enum EventSeverity {
    Info,
    Warning,
    Error,
    Critical,
}

/// Number of checks that passed.
pub open spec fn passed_in(results: Seq<bool>) -> nat {
    results.filter(|b: bool| b).len()
}

/// Summary of an event-verification run over several contracts.
#[derive(Clone, Debug)]
pub struct EventVerificationResult {
    pub all_passed: bool,
    pub total_contracts: u32,
    pub passed_count: u32,
    pub failed_count: u32,
    /// Outcome per contract, in the order the contracts were checked.
    pub individual_results: Vec<bool>,
}

/// Event verification over the protocol's contracts.
pub struct EventVerificationChecklist;

fn count_true(results: &Vec<bool>) -> (n: usize)
    ensures
        n == passed_in(results@),
        n <= results@.len(),
{
    let ghost pred = |b: bool| b;
    let mut n: usize = 0;
    let mut i: usize = 0;
    while i < results.len()
        invariant
            i <= results@.len(),
            pred == (|b: bool| b),
            n == results@.subrange(0, i as int).filter(pred).len(),
            n <= i,
        decreases results@.len() - i,
    {
        proof {
            let pre = results@.subrange(0, i as int);
            assert(results@.subrange(0, i + 1) =~= pre.push(results@[i as int]));
            pre.lemma_filter_push(results@[i as int], pred);
        }
        if results[i] {
            n = n + 1;
        }
        i = i + 1;
    }
    assert(results@.subrange(0, i as int) =~= results@);
    n
}

impl EventVerificationChecklist {
    /// Summarises the per-contract verification outcomes `results`: how many passed and
    /// failed, and whether all did.
    pub fn verify_all_contracts(results: Vec<bool>) -> (r: EventVerificationResult)
        requires
            results@.len() <= u32::MAX,
        ensures
            r.total_contracts == results@.len(),
            r.passed_count == passed_in(results@),
            r.failed_count == results@.len() - passed_in(results@),
            r.all_passed == (passed_in(results@) == results@.len()),
            r.individual_results@ == results@,
    {
        let passed = count_true(&results);
        let total = results.len();
        EventVerificationResult {
            all_passed: passed == total,
            total_contracts: total as u32,
            passed_count: passed as u32,
            failed_count: (total - passed) as u32,
            individual_results: results,
        }
    }
}

/// Runtime monitoring of the events that contracts emit.
pub struct EventMonitor;

impl EventMonitor {
    /// Whether a contract is compliant: no required event is missing and no
    /// unexpected event was seen.
    pub fn is_compliant(missing_events: usize, unexpected_events: usize) -> (r: bool)
        ensures
            r == (missing_events == 0 && unexpected_events == 0),
    {
        missing_events == 0 && unexpected_events == 0
    }

    /// How many of the monitored contracts are compliant, and whether all
    /// are.
    pub fn compliance_summary(compliant: &Vec<bool>) -> (r: (usize, bool))
        ensures
            r.0 == passed_in(compliant@),
            r.1 == (passed_in(compliant@) == compliant@.len()),
    {
        let n = count_true(compliant);
        (n, n == compliant.len())
    }
}

} // verus!
