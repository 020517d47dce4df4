//! Claims state machine: submission against a policy snapshot, a strict
//! forward-only lifecycle checked against one transition table, optional
//! oracle gating of approval, risk-pool reservation and payout, and
//! paginated read views for indexers.
//!
//! Calls into other contracts (the policy lookup, the risk pool, the oracle)
//! are made by the caller: their answers come in as arguments, and a call
//! that failed leaves the claim as it was.
use vstd::prelude::*;
use std::collections::HashMap;
use std::collections::HashSet;
use crate::errors::ContractError;

verus! {

broadcast use vstd::std_specs::hash::group_hash_axioms;

/// Largest page a paginated read returns; a limit of 0 also means this.
pub const MAX_PAGINATION_LIMIT: u32 = 50;

/// Lifecycle of a claim.
#[derive(Clone, Copy, Debug, PartialEq, Eq, Structural)]
pub enum ClaimStatus {
    Submitted,
    UnderReview,
    Approved,
    Rejected,
    Settled,
}

/// Role of an address in the claims contract.
#[derive(Clone, Copy, Debug, PartialEq, Eq, Structural)]
pub enum Role {
    Admin,
    ClaimProcessor,
    NoRole,
}

/// A stored claim.
#[derive(Clone, Copy, Debug, PartialEq, Eq)]
pub struct Claim {
    pub policy_id: u64,
    pub claimant: u64,
    pub amount: i128,
    pub status: ClaimStatus,
    pub submitted_at: u64,
}

/// Read-only projection of a claim for indexers.
#[derive(Clone, Copy, Debug, PartialEq, Eq)]
pub struct ClaimView {
    pub id: u64,
    pub policy_id: u64,
    pub claimant: u64,
    pub amount: i128,
    pub status: ClaimStatus,
    pub submitted_at: u64,
}

/// One page of claims and the number of claims that match in all.
#[derive(Clone, Debug)]
pub struct PaginatedClaimsResult {
    pub claims: Vec<ClaimView>,
    pub total_count: u32,
}

/// How approval is gated on oracle data.
#[derive(Clone, Copy, Debug, PartialEq, Eq)]
pub struct OracleValidationConfig {
    pub oracle_contract: u64,
    pub require_oracle_validation: bool,
    pub min_oracle_submissions: u32,
}

/// The policy contract's answer for a policy: its holder and coverage.
#[derive(Clone, Copy, Debug, PartialEq, Eq)]
pub struct PolicyInfo {
    pub holder: u64,
    pub coverage_amount: i128,
}

/// The oracle contract's answer for an oracle data id: how many
/// submissions it holds.
#[derive(Clone, Copy, Debug, PartialEq, Eq)]
pub struct OracleReading {
    pub data_id: u64,
    pub submission_count: u32,
}

/// A call that the caller makes on the risk pool: a reservation of
/// `amount` at approval, or a payout of the reserved funds to `recipient`
/// at settlement.
#[derive(Clone, Copy, Debug, PartialEq, Eq)]
pub struct PoolRequest {
    pub risk_pool: u64,
    pub claim_id: u64,
    pub amount: i128,
    pub recipient: u64,
}

/// The transition table: the only status changes a claim may make.
pub open spec fn transition_allowed(from: ClaimStatus, to: ClaimStatus) -> bool {
    match (from, to) {
        (ClaimStatus::Submitted, ClaimStatus::UnderReview) => true,
        (ClaimStatus::UnderReview, ClaimStatus::Approved) => true,
        (ClaimStatus::UnderReview, ClaimStatus::Rejected) => true,
        (ClaimStatus::Approved, ClaimStatus::Settled) => true,
        _ => false,
    }
}

/// Looks a status change up in the transition table.
pub fn is_valid_state_transition(current: ClaimStatus, next: ClaimStatus) -> (r: bool)
    ensures
        r == transition_allowed(current, next),
{
    match (current, next) {
        (ClaimStatus::Submitted, ClaimStatus::UnderReview) => true,
        (ClaimStatus::UnderReview, ClaimStatus::Approved) => true,
        (ClaimStatus::UnderReview, ClaimStatus::Rejected) => true,
        (ClaimStatus::Approved, ClaimStatus::Settled) => true,
        _ => false,
    }
}

/// A claim amount must be positive.
pub fn validate_amount(amount: i128) -> (r: Result<(), ContractError>)
    ensures
        r == (if amount <= 0 {
            Err::<(), ContractError>(ContractError::InvalidAmount)
        } else {
            Ok(())
        }),
{
    if amount <= 0 {
        return Err(ContractError::InvalidAmount);
    }
    Ok(())
}

/// A claim may not exceed the policy's coverage.
pub fn validate_coverage_constraint(claim_amount: i128, coverage_amount: i128) -> (r: Result<
    (),
    ContractError,
>)
    ensures
        r == (if claim_amount > coverage_amount {
            Err::<(), ContractError>(ContractError::CoverageExceeded)
        } else {
            Ok(())
        }),
{
    if claim_amount > coverage_amount {
        return Err(ContractError::CoverageExceeded);
    }
    Ok(())
}

/// Page size actually used for a requested limit.
pub open spec fn effective_limit_of(limit: u32) -> u32 {
    if limit == 0 || limit > MAX_PAGINATION_LIMIT {
        MAX_PAGINATION_LIMIT
    } else {
        limit
    }
}

/// Caps a requested page size at `MAX_PAGINATION_LIMIT`; 0 means the cap.
pub fn effective_limit(limit: u32) -> (r: u32)
    ensures
        r == effective_limit_of(limit),
        0 < r <= MAX_PAGINATION_LIMIT,
{
    if limit > MAX_PAGINATION_LIMIT {
        MAX_PAGINATION_LIMIT
    } else if limit == 0 {
        MAX_PAGINATION_LIMIT
    } else {
        limit
    }
}

/// The ids on the page that starts at `start` and holds at most `limit`.
pub open spec fn page_of(ids: Seq<u64>, start: int, limit: int) -> Seq<u64> {
    if start >= ids.len() {
        seq![]
    } else if start + limit >= ids.len() {
        ids.subrange(start, ids.len() as int)
    } else {
        ids.subrange(start, start + limit)
    }
}

pub open spec fn view_of(id: u64, c: Claim) -> ClaimView {
    ClaimView {
        id,
        policy_id: c.policy_id,
        claimant: c.claimant,
        amount: c.amount,
        status: c.status,
        submitted_at: c.submitted_at,
    }
}

/// The error of a failed check.
pub open spec fn error_of(r: Result<(), ContractError>) -> ContractError {
    match r {
        Err(e) => e,
        Ok(_) => ContractError::InvalidState,
    }
}

fn to_view(id: u64, c: Claim) -> (r: ClaimView)
    ensures
        r == view_of(id, c),
{
    ClaimView {
        id,
        policy_id: c.policy_id,
        claimant: c.claimant,
        amount: c.amount,
        status: c.status,
        submitted_at: c.submitted_at,
    }
}

/// Mathematical state of a claims contract.
pub struct ClaimsState {
    pub admin: Option<u64>,
    /// Policy contract and risk pool, set at initialisation.
    pub config: Option<(u64, u64)>,
    pub paused: bool,
    pub processors: Set<u64>,
    pub claims: Map<u64, Claim>,
    /// The claim filed against each policy.
    pub policy_claims: Map<u64, u64>,
    /// Every claim id, in the order of submission.
    pub claim_list: Seq<u64>,
    pub claim_counter: u64,
    pub oracle_config: Option<OracleValidationConfig>,
    /// Oracle data id that each oracle-gated approval relied on.
    pub claim_oracle: Map<u64, u64>,
}

impl ClaimsState {
    /// Invariant of every reachable claims state: ids run from 1 to the
    /// counter in submission order, each policy has at most one claim and
    /// the index says which, and every amount is positive.
    pub open spec fn wf(self) -> bool {
        &&& self.admin.is_some() == self.config.is_some()
        &&& self.claim_list.len() == self.claim_counter
        &&& self.claim_counter <= u32::MAX
        &&& forall|i: int| 0 <= i < self.claim_list.len() ==> #[trigger] self.claim_list[i] == i + 1
        &&& forall|id: u64| #[trigger] self.claims.contains_key(id) <==> 1 <= id <= self.claim_counter
        &&& forall|id: u64| #[trigger]
            self.claims.contains_key(id) ==> self.claims[id].amount > 0
                && self.policy_claims.contains_key(self.claims[id].policy_id)
                && self.policy_claims[self.claims[id].policy_id] == id
        &&& forall|p: u64| #[trigger]
            self.policy_claims.contains_key(p) ==> self.claims.contains_key(self.policy_claims[p])
                && self.claims[self.policy_claims[p]].policy_id == p
    }

    pub open spec fn is_processor(self, who: u64) -> bool {
        self.admin == Some(who) || self.processors.contains(who)
    }

    /// The claim `id` with its status set to `status`.
    pub open spec fn with_status(self, id: u64, status: ClaimStatus) -> ClaimsState {
        ClaimsState { claims: self.claims.insert(id, Claim { status, ..self.claims[id] }), ..self }
    }

    /// State after filing a claim: the next id, status Submitted, indexed
    /// under its policy and appended to the id list.
    pub open spec fn after_submission(self, claimant: u64, policy_id: u64, amount: i128, now: u64) -> ClaimsState {
        let id = (self.claim_counter + 1) as u64;
        ClaimsState {
            claims: self.claims.insert(
                id,
                Claim { policy_id, claimant, amount, status: ClaimStatus::Submitted, submitted_at: now },
            ),
            policy_claims: self.policy_claims.insert(policy_id, id),
            claim_list: self.claim_list.push(id),
            claim_counter: id,
            ..self
        }
    }

    pub open spec fn oracle_required(self) -> bool {
        self.oracle_config.is_some() && self.oracle_config.unwrap().require_oracle_validation
    }

    /// The ids of the claims whose status is `status`, in submission order.
    pub open spec fn ids_with_status(self, status: ClaimStatus) -> Seq<u64> {
        self.claim_list.filter(|id: u64| self.claims[id].status == status)
    }

    /// The views of the claims with the listed ids.
    pub open spec fn views(self, ids: Seq<u64>) -> Seq<ClaimView> {
        ids.map_values(|id: u64| view_of(id, self.claims[id]))
    }
}

/// Outcome of the admin check for `caller`.
pub open spec fn admin_check(v: ClaimsState, caller: u64) -> Result<(), ContractError> {
    match v.admin {
        None => Err(ContractError::NotInitialized),
        Some(a) => if a == caller {
            Ok(())
        } else {
            Err(ContractError::Unauthorized)
        },
    }
}

/// Outcome of the claim-processor check for `caller`.
pub open spec fn processor_check(v: ClaimsState, caller: u64) -> Result<(), ContractError> {
    if v.admin.is_none() {
        Err(ContractError::NotInitialized)
    } else if v.is_processor(caller) {
        Ok(())
    } else {
        Err(ContractError::Unauthorized)
    }
}

/// Outcome of the checks that guard moving claim `id` to `to`.
pub open spec fn transition_check(v: ClaimsState, caller: u64, id: u64, to: ClaimStatus) -> Result<
    (),
    ContractError,
> {
    if processor_check(v, caller).is_err() {
        processor_check(v, caller)
    } else if !v.claims.contains_key(id) {
        Err(ContractError::NotFound)
    } else if !transition_allowed(v.claims[id].status, to) {
        Err(ContractError::InvalidState)
    } else {
        Ok(())
    }
}

/// Outcome of the checks on a claim submission, in the order they apply.
pub open spec fn submission_check(
    v: ClaimsState,
    claimant: u64,
    policy_id: u64,
    amount: i128,
    policy: PolicyInfo,
) -> Result<(), ContractError> {
    if v.paused {
        Err(ContractError::Paused)
    } else if v.config.is_none() {
        Err(ContractError::NotInitialized)
    } else if v.policy_claims.contains_key(policy_id) {
        Err(ContractError::AlreadyExists)
    } else if policy.holder != claimant {
        Err(ContractError::Unauthorized)
    } else if amount <= 0 || amount > policy.coverage_amount {
        Err(ContractError::InvalidInput)
    } else if v.claim_counter >= u32::MAX {
        Err(ContractError::Overflow)
    } else {
        Ok(())
    }
}

/// Outcome of the checks that guard approving claim `id` with the oracle
/// answer `oracle`.
pub open spec fn approval_check(
    v: ClaimsState,
    caller: u64,
    id: u64,
    oracle: Option<OracleReading>,
) -> Result<(), ContractError> {
    if transition_check(v, caller, id, ClaimStatus::Approved).is_err() {
        transition_check(v, caller, id, ClaimStatus::Approved)
    } else if v.oracle_required() && oracle.is_none() {
        Err(ContractError::OracleValidationFailed)
    } else if v.oracle_required() && oracle.unwrap().submission_count
        < v.oracle_config.unwrap().min_oracle_submissions {
        Err(ContractError::InsufficientOracleSubmissions)
    } else {
        Ok(())
    }
}

/// Outcome of the checks that guard settling claim `id`.
pub open spec fn settlement_check(v: ClaimsState, caller: u64, id: u64) -> Result<(), ContractError> {
    if transition_check(v, caller, id, ClaimStatus::Settled).is_err() {
        transition_check(v, caller, id, ClaimStatus::Settled)
    } else {
        Ok(())
    }
}

/// A second claim against a policy that already has one fails with
/// `AlreadyExists`, whoever files it and whatever the amount.
pub proof fn lemma_duplicate_claim_rejected(
    v: ClaimsState,
    claimant: u64,
    policy_id: u64,
    amount: i128,
    policy: PolicyInfo,
)
    requires
        v.wf(),
        !v.paused,
        v.config.is_some(),
        v.policy_claims.contains_key(policy_id),
    ensures
        submission_check(v, claimant, policy_id, amount, policy) == Err::<(), ContractError>(
            ContractError::AlreadyExists,
        ),
{
}

/// Once a claim against `policy_id` has been filed, every later submission
/// against the same policy fails with `AlreadyExists`, whoever files it.
pub proof fn lemma_second_claim_rejected(
    v: ClaimsState,
    first_claimant: u64,
    first_amount: i128,
    first_policy: PolicyInfo,
    now: u64,
    policy_id: u64,
    claimant: u64,
    amount: i128,
    policy: PolicyInfo,
)
    requires
        v.wf(),
        submission_check(v, first_claimant, policy_id, first_amount, first_policy).is_ok(),
    ensures
        submission_check(
            v.after_submission(first_claimant, policy_id, first_amount, now),
            claimant,
            policy_id,
            amount,
            policy,
        ) == Err::<(), ContractError>(ContractError::AlreadyExists),
{
}

/// Every status change outside the transition table fails with
/// `InvalidState` once the caller is a processor and the claim exists, for
/// review, rejection, approval and settlement alike (and a failed call
/// leaves the state unchanged).
pub proof fn lemma_transition_closure(v: ClaimsState, caller: u64, id: u64, to: ClaimStatus, oracle: Option<OracleReading>)
    requires
        v.wf(),
        v.is_processor(caller),
        v.admin.is_some(),
        v.claims.contains_key(id),
        !transition_allowed(v.claims[id].status, to),
    ensures
        transition_check(v, caller, id, to) == Err::<(), ContractError>(ContractError::InvalidState),
        to == ClaimStatus::Approved ==> approval_check(v, caller, id, oracle) == Err::<
            (),
            ContractError,
        >(ContractError::InvalidState),
        to == ClaimStatus::Settled ==> settlement_check(v, caller, id) == Err::<(), ContractError>(
            ContractError::InvalidState,
        ),
{
}

/// A claim for one more than the coverage is rejected with `InvalidInput`;
/// a claim for exactly the coverage passes the checks.
pub proof fn lemma_coverage_bound(v: ClaimsState, claimant: u64, policy_id: u64, policy: PolicyInfo)
    requires
        v.wf(),
        !v.paused,
        v.config.is_some(),
        !v.policy_claims.contains_key(policy_id),
        policy.holder == claimant,
        v.claim_counter < u32::MAX,
        0 < policy.coverage_amount < i128::MAX,
    ensures
        submission_check(v, claimant, policy_id, (policy.coverage_amount + 1) as i128, policy)
            == Err::<(), ContractError>(ContractError::InvalidInput),
        submission_check(v, claimant, policy_id, policy.coverage_amount, policy) == Ok::<
            (),
            ContractError,
        >(()),
{
}

/// A page that starts at the total count is empty, and a limit of 0 means
/// the largest page.
pub proof fn lemma_pagination_boundary(v: ClaimsState, limit: u32)
    ensures
        v.views(page_of(v.claim_list, v.claim_list.len() as int, effective_limit_of(limit) as int))
            == Seq::<ClaimView>::empty(),
        effective_limit_of(0) == MAX_PAGINATION_LIMIT,
{
    assert(v.views(page_of(v.claim_list, v.claim_list.len() as int, effective_limit_of(limit) as int))
        =~= Seq::<ClaimView>::empty());
}

/// The claims contract's state.
pub struct ClaimsContract {
    admin: Option<u64>,
    config: Option<(u64, u64)>,
    paused: bool,
    processors: HashSet<u64>,
    claims: HashMap<u64, Claim>,
    policy_claims: HashMap<u64, u64>,
    claim_list: Vec<u64>,
    claim_counter: u64,
    oracle_config: Option<OracleValidationConfig>,
    claim_oracle: HashMap<u64, u64>,
}

impl View for ClaimsContract {
    type V = ClaimsState;

    closed spec fn view(&self) -> ClaimsState {
        ClaimsState {
            admin: self.admin,
            config: self.config,
            paused: self.paused,
            processors: self.processors@,
            claims: self.claims@,
            policy_claims: self.policy_claims@,
            claim_list: self.claim_list@,
            claim_counter: self.claim_counter,
            oracle_config: self.oracle_config,
            claim_oracle: self.claim_oracle@,
        }
    }
}

impl ClaimsContract {
    /// A contract that has not been initialised and holds no claims.
    pub fn new() -> (r: Self)
        ensures
            r@.wf(),
            r@.admin.is_none(),
            r@.config.is_none(),
            !r@.paused,
            r@.processors.is_empty(),
            r@.claims.is_empty(),
            r@.policy_claims.is_empty(),
            r@.claim_list.len() == 0,
            r@.claim_counter == 0,
            r@.oracle_config.is_none(),
            r@.claim_oracle.is_empty(),
    {
        ClaimsContract {
            admin: None,
            config: None,
            paused: false,
            processors: HashSet::new(),
            claims: HashMap::new(),
            policy_claims: HashMap::new(),
            claim_list: Vec::new(),
            claim_counter: 0,
            oracle_config: None,
            claim_oracle: HashMap::new(),
        }
    }

    fn require_admin(&self, caller: u64) -> (r: Result<(), ContractError>)
        ensures
            r == admin_check(self@, caller),
    {
        match self.admin {
            None => Err(ContractError::NotInitialized),
            Some(a) => if a == caller {
                Ok(())
            } else {
                Err(ContractError::Unauthorized)
            },
        }
    }

    fn require_claim_processing(&self, caller: u64) -> (r: Result<(), ContractError>)
        ensures
            r == processor_check(self@, caller),
    {
        match self.admin {
            None => Err(ContractError::NotInitialized),
            Some(a) => if a == caller || self.processors.contains(&caller) {
                Ok(())
            } else {
                Err(ContractError::Unauthorized)
            },
        }
    }

    /// Sets the admin, the policy contract and the risk pool, once.
    pub fn initialize(&mut self, admin: u64, policy_contract: u64, risk_pool: u64) -> (r: Result<
        (),
        ContractError,
    >)
        requires
            old(self)@.wf(),
        ensures
            final(self)@.wf(),
            old(self)@.admin.is_some() ==> r == Err::<(), ContractError>(
                ContractError::AlreadyInitialized,
            ) && final(self)@ == old(self)@,
            old(self)@.admin.is_none() ==> r.is_ok() && final(self)@ == (ClaimsState {
                admin: Some(admin),
                config: Some((policy_contract, risk_pool)),
                ..old(self)@
            }),
    {
        if self.admin.is_some() {
            return Err(ContractError::AlreadyInitialized);
        }
        self.admin = Some(admin);
        self.config = Some((policy_contract, risk_pool));
        Ok(())
    }

    /// Configures oracle gating of approvals (admin only).
    pub fn set_oracle_config(
        &mut self,
        admin: u64,
        oracle_contract: u64,
        require_oracle_validation: bool,
        min_oracle_submissions: u32,
    ) -> (r: Result<(), ContractError>)
        requires
            old(self)@.wf(),
        ensures
            final(self)@.wf(),
            admin_check(old(self)@, admin).is_err() ==> r == admin_check(old(self)@, admin)
                && final(self)@ == old(self)@,
            admin_check(old(self)@, admin).is_ok() ==> r.is_ok() && final(self)@ == (ClaimsState {
                oracle_config: Some(
                    OracleValidationConfig {
                        oracle_contract,
                        require_oracle_validation,
                        min_oracle_submissions,
                    },
                ),
                ..old(self)@
            }),
    {
        self.require_admin(admin)?;
        self.oracle_config = Some(
            OracleValidationConfig {
                oracle_contract,
                require_oracle_validation,
                min_oracle_submissions,
            },
        );
        Ok(())
    }

    /// The oracle gating configuration, if one was set.
    pub fn get_oracle_config(&self) -> (r: Result<OracleValidationConfig, ContractError>)
        ensures
            match self@.oracle_config {
                Some(c) => r == Ok::<OracleValidationConfig, ContractError>(c),
                None => r == Err::<OracleValidationConfig, ContractError>(ContractError::NotFound),
            },
    {
        match self.oracle_config {
            Some(c) => Ok(c),
            None => Err(ContractError::NotFound),
        }
    }

    /// Sets the paused flag (admin only).
    fn set_paused(&mut self, admin: u64, paused: bool) -> (r: Result<(), ContractError>)
        requires
            old(self)@.wf(),
        ensures
            final(self)@.wf(),
            admin_check(old(self)@, admin).is_err() ==> r == admin_check(old(self)@, admin)
                && final(self)@ == old(self)@,
            admin_check(old(self)@, admin).is_ok() ==> r.is_ok() && final(self)@ == (ClaimsState {
                paused,
                ..old(self)@
            }),
    {
        self.require_admin(admin)?;
        self.paused = paused;
        Ok(())
    }

    /// Stops claim submission (admin only).
    pub fn pause(&mut self, admin: u64) -> (r: Result<(), ContractError>)
        requires
            old(self)@.wf(),
        ensures
            final(self)@.wf(),
            admin_check(old(self)@, admin).is_err() ==> r == admin_check(old(self)@, admin)
                && final(self)@ == old(self)@,
            admin_check(old(self)@, admin).is_ok() ==> r.is_ok() && final(self)@ == (ClaimsState {
                paused: true,
                ..old(self)@
            }),
    {
        self.set_paused(admin, true)
    }

    /// Resumes claim submission (admin only).
    pub fn unpause(&mut self, admin: u64) -> (r: Result<(), ContractError>)
        requires
            old(self)@.wf(),
        ensures
            final(self)@.wf(),
            admin_check(old(self)@, admin).is_err() ==> r == admin_check(old(self)@, admin)
                && final(self)@ == old(self)@,
            admin_check(old(self)@, admin).is_ok() ==> r.is_ok() && final(self)@ == (ClaimsState {
                paused: false,
                ..old(self)@
            }),
    {
        self.set_paused(admin, false)
    }

    /// Grants the claim-processor role (admin only).
    pub fn grant_processor_role(&mut self, admin: u64, processor: u64) -> (r: Result<
        (),
        ContractError,
    >)
        requires
            old(self)@.wf(),
        ensures
            final(self)@.wf(),
            admin_check(old(self)@, admin).is_err() ==> r == admin_check(old(self)@, admin)
                && final(self)@ == old(self)@,
            admin_check(old(self)@, admin).is_ok() ==> r.is_ok() && final(self)@ == (ClaimsState {
                processors: old(self)@.processors.insert(processor),
                ..old(self)@
            }),
    {
        self.require_admin(admin)?;
        self.processors.insert(processor);
        Ok(())
    }

    /// Revokes the claim-processor role (admin only).
    pub fn revoke_processor_role(&mut self, admin: u64, processor: u64) -> (r: Result<
        (),
        ContractError,
    >)
        requires
            old(self)@.wf(),
        ensures
            final(self)@.wf(),
            admin_check(old(self)@, admin).is_err() ==> r == admin_check(old(self)@, admin)
                && final(self)@ == old(self)@,
            admin_check(old(self)@, admin).is_ok() ==> r.is_ok() && final(self)@ == (ClaimsState {
                processors: old(self)@.processors.remove(processor),
                ..old(self)@
            }),
    {
        self.require_admin(admin)?;
        self.processors.remove(&processor);
        Ok(())
    }

    /// The role of `address`.
    pub fn get_user_role(&self, address: u64) -> (r: Role)
        ensures
            r == (if self@.admin == Some(address) {
                Role::Admin
            } else if self@.processors.contains(address) {
                Role::ClaimProcessor
            } else {
                Role::NoRole
            }),
    {
        if self.admin == Some(address) {
            Role::Admin
        } else if self.processors.contains(&address) {
            Role::ClaimProcessor
        } else {
            Role::NoRole
        }
    }

    /// Files a claim of `amount` against `policy_id`, whose holder and
    /// coverage the policy contract reported as `policy`; `now` is the
    /// ledger time. Returns the new claim's id, the next in sequence.
    pub fn submit_claim(
        &mut self,
        claimant: u64,
        policy_id: u64,
        amount: i128,
        policy: PolicyInfo,
        now: u64,
    ) -> (r: Result<u64, ContractError>)
        requires
            old(self)@.wf(),
        ensures
            final(self)@.wf(),
            submission_check(old(self)@, claimant, policy_id, amount, policy).is_err() ==> r
                == Err::<u64, ContractError>(
                error_of(submission_check(old(self)@, claimant, policy_id, amount, policy)),
            ) && final(self)@ == old(self)@,
            submission_check(old(self)@, claimant, policy_id, amount, policy).is_ok() ==> r
                == Ok::<u64, ContractError>((old(self)@.claim_counter + 1) as u64) && final(self)@
                == old(self)@.after_submission(claimant, policy_id, amount, now),
    {
        if self.paused {
            return Err(ContractError::Paused);
        }
        if self.config.is_none() {
            return Err(ContractError::NotInitialized);
        }
        if self.policy_claims.contains_key(&policy_id) {
            return Err(ContractError::AlreadyExists);
        }
        if policy.holder != claimant {
            return Err(ContractError::Unauthorized);
        }
        if amount <= 0 || amount > policy.coverage_amount {
            return Err(ContractError::InvalidInput);
        }
        if self.claim_counter >= u32::MAX as u64 {
            return Err(ContractError::Overflow);
        }
        let ghost v0 = self@;
        let claim_id = self.claim_counter + 1;
        self.claim_counter = claim_id;
        let claim = Claim {
            policy_id,
            claimant,
            amount,
            status: ClaimStatus::Submitted,
            submitted_at: now,
        };
        self.claims.insert(claim_id, claim);
        self.policy_claims.insert(policy_id, claim_id);
        self.claim_list.push(claim_id);
        proof {
            let v = self@;
            assert forall|i: int| 0 <= i < v.claim_list.len() implies #[trigger] v.claim_list[i]
                == i + 1 by {
                if i < v0.claim_list.len() {
                    assert(v.claim_list[i] == v0.claim_list[i]);
                }
            }
            assert forall|p: u64| #[trigger] v.policy_claims.contains_key(p) implies v.claims.contains_key(
                v.policy_claims[p],
            ) && v.claims[v.policy_claims[p]].policy_id == p by {
                if p != policy_id {
                    assert(v0.policy_claims.contains_key(p));
                    assert(v0.policy_claims[p] != claim_id);
                }
            }
            assert forall|id: u64| #[trigger] v.claims.contains_key(id) implies v.claims[id].amount
                > 0 && v.policy_claims.contains_key(v.claims[id].policy_id)
                && v.policy_claims[v.claims[id].policy_id] == id by {
                if id != claim_id {
                    assert(v0.claims.contains_key(id));
                    assert(v0.claims[id].policy_id != policy_id);
                }
            }
        }
        Ok(claim_id)
    }

    /// Moves claim `claim_id` to `to` after the processor and
    /// transition-table checks; the single place where those checks are made.
    fn transition(&mut self, processor: u64, claim_id: u64, to: ClaimStatus) -> (r: Result<
        (),
        ContractError,
    >)
        requires
            old(self)@.wf(),
            to != ClaimStatus::Submitted,
        ensures
            final(self)@.wf(),
            r == transition_check(old(self)@, processor, claim_id, to),
            r.is_err() ==> final(self)@ == old(self)@,
            r.is_ok() ==> final(self)@ == old(self)@.with_status(claim_id, to),
    {
        self.require_claim_processing(processor)?;
        let mut claim = match self.claims.get(&claim_id) {
            Some(c) => *c,
            None => {
                return Err(ContractError::NotFound);
            },
        };
        if !is_valid_state_transition(claim.status, to) {
            return Err(ContractError::InvalidState);
        }
        claim.status = to;
        self.claims.insert(claim_id, claim);
        Ok(())
    }

    /// Submitted to UnderReview (claim processor only).
    pub fn start_review(&mut self, processor: u64, claim_id: u64) -> (r: Result<(), ContractError>)
        requires
            old(self)@.wf(),
        ensures
            final(self)@.wf(),
            r == transition_check(old(self)@, processor, claim_id, ClaimStatus::UnderReview),
            r.is_err() ==> final(self)@ == old(self)@,
            r.is_ok() ==> final(self)@ == old(self)@.with_status(
                claim_id,
                ClaimStatus::UnderReview,
            ),
    {
        self.transition(processor, claim_id, ClaimStatus::UnderReview)
    }

    /// UnderReview to Rejected (claim processor only).
    pub fn reject_claim(&mut self, processor: u64, claim_id: u64) -> (r: Result<(), ContractError>)
        requires
            old(self)@.wf(),
        ensures
            final(self)@.wf(),
            r == transition_check(old(self)@, processor, claim_id, ClaimStatus::Rejected),
            r.is_err() ==> final(self)@ == old(self)@,
            r.is_ok() ==> final(self)@ == old(self)@.with_status(claim_id, ClaimStatus::Rejected),
    {
        self.transition(processor, claim_id, ClaimStatus::Rejected)
    }

    /// The reservation that approving `claim_id` needs from the risk pool,
    /// once every approval check passes.
    pub fn approval_request(
        &self,
        processor: u64,
        claim_id: u64,
        oracle: Option<OracleReading>,
    ) -> (r: Result<PoolRequest, ContractError>)
        requires
            self@.wf(),
        ensures
            approval_check(self@, processor, claim_id, oracle).is_err() ==> r
                == Err::<PoolRequest, ContractError>(
                error_of(approval_check(self@, processor, claim_id, oracle)),
            ),
            approval_check(self@, processor, claim_id, oracle).is_ok() ==> r == Ok::<
                PoolRequest,
                ContractError,
            >(
                PoolRequest {
                    risk_pool: self@.config.unwrap().1,
                    claim_id,
                    amount: self@.claims[claim_id].amount,
                    recipient: self@.claims[claim_id].claimant,
                },
            ),
    {
        self.require_claim_processing(processor)?;
        let claim = match self.claims.get(&claim_id) {
            Some(c) => *c,
            None => {
                return Err(ContractError::NotFound);
            },
        };
        if !is_valid_state_transition(claim.status, ClaimStatus::Approved) {
            return Err(ContractError::InvalidState);
        }
        match self.oracle_config {
            Some(cfg) => {
                if cfg.require_oracle_validation {
                    match oracle {
                        None => {
                            return Err(ContractError::OracleValidationFailed);
                        },
                        Some(o) => {
                            if o.submission_count < cfg.min_oracle_submissions {
                                return Err(ContractError::InsufficientOracleSubmissions);
                            }
                        },
                    }
                }
            },
            None => {},
        }
        match self.config {
            None => Err(ContractError::NotInitialized),
            Some((_, risk_pool)) => Ok(
                PoolRequest {
                    risk_pool,
                    claim_id,
                    amount: claim.amount,
                    recipient: claim.claimant,
                },
            ),
        }
    }

    /// UnderReview to Approved (claim processor only). With oracle gating
    /// required, `oracle` must be the oracle's answer for the data id the
    /// approval relies on, with at least the configured number of
    /// submissions. `reserved` is whether the risk pool accepted the
    /// reservation of `approval_request`; when it did not, nothing changes.
    pub fn approve_claim(
        &mut self,
        processor: u64,
        claim_id: u64,
        oracle: Option<OracleReading>,
        reserved: bool,
    ) -> (r: Result<(), ContractError>)
        requires
            old(self)@.wf(),
        ensures
            final(self)@.wf(),
            approval_check(old(self)@, processor, claim_id, oracle).is_err() ==> r
                == approval_check(old(self)@, processor, claim_id, oracle) && final(self)@ == old(
                self,
            )@,
            approval_check(old(self)@, processor, claim_id, oracle).is_ok() && !reserved ==> r
                == Err::<(), ContractError>(ContractError::RiskPoolCallFailed) && final(self)@
                == old(self)@,
            approval_check(old(self)@, processor, claim_id, oracle).is_ok() && reserved ==> {
                let gated = if old(self)@.oracle_required() {
                    ClaimsState {
                        claim_oracle: old(self)@.claim_oracle.insert(
                            claim_id,
                            oracle.unwrap().data_id,
                        ),
                        ..old(self)@
                    }
                } else {
                    old(self)@
                };
                &&& r.is_ok()
                &&& final(self)@ == gated.with_status(claim_id, ClaimStatus::Approved)
            },
    {
        match self.approval_request(processor, claim_id, oracle) {
            Err(e) => {
                return Err(e);
            },
            Ok(_) => {},
        }
        if !reserved {
            return Err(ContractError::RiskPoolCallFailed);
        }
        match self.oracle_config {
            Some(cfg) => {
                if cfg.require_oracle_validation {
                    match oracle {
                        Some(o) => {
                            self.claim_oracle.insert(claim_id, o.data_id);
                        },
                        None => {},
                    }
                }
            },
            None => {},
        }
        self.transition(processor, claim_id, ClaimStatus::Approved)
    }

    /// The payout that settling `claim_id` needs from the risk pool, once
    /// every settlement check passes.
    pub fn settlement_request(&self, processor: u64, claim_id: u64) -> (r: Result<
        PoolRequest,
        ContractError,
    >)
        requires
            self@.wf(),
        ensures
            settlement_check(self@, processor, claim_id).is_err() ==> r == Err::<
                PoolRequest,
                ContractError,
            >(error_of(settlement_check(self@, processor, claim_id))),
            settlement_check(self@, processor, claim_id).is_ok() ==> r == Ok::<
                PoolRequest,
                ContractError,
            >(
                PoolRequest {
                    risk_pool: self@.config.unwrap().1,
                    claim_id,
                    amount: self@.claims[claim_id].amount,
                    recipient: self@.claims[claim_id].claimant,
                },
            ),
    {
        self.require_claim_processing(processor)?;
        let claim = match self.claims.get(&claim_id) {
            Some(c) => *c,
            None => {
                return Err(ContractError::NotFound);
            },
        };
        if !is_valid_state_transition(claim.status, ClaimStatus::Settled) {
            return Err(ContractError::InvalidState);
        }
        match self.config {
            None => Err(ContractError::NotInitialized),
            Some((_, risk_pool)) => Ok(
                PoolRequest {
                    risk_pool,
                    claim_id,
                    amount: claim.amount,
                    recipient: claim.claimant,
                },
            ),
        }
    }

    /// Approved to Settled (claim processor only). `paid_out` is whether
    /// the risk pool's payout of the reserved funds in `settlement_request`
    /// succeeded; when it did not, the claim stays Approved and nothing
    /// changes.
    pub fn settle_claim(&mut self, processor: u64, claim_id: u64, paid_out: bool) -> (r: Result<
        (),
        ContractError,
    >)
        requires
            old(self)@.wf(),
        ensures
            final(self)@.wf(),
            settlement_check(old(self)@, processor, claim_id).is_err() ==> r == settlement_check(
                old(self)@,
                processor,
                claim_id,
            ) && final(self)@ == old(self)@,
            settlement_check(old(self)@, processor, claim_id).is_ok() && !paid_out ==> r == Err::<
                (),
                ContractError,
            >(ContractError::RiskPoolCallFailed) && final(self)@ == old(self)@
                && final(self)@.claims[claim_id].status == ClaimStatus::Approved,
            settlement_check(old(self)@, processor, claim_id).is_ok() && paid_out ==> r.is_ok()
                && final(self)@ == old(self)@.with_status(claim_id, ClaimStatus::Settled),
    {
        match self.settlement_request(processor, claim_id) {
            Err(e) => {
                return Err(e);
            },
            Ok(_) => {},
        }
        if !paid_out {
            return Err(ContractError::RiskPoolCallFailed);
        }
        self.transition(processor, claim_id, ClaimStatus::Settled)
    }

    /// The claim with id `claim_id`.
    pub fn get_claim(&self, claim_id: u64) -> (r: Result<ClaimView, ContractError>)
        ensures
            self@.claims.contains_key(claim_id) ==> r == Ok::<ClaimView, ContractError>(
                view_of(claim_id, self@.claims[claim_id]),
            ),
            !self@.claims.contains_key(claim_id) ==> r == Err::<ClaimView, ContractError>(
                ContractError::NotFound,
            ),
    {
        match self.claims.get(&claim_id) {
            Some(c) => Ok(to_view(claim_id, *c)),
            None => Err(ContractError::NotFound),
        }
    }

    /// The oracle data id that the approval of `claim_id` relied on.
    pub fn get_claim_oracle_data(&self, claim_id: u64) -> (r: Result<u64, ContractError>)
        ensures
            self@.claim_oracle.contains_key(claim_id) ==> r == Ok::<u64, ContractError>(
                self@.claim_oracle[claim_id],
            ),
            !self@.claim_oracle.contains_key(claim_id) ==> r == Err::<u64, ContractError>(
                ContractError::NotFound,
            ),
    {
        match self.claim_oracle.get(&claim_id) {
            Some(d) => Ok(*d),
            None => Err(ContractError::NotFound),
        }
    }

    /// Views of the listed claims on the page that starts at `start` and
    /// holds at most `limit`.
    fn page_views(&self, ids: &Vec<u64>, start: u32, limit: u32) -> (r: Vec<ClaimView>)
        requires
            self@.wf(),
            forall|i: int| 0 <= i < ids@.len() ==> self@.claims.contains_key(#[trigger] ids@[i]),
        ensures
            r@ == self@.views(page_of(ids@, start as int, limit as int)),
    {
        let total: usize = ids.len();
        let mut out: Vec<ClaimView> = Vec::new();
        if start as usize >= total {
            assert(out@ =~= self@.views(page_of(ids@, start as int, limit as int)));
            return out;
        }
        let stop: u64 = (start as u64) + (limit as u64);
        let end: usize = if stop >= total as u64 {
            total
        } else {
            stop as usize
        };
        let ghost page = page_of(ids@, start as int, limit as int);
        assert(page =~= ids@.subrange(start as int, end as int));
        let mut i: usize = start as usize;
        while i < end
            invariant
                start <= i <= end <= total,
                total == ids@.len(),
                page == ids@.subrange(start as int, end as int),
                forall|k: int| 0 <= k < ids@.len() ==> self@.claims.contains_key(#[trigger] ids@[k]),
                out@ == self@.views(ids@.subrange(start as int, i as int)),
            decreases end - i,
        {
            let id = ids[i];
            assert(self@.claims.contains_key(ids@[i as int]));
            match self.claims.get(&id) {
                Some(c) => {
                    out.push(to_view(id, *c));
                },
                None => {},
            }
            assert(ids@.subrange(start as int, i + 1) =~= ids@.subrange(start as int, i as int).push(id));
            assert(out@ =~= self@.views(ids@.subrange(start as int, i + 1)));
            i = i + 1;
        }
        out
    }

    /// A page of all claims in submission order; `total_count` is the
    /// number of claims. A `limit` of 0 or above `MAX_PAGINATION_LIMIT`
    /// means `MAX_PAGINATION_LIMIT`.
    pub fn get_claims_paginated(&self, start_index: u32, limit: u32) -> (r: PaginatedClaimsResult)
        requires
            self@.wf(),
        ensures
            r.total_count == self@.claim_list.len(),
            r.claims@ == self@.views(
                page_of(self@.claim_list, start_index as int, effective_limit_of(limit) as int),
            ),
    {
        let lim = effective_limit(limit);
        let claims = self.page_views(&self.claim_list, start_index, lim);
        PaginatedClaimsResult { claims, total_count: self.claim_list.len() as u32 }
    }

    /// The ids of the claims whose status is `status`, in submission order.
    fn ids_with_status(&self, status: ClaimStatus) -> (r: Vec<u64>)
        requires
            self@.wf(),
        ensures
            r@ == self@.ids_with_status(status),
            r@.len() <= self@.claim_list.len(),
            forall|i: int| 0 <= i < r@.len() ==> self@.claims.contains_key(#[trigger] r@[i]),
    {
        let ghost pred = |id: u64| self@.claims[id].status == status;
        let mut out: Vec<u64> = Vec::new();
        let mut i: usize = 0;
        while i < self.claim_list.len()
            invariant
                self@.wf(),
                i <= self@.claim_list.len(),
                pred == (|id: u64| self@.claims[id].status == status),
                out@ == self@.claim_list.subrange(0, i as int).filter(pred),
                out@.len() <= i,
                forall|k: int| 0 <= k < out@.len() ==> self@.claims.contains_key(#[trigger] out@[k]),
            decreases self@.claim_list.len() - i,
        {
            let id = self.claim_list[i];
            proof {
                let pre = self@.claim_list.subrange(0, i as int);
                assert(self@.claim_list.subrange(0, i + 1) =~= pre.push(id));
                pre.lemma_filter_push(id, pred);
                assert(self@.claim_list[i as int] == i + 1);
            }
            match self.claims.get(&id) {
                Some(c) => {
                    if c.status == status {
                        out.push(id);
                    }
                },
                None => {},
            }
            i = i + 1;
        }
        assert(self@.claim_list.subrange(0, i as int) =~= self@.claim_list);
        out
    }

    /// A page of the claims whose status is `status`, in submission order;
    /// `total_count` is the number of such claims. A `limit` of 0 or above
    /// `MAX_PAGINATION_LIMIT` means `MAX_PAGINATION_LIMIT`.
    pub fn get_claims_by_status(&self, status: ClaimStatus, start_index: u32, limit: u32) -> (r:
        PaginatedClaimsResult)
        requires
            self@.wf(),
        ensures
            r.total_count == self@.ids_with_status(status).len(),
            r.claims@ == self@.views(
                page_of(
                    self@.ids_with_status(status),
                    start_index as int,
                    effective_limit_of(limit) as int,
                ),
            ),
    {
        let lim = effective_limit(limit);
        let ids = self.ids_with_status(status);
        let claims = self.page_views(&ids, start_index, lim);
        PaginatedClaimsResult { claims, total_count: ids.len() as u32 }
    }

    /// Records the oracle data id relied on for `claim_id`, once the
    /// oracle reported `submission_count` submissions for it. Without a
    /// configuration the answer is `NotFound`; when validation is not
    /// required it passes and records nothing.
    pub fn validate_claim_with_oracle(
        &mut self,
        claim_id: u64,
        oracle_data_id: u64,
        submission_count: u32,
    ) -> (r: Result<bool, ContractError>)
        requires
            old(self)@.wf(),
        ensures
            final(self)@.wf(),
            old(self)@.oracle_config.is_none() ==> r == Err::<bool, ContractError>(
                ContractError::NotFound,
            ) && final(self)@ == old(self)@,
            old(self)@.oracle_config.is_some() && !old(self)@.oracle_required() ==> r == Ok::<
                bool,
                ContractError,
            >(true) && final(self)@ == old(self)@,
            old(self)@.oracle_required() && submission_count < old(
                self,
            )@.oracle_config.unwrap().min_oracle_submissions ==> r == Err::<bool, ContractError>(
                ContractError::InsufficientOracleSubmissions,
            ) && final(self)@ == old(self)@,
            old(self)@.oracle_required() && submission_count >= old(
                self,
            )@.oracle_config.unwrap().min_oracle_submissions ==> r == Ok::<bool, ContractError>(
                true,
            ) && final(self)@ == (ClaimsState {
                claim_oracle: old(self)@.claim_oracle.insert(claim_id, oracle_data_id),
                ..old(self)@
            }),
    {
        let cfg = match self.oracle_config {
            Some(c) => c,
            None => {
                return Err(ContractError::NotFound);
            },
        };
        if !cfg.require_oracle_validation {
            return Ok(true);
        }
        if submission_count < cfg.min_oracle_submissions {
            return Err(ContractError::InsufficientOracleSubmissions);
        }
        self.claim_oracle.insert(claim_id, oracle_data_id);
        Ok(true)
    }

    /// How many claims were ever submitted.
    pub fn get_claim_count(&self) -> (r: u64)
        ensures
            r == self@.claim_counter,
    {
        self.claim_counter
    }
}

} // verus!
