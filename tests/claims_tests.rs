use stellar_insured::claims::{
    effective_limit, is_valid_state_transition, ClaimStatus, ClaimView, ClaimsContract,
    OracleReading, PaginatedClaimsResult, PolicyInfo, Role, MAX_PAGINATION_LIMIT,
};
use stellar_insured::errors::ContractError;

const ADMIN: u64 = 1;
const POLICY_CONTRACT: u64 = 2;
const RISK_POOL: u64 = 3;
const NOW: u64 = 1704067200;

fn setup() -> ClaimsContract {
    let mut c = ClaimsContract::new();
    c.initialize(ADMIN, POLICY_CONTRACT, RISK_POOL).unwrap();
    c
}

fn policy(holder: u64, coverage: i128) -> PolicyInfo {
    PolicyInfo { holder, coverage_amount: coverage }
}

/// Files claims 1..=n against policies 100.., with amounts 1000, 2000, ...
fn with_claims(n: u64) -> ClaimsContract {
    let mut c = setup();
    for i in 0..n {
        let amount = 1000 * (i as i128 + 1);
        c.submit_claim(10, 100 + i, amount, policy(10, 1_000_000), NOW + i).unwrap();
    }
    c
}

#[test]
fn test_sequential_claim_id_generation() {
    let mut c = setup();
    assert_eq!(c.get_claim_count(), 0);
    let first = c.submit_claim(10, 100, 500, policy(10, 1000), NOW).unwrap();
    assert_eq!(first, 1);
    assert_eq!(c.get_claim_count(), 1);
    let second = c.submit_claim(11, 101, 500, policy(11, 1000), NOW).unwrap();
    assert_eq!(second, 2);
    assert_eq!(c.get_claim_count(), 2);
}

#[test]
fn test_claim_list_storage_pattern() {
    let empty = setup();
    assert_eq!(empty.get_claims_paginated(0, 0).claims.len(), 0);
    let c = with_claims(3);
    let page = c.get_claims_paginated(0, 0);
    assert_eq!(page.claims.len(), 3);
    assert_eq!(page.claims[0].id, 1);
    assert_eq!(page.claims[1].id, 2);
    assert_eq!(page.claims[2].id, 3);
}

#[test]
fn test_claim_view_construction() {
    let view = ClaimView {
        id: 1,
        policy_id: 100,
        claimant: 7,
        amount: 5000,
        status: ClaimStatus::Submitted,
        submitted_at: 1704067200,
    };
    assert_eq!(view.id, 1);
    assert_eq!(view.policy_id, 100);
    assert_eq!(view.amount, 5000);
    assert_eq!(view.status, ClaimStatus::Submitted);
}

#[test]
fn test_paginated_claims_result() {
    let claims = vec![
        ClaimView {
            id: 1,
            policy_id: 100,
            claimant: 7,
            amount: 1000,
            status: ClaimStatus::Submitted,
            submitted_at: 1704067200,
        },
        ClaimView {
            id: 2,
            policy_id: 101,
            claimant: 7,
            amount: 2000,
            status: ClaimStatus::Approved,
            submitted_at: 1704067201,
        },
    ];
    let result = PaginatedClaimsResult { claims, total_count: 5 };
    assert_eq!(result.claims.len(), 2);
    assert_eq!(result.total_count, 5);
}

#[test]
fn test_pagination_limit_capping() {
    assert_eq!(effective_limit(100), 50);
    assert_eq!(effective_limit(0), 50);
    assert_eq!(effective_limit(25), 25);
}

#[test]
fn test_pagination_bounds_handling() {
    let c = with_claims(10);
    assert_eq!(c.get_claims_paginated(0, 3).claims.len(), 3);
    assert_eq!(c.get_claims_paginated(8, 5).claims.len(), 2);
    let out = c.get_claims_paginated(15, 5);
    assert!(out.claims.is_empty());
    assert_eq!(out.total_count, 10);
}

#[test]
fn test_claim_status_equality() {
    assert_eq!(ClaimStatus::Submitted, ClaimStatus::Submitted);
    assert_ne!(ClaimStatus::Submitted, ClaimStatus::Approved);
    assert_ne!(ClaimStatus::Approved, ClaimStatus::Rejected);
    assert_eq!(ClaimStatus::Settled, ClaimStatus::Settled);
}

/// Claims 1, 2 stay Submitted, 3 Approved, 4 Rejected, 5 Settled.
fn mixed_statuses() -> ClaimsContract {
    let mut c = with_claims(5);
    c.start_review(ADMIN, 3).unwrap();
    c.approve_claim(ADMIN, 3, None, true).unwrap();
    c.start_review(ADMIN, 4).unwrap();
    c.reject_claim(ADMIN, 4).unwrap();
    c.start_review(ADMIN, 5).unwrap();
    c.approve_claim(ADMIN, 5, None, true).unwrap();
    c.settle_claim(ADMIN, 5, true).unwrap();
    c
}

#[test]
fn test_filter_claims_by_status_logic() {
    let mut c = with_claims(5);
    c.start_review(ADMIN, 3).unwrap();
    c.approve_claim(ADMIN, 3, None, true).unwrap();
    c.start_review(ADMIN, 5).unwrap();
    c.reject_claim(ADMIN, 5).unwrap();
    let submitted = c.get_claims_by_status(ClaimStatus::Submitted, 0, 0);
    assert_eq!(submitted.total_count, 3);
    assert_eq!(submitted.claims[0].id, 1);
    assert_eq!(submitted.claims[1].id, 2);
    assert_eq!(submitted.claims[2].id, 4);
}

#[test]
fn test_e2e_view_functions_simulation() {
    let c = mixed_statuses();
    let submitted = c.get_claims_by_status(ClaimStatus::Submitted, 0, 0);
    assert_eq!(submitted.claims.len(), 2, "Expected 2 Submitted claims");
    let approved = c.get_claims_by_status(ClaimStatus::Approved, 0, 0);
    assert_eq!(approved.claims.len(), 1, "Expected 1 Approved claim");
    let page1 = c.get_claims_paginated(0, 2);
    assert_eq!(page1.claims.len(), 2, "Page 1 should have 2 claims");
    assert_eq!(page1.claims[0].id, 1);
    assert_eq!(page1.claims[1].id, 2);
    assert_eq!(c.get_claim_count(), 5, "Total claims should be 5");
    assert_eq!(page1.total_count, 5);
}

#[test]
fn claim_views_carry_the_stored_fields() {
    let c = mixed_statuses();
    let v = c.get_claim(5).unwrap();
    assert_eq!(v.id, 5);
    assert_eq!(v.policy_id, 104);
    assert_eq!(v.claimant, 10);
    assert_eq!(v.amount, 5000);
    assert_eq!(v.status, ClaimStatus::Settled);
    assert_eq!(v.submitted_at, NOW + 4);
    assert_eq!(c.get_claim(6), Err(ContractError::NotFound));
}

#[test]
fn transition_table_is_exact() {
    let all = [
        ClaimStatus::Submitted,
        ClaimStatus::UnderReview,
        ClaimStatus::Approved,
        ClaimStatus::Rejected,
        ClaimStatus::Settled,
    ];
    let allowed = [
        (ClaimStatus::Submitted, ClaimStatus::UnderReview),
        (ClaimStatus::UnderReview, ClaimStatus::Approved),
        (ClaimStatus::UnderReview, ClaimStatus::Rejected),
        (ClaimStatus::Approved, ClaimStatus::Settled),
    ];
    for a in all {
        for b in all {
            assert_eq!(is_valid_state_transition(a, b), allowed.contains(&(a, b)));
        }
    }
}

#[test]
fn second_claim_on_a_policy_is_rejected_whoever_files_it() {
    let mut c = setup();
    c.submit_claim(10, 100, 500, policy(10, 1000), NOW).unwrap();
    assert_eq!(
        c.submit_claim(10, 100, 400, policy(10, 1000), NOW),
        Err(ContractError::AlreadyExists)
    );
    assert_eq!(
        c.submit_claim(11, 100, 400, policy(10, 1000), NOW),
        Err(ContractError::AlreadyExists)
    );
    assert_eq!(c.get_claim_count(), 1);
}

#[test]
fn skipped_or_backward_transitions_fail_and_change_nothing() {
    let mut c = with_claims(1);
    let before = c.get_claim(1).unwrap();
    assert_eq!(c.approve_claim(ADMIN, 1, None, true), Err(ContractError::InvalidState));
    assert_eq!(c.settle_claim(ADMIN, 1, true), Err(ContractError::InvalidState));
    assert_eq!(c.reject_claim(ADMIN, 1), Err(ContractError::InvalidState));
    assert_eq!(c.get_claim(1).unwrap(), before);

    let mut s = mixed_statuses();
    let settled = s.get_claim(5).unwrap();
    assert_eq!(s.start_review(ADMIN, 5), Err(ContractError::InvalidState));
    assert_eq!(s.approve_claim(ADMIN, 5, None, true), Err(ContractError::InvalidState));
    assert_eq!(s.get_claim(5).unwrap(), settled);
    let rejected = s.get_claim(4).unwrap();
    assert_eq!(s.approve_claim(ADMIN, 4, None, true), Err(ContractError::InvalidState));
    assert_eq!(s.get_claim(4).unwrap(), rejected);
}

#[test]
fn amount_is_bounded_by_coverage() {
    let mut c = setup();
    assert_eq!(
        c.submit_claim(10, 100, 1001, policy(10, 1000), NOW),
        Err(ContractError::InvalidInput)
    );
    assert_eq!(c.submit_claim(10, 100, 0, policy(10, 1000), NOW), Err(ContractError::InvalidInput));
    assert_eq!(c.submit_claim(10, 100, 1000, policy(10, 1000), NOW), Ok(1));
}

#[test]
fn failed_payout_leaves_claim_approved() {
    let mut c = with_claims(1);
    c.start_review(ADMIN, 1).unwrap();
    c.approve_claim(ADMIN, 1, None, true).unwrap();
    assert_eq!(c.settle_claim(ADMIN, 1, false), Err(ContractError::RiskPoolCallFailed));
    assert_eq!(c.get_claim(1).unwrap().status, ClaimStatus::Approved);
    assert_eq!(c.settle_claim(ADMIN, 1, true), Ok(()));
    assert_eq!(c.get_claim(1).unwrap().status, ClaimStatus::Settled);
}

#[test]
fn failed_reservation_leaves_claim_under_review() {
    let mut c = with_claims(1);
    c.start_review(ADMIN, 1).unwrap();
    assert_eq!(c.approve_claim(ADMIN, 1, None, false), Err(ContractError::RiskPoolCallFailed));
    assert_eq!(c.get_claim(1).unwrap().status, ClaimStatus::UnderReview);
}

#[test]
fn page_past_the_end_is_empty_and_zero_limit_is_the_cap() {
    let c = with_claims(60);
    let page = c.get_claims_paginated(60, 10);
    assert!(page.claims.is_empty());
    assert_eq!(page.total_count, 60);
    let full = c.get_claims_paginated(0, 0);
    assert_eq!(full.claims.len(), MAX_PAGINATION_LIMIT as usize);
    assert_eq!(c.get_claims_paginated(55, 0).claims.len(), 5);
    assert_eq!(c.get_claims_paginated(0, 500).claims.len(), 50);
}

#[test]
fn requests_name_the_pool_call() {
    let mut c = with_claims(1);
    c.start_review(ADMIN, 1).unwrap();
    let req = c.approval_request(ADMIN, 1, None).unwrap();
    assert_eq!(req.risk_pool, RISK_POOL);
    assert_eq!(req.claim_id, 1);
    assert_eq!(req.amount, 1000);
    assert_eq!(req.recipient, 10);
    assert_eq!(c.settlement_request(ADMIN, 1), Err(ContractError::InvalidState));
}

#[test]
fn oracle_gating_of_approval() {
    let mut c = with_claims(1);
    c.set_oracle_config(ADMIN, 9, true, 3).unwrap();
    c.start_review(ADMIN, 1).unwrap();
    assert_eq!(c.approve_claim(ADMIN, 1, None, true), Err(ContractError::OracleValidationFailed));
    let few = OracleReading { data_id: 77, submission_count: 2 };
    assert_eq!(
        c.approve_claim(ADMIN, 1, Some(few), true),
        Err(ContractError::InsufficientOracleSubmissions)
    );
    assert_eq!(c.get_claim(1).unwrap().status, ClaimStatus::UnderReview);
    let enough = OracleReading { data_id: 77, submission_count: 3 };
    assert_eq!(c.approve_claim(ADMIN, 1, Some(enough), true), Ok(()));
    assert_eq!(c.get_claim_oracle_data(1), Ok(77));
    assert_eq!(c.get_claim(1).unwrap().status, ClaimStatus::Approved);
}

#[test]
fn validate_claim_with_oracle_outcomes() {
    let mut c = with_claims(1);
    assert_eq!(c.validate_claim_with_oracle(1, 5, 10), Err(ContractError::NotFound));
    c.set_oracle_config(ADMIN, 9, false, 3).unwrap();
    assert_eq!(c.validate_claim_with_oracle(1, 5, 0), Ok(true));
    assert_eq!(c.get_claim_oracle_data(1), Err(ContractError::NotFound));
    c.set_oracle_config(ADMIN, 9, true, 3).unwrap();
    assert_eq!(
        c.validate_claim_with_oracle(1, 5, 2),
        Err(ContractError::InsufficientOracleSubmissions)
    );
    assert_eq!(c.validate_claim_with_oracle(1, 5, 3), Ok(true));
    assert_eq!(c.get_claim_oracle_data(1), Ok(5));
    assert_eq!(c.get_oracle_config().unwrap().min_oracle_submissions, 3);
}

#[test]
fn authorization_and_lifecycle_errors() {
    let mut fresh = ClaimsContract::new();
    assert_eq!(
        fresh.submit_claim(10, 100, 5, policy(10, 10), NOW),
        Err(ContractError::NotInitialized)
    );
    assert_eq!(fresh.start_review(ADMIN, 1), Err(ContractError::NotInitialized));
    let mut c = with_claims(1);
    assert_eq!(c.initialize(ADMIN, 2, 3), Err(ContractError::AlreadyInitialized));
    assert_eq!(c.start_review(42, 1), Err(ContractError::Unauthorized));
    assert_eq!(c.start_review(ADMIN, 9), Err(ContractError::NotFound));
    assert_eq!(c.submit_claim(11, 200, 5, policy(10, 10), NOW), Err(ContractError::Unauthorized));
    assert_eq!(c.pause(42), Err(ContractError::Unauthorized));
    c.pause(ADMIN).unwrap();
    assert_eq!(c.submit_claim(10, 200, 5, policy(10, 10), NOW), Err(ContractError::Paused));
    c.unpause(ADMIN).unwrap();
    assert_eq!(c.submit_claim(10, 200, 5, policy(10, 10), NOW), Ok(2));
    assert_eq!(c.get_oracle_config(), Err(ContractError::NotFound));
}

#[test]
fn processor_roles() {
    let mut c = with_claims(1);
    assert_eq!(c.get_user_role(ADMIN), Role::Admin);
    assert_eq!(c.get_user_role(5), Role::NoRole);
    c.grant_processor_role(ADMIN, 5).unwrap();
    assert_eq!(c.get_user_role(5), Role::ClaimProcessor);
    assert_eq!(c.start_review(5, 1), Ok(()));
    c.revoke_processor_role(ADMIN, 5).unwrap();
    assert_eq!(c.reject_claim(5, 1), Err(ContractError::Unauthorized));
    assert_eq!(c.grant_processor_role(5, 6), Err(ContractError::Unauthorized));
}

#[test]
fn error_codes_are_stable() {
    assert_eq!(ContractError::Unauthorized.code(), 1);
    assert_eq!(ContractError::InvalidState.code(), 7);
    assert_eq!(ContractError::NotInitialized.code(), 9);
    assert_eq!(ContractError::InsufficientOracleSubmissions.code(), 12);
    assert_eq!(ContractError::Overflow.code(), 107);
}
