use stellar_insured::events::{EventCategory, EventMonitor, EventSeverity, EventVerificationChecklist};

#[test]
fn test_event_verification_checklist() {}

#[test]
fn verification_summary_counts() {
    let r = EventVerificationChecklist::verify_all_contracts(vec![true, true, false, true, true]);
    assert!(!r.all_passed);
    assert_eq!(r.total_contracts, 5);
    assert_eq!(r.passed_count, 4);
    assert_eq!(r.failed_count, 1);
    assert_eq!(r.individual_results.len(), 5);
    let all = EventVerificationChecklist::verify_all_contracts(vec![true; 5]);
    assert!(all.all_passed);
    assert_eq!(all.failed_count, 0);
}

#[test]
fn monitoring_summary() {
    assert!(EventMonitor::is_compliant(0, 0));
    assert!(!EventMonitor::is_compliant(1, 0));
    assert_eq!(EventMonitor::compliance_summary(&vec![true, false, true]), (2, false));
    assert_eq!(EventMonitor::compliance_summary(&vec![]), (0, true));
}

#[test]
fn test_event_categories() {
    let policy_category = EventCategory::Policy;
    let claim_category = EventCategory::Claim;
    let risk_pool_category = EventCategory::RiskPool;
    assert_eq!(policy_category, EventCategory::Policy);
    assert_eq!(claim_category, EventCategory::Claim);
    assert_eq!(risk_pool_category, EventCategory::RiskPool);
    assert_ne!(policy_category, claim_category);
    assert_ne!(claim_category, risk_pool_category);
}

#[test]
fn test_event_severity() {
    let info_severity = EventSeverity::Info;
    let warning_severity = EventSeverity::Warning;
    let error_severity = EventSeverity::Error;
    let critical_severity = EventSeverity::Critical;
    assert_eq!(info_severity, EventSeverity::Info);
    assert_eq!(warning_severity, EventSeverity::Warning);
    assert_eq!(error_severity, EventSeverity::Error);
    assert_eq!(critical_severity, EventSeverity::Critical);
    assert_ne!(info_severity, warning_severity);
    assert_ne!(warning_severity, error_severity);
    assert_ne!(error_severity, critical_severity);
}
