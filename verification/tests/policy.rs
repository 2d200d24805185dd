use sync_service::policy::{evaluate_delete_age, should_propagate_local_delete, DeleteAgeEligibility};

#[test]
fn evaluate_delete_age_missing() {
    assert!(matches!(evaluate_delete_age(None, 3650), DeleteAgeEligibility::MissingCreatedAt));
}

#[test]
fn evaluate_delete_age_future() {
    assert!(matches!(evaluate_delete_age(Some(-1), 3650), DeleteAgeEligibility::FutureCreatedAt(-1)));
}

#[test]
fn evaluate_delete_age_unrealistic() {
    assert!(matches!(evaluate_delete_age(Some(3651), 3650), DeleteAgeEligibility::UnrealisticAge(3651)));
}

#[test]
fn evaluate_delete_age_boundary_values() {
    assert!(matches!(evaluate_delete_age(Some(0), 3650), DeleteAgeEligibility::Eligible(0)));
    assert!(matches!(evaluate_delete_age(Some(3650), 3650), DeleteAgeEligibility::Eligible(3650)));
}

#[test]
fn propagate_local_delete_threshold_behavior() {
    assert!(should_propagate_local_delete(0, 1));
    assert!(!should_propagate_local_delete(0, 0));
    assert!(!should_propagate_local_delete(365, 365));
    assert!(!should_propagate_local_delete(366, 365));
}

#[test]
fn evaluate_delete_age_extremes() {
    assert_eq!(evaluate_delete_age(Some(i64::MIN), 3650), DeleteAgeEligibility::FutureCreatedAt(i64::MIN));
    assert_eq!(evaluate_delete_age(Some(i64::MAX), 3650), DeleteAgeEligibility::UnrealisticAge(i64::MAX));
    assert_eq!(evaluate_delete_age(Some(0), 0), DeleteAgeEligibility::Eligible(0));
    assert_eq!(evaluate_delete_age(Some(0), -1), DeleteAgeEligibility::UnrealisticAge(0));
    assert_eq!(evaluate_delete_age(Some(17), 3650), DeleteAgeEligibility::Eligible(17));
}

#[test]
fn propagate_local_delete_negative_threshold() {
    assert!(!should_propagate_local_delete(-5, -5));
    assert!(should_propagate_local_delete(-6, -5));
    assert!(should_propagate_local_delete(i64::MIN, i64::MAX));
}
