use theatre::budget::{estimate_tokens, resolve_budget, BudgetEnforcer};

#[test]
fn estimate_tokens_from_bytes() {
    assert_eq!(estimate_tokens(400), 100);
    assert_eq!(estimate_tokens(0), 0);
    assert_eq!(estimate_tokens(4), 1);
    assert_eq!(estimate_tokens(3), 0); // truncating division
}

#[test]
fn resolve_budget_defaults() {
    assert_eq!(resolve_budget(None, 1500, 5000), 1500);
}

#[test]
fn resolve_budget_explicit() {
    assert_eq!(resolve_budget(Some(3000), 1500, 5000), 3000);
}

#[test]
fn resolve_budget_clamped() {
    assert_eq!(resolve_budget(Some(8000), 1500, 5000), 5000);
}

#[test]
fn enforcer_tracks_budget() {
    let mut e = BudgetEnforcer::new(100, 5000);
    // 200 bytes = 50 tokens, fits in 100-token budget
    assert!(e.try_add(200));
    assert_eq!(e.report().used, 50);
}

#[test]
fn enforcer_rejects_when_exceeded() {
    let mut e = BudgetEnforcer::new(10, 5000);
    // 40 bytes = 10 tokens, exactly at limit
    assert!(e.try_add(40));
    // Any more should be rejected
    assert!(!e.try_add(4));
}

#[test]
fn enforcer_report_keeps_limit_and_cap() {
    let mut e = BudgetEnforcer::new(10, 5000);
    assert!(e.try_add(8));
    assert!(!e.try_add(100));
    let r = e.report();
    assert_eq!(r.used, 2);
    assert_eq!(r.limit, 10);
    assert_eq!(r.hard_cap, 5000);
}
