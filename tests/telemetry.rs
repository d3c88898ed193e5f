use zero2prod::telemetry::InitOnce;

#[test]
fn only_the_first_claim_installs() {
    let mut guard = InitOnce::new();
    assert!(!guard.is_installed());
    assert!(guard.claim());
    assert!(guard.is_installed());
    assert!(!guard.claim());
    assert!(!guard.claim());
}

