use massa::hints::{_likely, cold, unlikely};

#[test]
fn hints_are_identities() {
    cold();
    assert!(_likely(true));
    assert!(!_likely(false));
    assert!(unlikely(true));
    assert!(!unlikely(false));
}
