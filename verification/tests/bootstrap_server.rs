use massa::addr::IpKey;
use massa::bootstrap_server::{
    before_accept, no_slots_message, on_wakeup, session_slots, too_early_message, Admission,
    BeforeAccept, BootstrapLimits, IpHistory, SessionSlots, StopSignal, Wakeup,
};

const SEC: u64 = 1_000_000_000;

fn limits(ip_list_max_size: usize, min_secs: u64) -> BootstrapLimits {
    BootstrapLimits { ip_list_max_size, per_ip_min_interval: min_secs * SEC }
}

#[test]
fn greedy_client_is_refused_and_not_recorded() {
    let mut h = IpHistory::new();
    let ip = IpKey::V4(0x7f000001);
    assert_eq!(h.greedy_client_check(ip, 10 * SEC, 5 * SEC, 10 * SEC), Ok(()));
    assert_eq!(h.last_attempt(ip), Some(10 * SEC));
    // 3 s later: too early; the error is the time since the last attempt at read time
    assert_eq!(h.greedy_client_check(ip, 13 * SEC, 5 * SEC, 14 * SEC), Err(4 * SEC));
    assert_eq!(h.last_attempt(ip), Some(10 * SEC));
    // exactly at the interval: still too early
    assert_eq!(h.greedy_client_check(ip, 15 * SEC, 5 * SEC, 15 * SEC), Err(5 * SEC));
    // past the interval: accepted, time recorded
    assert_eq!(h.greedy_client_check(ip, 16 * SEC, 5 * SEC, 16 * SEC), Ok(()));
    assert_eq!(h.last_attempt(ip), Some(16 * SEC));
}

#[test]
fn ip_families_are_distinct_keys() {
    let mut h = IpHistory::new();
    assert_eq!(h.greedy_client_check(IpKey::V4(1), SEC, 5 * SEC, SEC), Ok(()));
    assert_eq!(h.greedy_client_check(IpKey::V6(1), SEC, 5 * SEC, SEC), Ok(()));
    assert_eq!(h.len(), 2);
}

#[test]
fn prune_drops_expired_then_clears() {
    let mut h = IpHistory::new();
    for i in 0..4u32 {
        let _ = h.greedy_client_check(IpKey::V4(i), (i as u64) * SEC, SEC, 0);
    }
    assert_eq!(h.len(), 4);
    // under the limit: nothing happens
    assert!(!h.prune(100 * SEC, SEC, 4));
    assert_eq!(h.len(), 4);
    // over the limit: entries older than 1 s at t=3 s go (keeps ips 2 and 3)
    assert!(!h.prune(3 * SEC, SEC, 3));
    assert_eq!(h.len(), 2);
    assert_eq!(h.last_attempt(IpKey::V4(0)), None);
    assert_eq!(h.last_attempt(IpKey::V4(3)), Some(3 * SEC));
    // still over the limit after dropping the expired ones: everything goes
    assert!(h.prune(3 * SEC, SEC, 1));
    assert_eq!(h.len(), 0);
}

#[test]
fn prune_covers_both_ip_families() {
    let mut h = IpHistory::new();
    let _ = h.greedy_client_check(IpKey::V4(7), 0, SEC, 0);
    let _ = h.greedy_client_check(IpKey::V6(7), 0, SEC, 0);
    let _ = h.greedy_client_check(IpKey::V4(8), 3 * SEC, SEC, 0);
    let _ = h.greedy_client_check(IpKey::V6(8), 3 * SEC, SEC, 0);
    assert_eq!(h.len(), 4);
    // the two entries from t=0 are expired at t=3 s, whatever their family
    assert!(!h.prune(3 * SEC, SEC, 2));
    assert_eq!(h.len(), 2);
    assert_eq!(h.last_attempt(IpKey::V4(7)), None);
    assert_eq!(h.last_attempt(IpKey::V6(7)), None);
    assert_eq!(h.last_attempt(IpKey::V4(8)), Some(3 * SEC));
    assert_eq!(h.last_attempt(IpKey::V6(8)), Some(3 * SEC));
}

#[test]
fn connection_handling() {
    let mut h = IpHistory::new();
    let ip = IpKey::V6(42);
    let l = limits(10, 5);
    let mut slots = SessionSlots::new(1);
    match h.handle_connection(ip, Err("blocked".to_string()), &mut slots, l, SEC, SEC) {
        Admission::NotAllowed(m) => assert_eq!(m, "blocked"),
        other => panic!("unexpected {:?}", other),
    }
    assert_eq!(h.len(), 0);
    assert_eq!(slots.active(), 0);
    assert!(matches!(h.handle_connection(ip, Ok(()), &mut slots, l, SEC, SEC), Admission::Accepted));
    assert_eq!(slots.active(), 1);
    match h.handle_connection(IpKey::V4(3), Ok(()), &mut slots, l, SEC, SEC) {
        Admission::NoSlots(m) => assert_eq!(
            m,
            "Bootstrap failed because the bootstrap server currently has no slots available."
        ),
        other => panic!("unexpected {:?}", other),
    }
    assert_eq!(h.len(), 1);
    assert_eq!(slots.active(), 1);
    slots.release();
    match h.handle_connection(ip, Ok(()), &mut slots, l, 2 * SEC, 2 * SEC) {
        Admission::TooEarly(m) => assert_eq!(
            m,
            "Your last bootstrap on this server was 1s ago and you have to wait 4s before retrying."
        ),
        other => panic!("unexpected {:?}", other),
    }
    assert_eq!(slots.active(), 0);
}

#[test]
fn session_slots_stay_within_max() {
    let mut slots = SessionSlots::new(2);
    assert_eq!(slots.max(), 2);
    assert!(slots.try_acquire());
    assert!(slots.try_acquire());
    assert!(!slots.try_acquire());
    assert_eq!(slots.active(), 2);
    slots.release();
    slots.release();
    slots.release();
    assert_eq!(slots.active(), 0);
}

#[test]
fn history_stays_bounded() {
    let mut h = IpHistory::new();
    let l = limits(2, 1);
    let mut slots = SessionSlots::new(100);
    for i in 0..10u32 {
        let _ = h.handle_connection(IpKey::V4(i), Ok(()), &mut slots, l, 0, 0);
        assert!(h.len() <= 3);
    }
}

#[test]
fn messages() {
    assert_eq!(
        too_early_message(1_500_000_000, 90 * SEC),
        "Your last bootstrap on this server was 1s 500ms ago and you have to wait 1m 28s 500ms before retrying."
    );
    assert_eq!(
        too_early_message(10 * SEC, 5 * SEC),
        "Your last bootstrap on this server was 10s ago and you have to wait 0s before retrying."
    );
    assert_eq!(
        no_slots_message(),
        "Bootstrap failed because the bootstrap server currently has no slots available."
    );
}

#[test]
fn stopper_checks() {
    assert_eq!(on_wakeup(0, StopSignal::Received), Wakeup::Stop);
    assert_eq!(on_wakeup(0, StopSignal::Empty), Wakeup::Idle);
    assert_eq!(on_wakeup(0, StopSignal::Disconnected), Wakeup::Idle);
    assert_eq!(on_wakeup(1, StopSignal::Received), Wakeup::Stop);
    assert_eq!(on_wakeup(1, StopSignal::Empty), Wakeup::CheckAgain);
    assert_eq!(on_wakeup(1, StopSignal::Disconnected), Wakeup::CheckAgain);
    assert!(matches!(before_accept(StopSignal::Received), BeforeAccept::Stop));
    assert!(matches!(before_accept(StopSignal::Empty), BeforeAccept::Accept));
    match before_accept(StopSignal::Disconnected) {
        BeforeAccept::Fail(m) => assert_eq!(m, "Unexpected stop-channel disconnection"),
        _ => panic!("expected a failure"),
    }
    assert_eq!(session_slots(7), 7);
}
