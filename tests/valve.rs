use domo_wot_bridge::command::CommandType;
use domo_wot_bridge::valve::{ValveArbiter, MAX_ATTEMPTS};

fn s(x: &str) -> String {
    x.to_string()
}

#[test]
fn best_relay_is_strongest() {
    let mut a = ValveArbiter::new();
    assert_eq!(a.best_relay_for(&s("V1")), None);
    a.record_rssi(&s("V1"), &s("R1"), -70);
    a.record_rssi(&s("V1"), &s("R2"), -50);
    a.record_rssi(&s("V1"), &s("R3"), -60);
    a.record_rssi(&s("V2"), &s("R1"), -10);
    assert_eq!(a.best_relay_for(&s("V1")), Some(s("R2")));
    assert_eq!(a.best_relay_for(&s("V2")), Some(s("R1")));
    assert_eq!(a.best_relay_for(&s("V3")), None);
}

#[test]
fn best_relay_tie_goes_to_first_recorded() {
    let mut a = ValveArbiter::new();
    a.record_rssi(&s("V1"), &s("R2"), -40);
    a.record_rssi(&s("V1"), &s("R1"), -40);
    assert_eq!(a.best_relay_for(&s("V1")), Some(s("R2")));
    // A newer sample of the first relay keeps its place.
    a.record_rssi(&s("V1"), &s("R2"), -40);
    assert_eq!(a.best_relay_for(&s("V1")), Some(s("R2")));
}

#[test]
fn latest_sample_wins() {
    let mut a = ValveArbiter::new();
    a.record_rssi(&s("V1"), &s("R1"), -30);
    a.record_rssi(&s("V1"), &s("R2"), -50);
    a.record_rssi(&s("V1"), &s("R1"), -90);
    assert_eq!(a.best_relay_for(&s("V1")), Some(s("R2")));
}

#[test]
fn submit_without_relays_does_nothing() {
    let mut a = ValveArbiter::new();
    a.record_rssi(&s("V1"), &s("R1"), -30);
    assert!(a.submit(&s("V1"), Some(true), &s("{}"), false).is_none());
    assert_eq!(a.pending_count(), 0);
}

#[test]
fn submit_dispatches_when_relay_known() {
    let mut a = ValveArbiter::new();
    a.record_rssi(&s("V1"), &s("R1"), -30);
    let c = a.submit(&s("V1"), Some(true), &s("{\"desired_state\":true}"), true).unwrap();
    assert_eq!(c.command_type, CommandType::Valve);
    assert_eq!(c.mac_address, "V1");
    assert_eq!(c.actuator_mac_address, "R1");
    assert_eq!(c.payload, "{\"desired_state\":true}");
    assert_eq!(a.attempts_of(&s("V1")), Some(1));
    assert!(a.submit(&s("V2"), Some(true), &s("{}"), true).is_none());
    assert_eq!(a.attempts_of(&s("V2")), Some(0));
    assert_eq!(a.pending_count(), 2);
}

#[test]
fn converged_entry_is_removed() {
    let mut a = ValveArbiter::new();
    a.record_rssi(&s("V1"), &s("R1"), -30);
    a.submit(&s("V1"), Some(true), &s("{}"), true);
    let sent = a.reconcile(&vec![(s("V1"), false)], true);
    assert_eq!(sent.len(), 1);
    assert_eq!(a.attempts_of(&s("V1")), Some(2));
    let sent = a.reconcile(&vec![(s("V0"), true), (s("V1"), true)], true);
    assert!(sent.is_empty());
    assert_eq!(a.pending_count(), 0);
}

#[test]
fn entry_without_relay_waits() {
    let mut a = ValveArbiter::new();
    a.submit(&s("V1"), Some(true), &s("{}"), true);
    for _ in 0..150 {
        assert!(a.reconcile(&vec![], true).is_empty());
    }
    assert_eq!(a.attempts_of(&s("V1")), Some(0));
}

#[test]
fn entry_abandoned_after_hundredth_attempt() {
    let mut a = ValveArbiter::new();
    a.record_rssi(&s("V1"), &s("R1"), -30);
    a.submit(&s("V1"), Some(true), &s("{}"), true);
    let mut sends = 1u32;
    while a.attempts_of(&s("V1")).is_some() {
        let sent = a.reconcile(&vec![(s("V1"), false)], true);
        sends += sent.len() as u32;
        assert!(sends <= MAX_ATTEMPTS);
    }
    assert_eq!(sends, 100);
    assert_eq!(MAX_ATTEMPTS, 100);
}

#[test]
fn entry_at_ninety_nine_is_kept() {
    let mut a = ValveArbiter::new();
    a.record_rssi(&s("V1"), &s("R1"), -30);
    a.submit(&s("V1"), Some(true), &s("{}"), true);
    for _ in 0..98 {
        a.reconcile(&vec![], true);
    }
    assert_eq!(a.attempts_of(&s("V1")), Some(99));
    assert_eq!(a.reconcile(&vec![], true).len(), 1);
    assert_eq!(a.attempts_of(&s("V1")), Some(100));
    assert!(a.reconcile(&vec![], true).is_empty());
    assert_eq!(a.attempts_of(&s("V1")), None);
}

#[test]
fn reconcile_without_relays_does_nothing() {
    let mut a = ValveArbiter::new();
    a.record_rssi(&s("V1"), &s("R1"), -30);
    a.submit(&s("V1"), Some(true), &s("{}"), true);
    assert!(a.reconcile(&vec![(s("V1"), true)], false).is_empty());
    assert_eq!(a.attempts_of(&s("V1")), Some(1));
}

#[test]
fn command_without_desired_state_never_converges() {
    let mut a = ValveArbiter::new();
    a.record_rssi(&s("V1"), &s("R1"), -30);
    a.submit(&s("V1"), None, &s("{}"), true);
    a.reconcile(&vec![(s("V1"), true), (s("V1"), false)], true);
    assert_eq!(a.attempts_of(&s("V1")), Some(2));
}
