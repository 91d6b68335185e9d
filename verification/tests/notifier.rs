use process_supervisor::readiness::ReadyNotifier;
use process_supervisor::supervisor::LaunchEvent;
use process_supervisor::supervisor::Supervisor;

#[test]
fn ready_is_granted_exactly_once() {
    let mut n = ReadyNotifier::new();
    assert!(n.claim_emission());
    assert!(!n.claim_emission());
    assert!(!n.claim_emission());
}

#[test]
fn ready_is_granted_once_even_if_start_was_never_called() {
    let mut n = ReadyNotifier::new();
    let mut granted = 0;
    for _ in 0..5 {
        if n.claim_emission() {
            granted += 1;
        }
    }
    assert_eq!(granted, 1);
}

#[test]
fn ready_claims_are_independent_of_the_supervisor() {
    let mut s = Supervisor::new();
    let mut n = ReadyNotifier::new();
    s.record_launch(LaunchEvent::Launched(3)).unwrap();
    assert!(n.claim_emission());
    s.begin_stop();
    assert!(!n.claim_emission());
}
