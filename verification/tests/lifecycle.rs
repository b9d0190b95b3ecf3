use crawlcore::lifecycle::{Lifecycle, Phase};

#[test]
fn graceful_drain_scenario() {
    let mut lc = Lifecycle::new();
    assert!(matches!(lc.current_phase(), Phase::Starting));
    lc.begin_serving();

    // A request arrives and is admitted while serving.
    assert!(lc.try_accept());
    assert_eq!(lc.current_in_flight(), 1);

    // The termination signal arrives: draining begins.
    lc.receive_signal();
    assert!(matches!(lc.current_phase(), Phase::Draining));

    // No new inbound request is accepted after the signal.
    assert!(!lc.try_accept());
    assert_eq!(lc.current_in_flight(), 1);

    // The process may not exit while the admitted request is in flight.
    assert!(!lc.try_stop());

    // The in-flight request runs to completion and returns its result.
    lc.finish_request();
    assert_eq!(lc.current_in_flight(), 0);

    // Only now may the process exit.
    assert!(lc.try_stop());
    assert!(matches!(lc.current_phase(), Phase::Stopped));
}

#[test]
fn requests_are_not_accepted_before_serving() {
    let mut lc = Lifecycle::new();
    assert!(!lc.try_accept());
    assert_eq!(lc.current_in_flight(), 0);
}

#[test]
fn signal_outside_serving_changes_nothing() {
    let mut lc = Lifecycle::new();
    lc.receive_signal();
    assert!(matches!(lc.current_phase(), Phase::Starting));
}

#[test]
fn stop_is_refused_while_serving() {
    let mut lc = Lifecycle::new();
    lc.begin_serving();
    assert!(!lc.try_stop());
    assert!(matches!(lc.current_phase(), Phase::Serving));
}
