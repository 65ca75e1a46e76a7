use init_supervisor::coordinator::{ExitCoordinator, ExitDecision};

#[test]
fn new_coordinator_waits_for_every_child() {
    let coordinator = ExitCoordinator::new(3);
    assert_eq!(coordinator.remaining(), 3);
    assert!(!coordinator.is_terminated());
    assert!(!coordinator.is_signaled());
}

#[test]
fn coordinator_without_children_is_terminated_at_once() {
    let coordinator = ExitCoordinator::new(0);
    assert_eq!(coordinator.remaining(), 0);
    assert!(coordinator.is_terminated());
}

#[test]
fn terminates_only_after_the_last_of_n_exits() {
    let mut coordinator = ExitCoordinator::new(4);
    let mut taken = 0;
    while taken < 3 {
        coordinator.on_exit(true);
        taken += 1;
        assert_eq!(coordinator.remaining(), 4 - taken);
        assert!(!coordinator.is_terminated());
    }
    assert_eq!(coordinator.on_exit(true), ExitDecision::Terminate);
    assert_eq!(coordinator.remaining(), 0);
    assert!(coordinator.is_terminated());
}

#[test]
fn unprompted_first_exit_cascades() {
    let mut coordinator = ExitCoordinator::new(3);
    assert_eq!(coordinator.on_exit(false), ExitDecision::Cascade);
    assert!(coordinator.is_signaled());
    assert_eq!(coordinator.remaining(), 2);
}

#[test]
fn cascade_fires_once_per_run() {
    let mut coordinator = ExitCoordinator::new(4);
    assert_eq!(coordinator.on_exit(false), ExitDecision::Cascade);
    assert_eq!(coordinator.on_exit(false), ExitDecision::Continue);
    assert_eq!(coordinator.on_exit(false), ExitDecision::Continue);
    assert_eq!(coordinator.on_exit(false), ExitDecision::Terminate);
}

#[test]
fn exit_after_a_signal_does_not_cascade() {
    let mut coordinator = ExitCoordinator::new(3);
    assert_eq!(coordinator.on_exit(true), ExitDecision::Continue);
    assert_eq!(coordinator.on_exit(false), ExitDecision::Continue);
    assert_eq!(coordinator.on_exit(false), ExitDecision::Terminate);
}

#[test]
fn last_exit_terminates_without_cascade() {
    let mut coordinator = ExitCoordinator::new(1);
    assert_eq!(coordinator.on_exit(false), ExitDecision::Terminate);
    assert!(coordinator.is_terminated());
    assert!(!coordinator.is_signaled());
}

#[test]
fn terminated_coordinator_stays_terminated() {
    let mut coordinator = ExitCoordinator::new(1);
    coordinator.on_exit(true);
    assert_eq!(coordinator.on_exit(false), ExitDecision::Terminate);
    assert_eq!(coordinator.remaining(), 0);
    assert!(coordinator.is_terminated());
    assert!(coordinator.is_signaled());
}
