use init_supervisor::config::{Config, ProcessSpec};
use init_supervisor::coordinator::{ExitCoordinator, ExitDecision};
use init_supervisor::error::SupervisorError;
use init_supervisor::process::{plan_delivery, Delivery};
use init_supervisor::signal::{INTERRUPT, TERMINATE};
use init_supervisor::supervisor::{
    is_primary, relay_decision, RelayDecision, Started, Supervisor,
};

fn config_of(names: &[&str]) -> Config {
    let mut entries = Vec::new();
    for name in names {
        entries.push(ProcessSpec { name: String::from(*name), command: String::from("sleep 100") });
    }
    Config::new(entries).unwrap()
}

fn started(names: &[&str], pids: Vec<u32>, own_pid: u32) -> Started {
    Supervisor::start(&config_of(names), &pids, own_pid).unwrap()
}

#[test]
fn only_pid_one_is_primary() {
    assert!(is_primary(1));
    assert!(!is_primary(0));
    assert!(!is_primary(2));
    assert!(!is_primary(u32::MAX));
}

#[test]
fn a_primary_listener_forwards_the_signal_as_it_came() {
    assert_eq!(relay_decision(true, 15), RelayDecision::Forward(15));
    assert_eq!(relay_decision(true, 2), RelayDecision::Forward(2));
    assert_eq!(relay_decision(true, 3), RelayDecision::Forward(3));
    assert_eq!(relay_decision(true, 10), RelayDecision::Forward(10));
}

#[test]
fn a_secondary_listener_swallows_the_signal() {
    assert_eq!(relay_decision(false, 15), RelayDecision::Intercept);
    assert_eq!(relay_decision(false, 2), RelayDecision::Intercept);
}

#[test]
fn start_gives_each_entry_a_handle_and_two_tasks() {
    let parts = started(&["a", "b", "c"], vec![11, 12, 13], 1);
    assert_eq!(parts.supervisor.child_count(), 3);
    assert_eq!(parts.tasks.len(), 3);
    assert_eq!(parts.supervisor.process(0).unwrap().name(), "a");
    assert_eq!(parts.supervisor.process(0).unwrap().pid(), 11);
    assert_eq!(parts.supervisor.process(1).unwrap().name(), "b");
    assert_eq!(parts.supervisor.process(1).unwrap().pid(), 12);
    assert_eq!(parts.supervisor.process(2).unwrap().name(), "c");
    assert_eq!(parts.supervisor.process(2).unwrap().pid(), 13);
    assert!(parts.supervisor.process(3).is_none());
    assert_eq!(parts.tasks[1].relay.name(), "b");
    assert_eq!(parts.tasks[1].relay.pid(), 12);
    assert_eq!(parts.tasks[2].watcher.name(), "c");
    assert_eq!(parts.tasks[2].watcher.pid(), 13);
    assert!(parts.supervisor.process(0).unwrap().is_alive());
    assert!(!parts.supervisor.is_signaled());
}

#[test]
fn start_needs_one_pid_per_entry() {
    assert!(Supervisor::start(&config_of(&["a", "b"]), &vec![11], 1).is_none());
    assert!(Supervisor::start(&config_of(&["a"]), &vec![11, 12], 1).is_none());
    assert!(Supervisor::start(&config_of(&[]), &vec![11], 1).is_none());
    assert!(Supervisor::start(&config_of(&[]), &Vec::new(), 1).is_some());
}

#[test]
fn only_a_primary_supervisor_has_a_forwarder() {
    let primary = started(&["a"], vec![11], 1);
    assert!(primary.supervisor.is_primary());
    assert!(primary.listener.is_primary());
    assert!(primary.forwarder.is_some());
    let secondary = started(&["a"], vec![11], 4711);
    assert!(!secondary.supervisor.is_primary());
    assert!(!secondary.listener.is_primary());
    assert!(secondary.forwarder.is_none());
}

#[test]
fn supervisor_without_children_is_done_at_once() {
    let parts = started(&[], Vec::new(), 1);
    let report = parts.supervisor.run().unwrap();
    assert_eq!(report.observed, Vec::<bool>::new());
    assert_eq!(report.cascade, None);
    assert!(!parts.supervisor.is_signaled());
}

#[test]
fn run_fails_when_no_watcher_is_left_to_report() {
    let mut parts = started(&["a"], vec![11], 5);
    parts.tasks.clear();
    assert_eq!(parts.supervisor.run().err(), Some(SupervisorError::ExitChannelClosed));
}

#[test]
fn broadcast_passes_over_every_exited_child() {
    let mut parts = started(&["a", "b"], vec![11, 12], 1);
    while let Some(tasks) = parts.tasks.pop() {
        drop(tasks.relay);
        assert_eq!(tasks.watcher.report_exit(), Err(SupervisorError::RelayNotNotified));
    }
    assert_eq!(
        parts.supervisor.broadcast(TERMINATE),
        Ok(vec![Delivery::Skipped, Delivery::Skipped])
    );
    assert_eq!(parts.supervisor.broadcast(INTERRUPT), Ok(vec![Delivery::Skipped, Delivery::Skipped]));
}

#[test]
fn broadcast_over_no_children_delivers_nothing() {
    let parts = started(&[], Vec::new(), 1);
    assert_eq!(parts.supervisor.broadcast(TERMINATE), Ok(Vec::new()));
}

#[test]
fn broadcast_stops_at_a_live_child_without_relay() {
    let mut parts = started(&["a", "b"], vec![11, 12], 1);
    let b = parts.tasks.pop().unwrap();
    let a = parts.tasks.pop().unwrap();
    drop(a.relay);
    drop(b.relay);
    assert_eq!(a.watcher.report_exit(), Err(SupervisorError::RelayNotNotified));
    assert_eq!(parts.supervisor.broadcast(TERMINATE), Err(SupervisorError::DeliveryFailed));
}

#[test]
fn a_secondary_listener_marks_the_signal_and_forwards_nothing() {
    let parts = started(&["a"], vec![11], 300);
    assert!(!parts.supervisor.is_signaled());
    assert_eq!(parts.listener.on_signal(INTERRUPT), Ok(RelayDecision::Intercept));
    assert!(parts.supervisor.is_signaled());
    assert_eq!(parts.listener.on_signal(TERMINATE), Ok(RelayDecision::Intercept));
    assert!(parts.supervisor.is_signaled());
}

#[test]
fn a_primary_listener_fails_once_nobody_takes_its_signal() {
    let mut parts = started(&["a"], vec![11], 1);
    drop(parts.forwarder.take());
    assert_eq!(parts.listener.on_signal(TERMINATE), Err(SupervisorError::SignalNotForwarded));
    assert!(parts.supervisor.is_signaled());
}

#[test]
fn forwarding_fails_when_the_listener_is_gone() {
    let parts = started(&["a"], vec![11], 1);
    let forwarder = parts.forwarder.unwrap();
    drop(parts.listener);
    assert_eq!(
        parts.supervisor.forward_first_signal(forwarder).err(),
        Some(SupervisorError::BroadcastChannelClosed)
    );
}

#[test]
fn b_exits_first_then_a_is_told_to_terminate_and_the_run_ends() {
    // Children a and b; b exits at once, no signal has been seen.
    let mut coordinator = ExitCoordinator::new(2);
    let a_alive = true;
    let b_alive = false;
    assert_eq!(coordinator.on_exit(false), ExitDecision::Cascade);
    assert_eq!(plan_delivery(a_alive, TERMINATE), Delivery::Enqueued(TERMINATE));
    assert_eq!(plan_delivery(b_alive, TERMINATE), Delivery::Skipped);
    assert!(!coordinator.is_terminated());
    // a exits, by the signal or by itself.
    assert_eq!(coordinator.on_exit(true), ExitDecision::Terminate);
    assert!(coordinator.is_terminated());
    assert_eq!(coordinator.remaining(), 0);
}

#[test]
fn interrupt_is_forwarded_to_the_only_child_and_nothing_cascades() {
    // One child a; the supervisor is primary and is sent an interrupt.
    let mut coordinator = ExitCoordinator::new(1);
    assert_eq!(relay_decision(is_primary(1), INTERRUPT), RelayDecision::Forward(INTERRUPT));
    assert_eq!(plan_delivery(true, INTERRUPT), Delivery::Enqueued(INTERRUPT));
    assert!(!coordinator.is_terminated());
    // a exits; the signaled flag has been raised by the listener.
    assert_eq!(coordinator.on_exit(true), ExitDecision::Terminate);
    assert!(coordinator.is_terminated());
}

#[test]
fn interrupt_before_any_exit_keeps_later_exits_from_cascading() {
    let mut coordinator = ExitCoordinator::new(3);
    assert_eq!(relay_decision(true, INTERRUPT), RelayDecision::Forward(INTERRUPT));
    assert_eq!(coordinator.on_exit(true), ExitDecision::Continue);
    assert_eq!(coordinator.on_exit(true), ExitDecision::Continue);
    assert_eq!(coordinator.on_exit(true), ExitDecision::Terminate);
}
