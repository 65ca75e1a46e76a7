//! The supervisor: it owns the handles of all children, relays the first
//! outside signal to them, and runs the exit coordinator until no child is
//! left.

use crate::channel::{bounded_channel, clone_sender, receive_message, send_message};
use crate::config::{Config, ProcessSpecView};
use crate::coordinator::{
    decision_at, initial_state, is_terminal, lemma_cascade_only_on_first_unsignaled_exit,
    lemma_remaining_after, state_after, ExitCoordinator, ExitDecision,
};
use crate::error::SupervisorError;
use crate::flag::Latch;
use crate::process::{
    planned_delivery, was_enqueued, Delivery, ExitWatcher, Process, ProcessView, RelayLoop,
};
use crate::signal::{sigterm, Signal, TERMINATE};
use crossbeam_channel::{Receiver, Sender};
use vstd::prelude::*;

verus! {

/// What the signal listener does with a signal that the supervisor received.
#[derive(Clone, Copy, Debug, PartialEq, Eq, Structural)]
pub enum RelayDecision {
    /// Hand the signal over for broadcast to the children.
    Forward(Signal),
    /// Swallow the signal: the children get it from the system themselves.
    Intercept,
}

/// Whether a supervisor running under `pid` is the first process of its
/// namespace.
pub open spec fn is_primary_pid(pid: u32) -> bool {
    pid == 1
}

/// Only a primary supervisor forwards; the signal is forwarded as it came.
pub open spec fn relay_decision_for(primary: bool, signal: Signal) -> RelayDecision {
    if primary {
        RelayDecision::Forward(signal)
    } else {
        RelayDecision::Intercept
    }
}

/// One delivery per child, in the order of the children, each either passed
/// over or made with `signal`.
pub open spec fn is_broadcast_of(deliveries: Seq<Delivery>, children: nat, signal: Signal) -> bool {
    &&& deliveries.len() == children
    &&& forall|i: int|
        0 <= i < deliveries.len() ==> #[trigger] deliveries[i] == Delivery::Skipped
            || deliveries[i] == Delivery::Enqueued(signal)
}

/// The broadcast of `signal` to children whose liveness flags read `alive`.
pub open spec fn planned_broadcast(alive: Seq<bool>, signal: Signal) -> Seq<Delivery> {
    Seq::new(alive.len(), |i: int| planned_delivery(alive[i], signal))
}

/// For each delivery of a list, in order, whether it was enqueued. This reads
/// the record of a broadcast, not the liveness of the children.
pub open spec fn enqueued_marks(deliveries: Seq<Delivery>) -> Seq<bool> {
    Seq::new(deliveries.len(), |i: int| was_enqueued(deliveries[i]))
}

/// Whether a supervisor running under `pid` is the first process of its
/// namespace.
pub fn is_primary(pid: u32) -> (primary: bool)
    ensures
        primary == is_primary_pid(pid),
{
    pid == 1
}

/// Decides what the signal listener does with a signal.
pub fn relay_decision(primary: bool, signal: Signal) -> (decision: RelayDecision)
    ensures
        decision == relay_decision_for(primary, signal),
{
    if primary {
        RelayDecision::Forward(signal)
    } else {
        RelayDecision::Intercept
    }
}

/// The children of a supervisor that was started with the given entries and
/// process identifiers: entry by entry, in order.
pub open spec fn enrolled(entries: Seq<ProcessSpecView>, pids: Seq<u32>) -> Seq<ProcessView> {
    Seq::new(entries.len(), |i: int| ProcessView { name: entries[i].name, pid: pids[i] })
}

/// The listener's side of the supervisor: it marks every signal that arrives
/// and, in a primary supervisor, hands it over for broadcast.
#[derive(Debug)]
pub struct SignalRelay {
    signaled: Latch,
    broadcast_tx: Sender<Signal>,
    primary: bool,
}

/// The owner of all child handles.
#[derive(Debug)]
pub struct Supervisor {
    processes: Vec<Process>,
    signaled: Latch,
    primary: bool,
    exit_rx: Receiver<()>,
}

/// The two tasks that serve one child.
#[derive(Debug)]
pub struct ChildTasks {
    /// Passes signals on to the child.
    pub relay: RelayLoop,
    /// Reports the child's exit.
    pub watcher: ExitWatcher,
}

/// A supervisor and what its tasks run on.
#[derive(Debug)]
pub struct Started {
    pub supervisor: Supervisor,
    /// For the task that takes signals from the system.
    pub listener: SignalRelay,
    /// For the task that broadcasts the first signal; only a primary
    /// supervisor has one.
    pub forwarder: Option<Receiver<Signal>>,
    /// For each child, in order, its two tasks.
    pub tasks: Vec<ChildTasks>,
}

/// What a primary supervisor did with the first signal it was handed.
#[derive(Debug, PartialEq, Eq)]
pub struct Forwarded {
    /// The signal that was taken from the listener.
    pub signal: Signal,
    /// What became of it, child by child.
    pub deliveries: Vec<Delivery>,
}

/// What the coordinator saw and did until the last child had exited.
#[derive(Debug, PartialEq, Eq)]
pub struct RunReport {
    /// For each exit, in order, whether a signal had been seen by then.
    pub observed: Vec<bool>,
    /// The deliveries of the cascade, if there was one.
    pub cascade: Option<Vec<Delivery>>,
}

impl SignalRelay {
    /// Whether this listener forwards.
    pub closed spec fn primary(&self) -> bool {
        self.primary
    }

    /// Whether this listener raises the signaled flag that `supervisor`
    /// reads.
    pub closed spec fn marks_for(&self, supervisor: &Supervisor) -> bool {
        self.signaled == supervisor.signaled
    }

    /// Whether this listener forwards.
    pub fn is_primary(&self) -> (primary: bool)
        ensures
            primary == self.primary(),
    {
        self.primary
    }

    /// Takes one signal from the system. The signaled flag is raised in any
    /// case. A primary listener then waits until the supervisor has taken the
    /// signal; another one is done at once.
    pub fn on_signal(&self, signal: Signal) -> (outcome: Result<RelayDecision, SupervisorError>)
        ensures
            outcome matches Ok(decision) ==> decision == relay_decision_for(self.primary(), signal),
            outcome matches Err(error) ==> self.primary() && error
                == SupervisorError::SignalNotForwarded,
    {
        self.signaled.raise();
        match relay_decision(self.primary, signal) {
            RelayDecision::Intercept => Ok(RelayDecision::Intercept),
            RelayDecision::Forward(signal) => match send_message(&self.broadcast_tx, signal) {
                Ok(()) => Ok(RelayDecision::Forward(signal)),
                Err(_) => Err(SupervisorError::SignalNotForwarded),
            },
        }
    }
}

impl Supervisor {
    /// The children, in the order in which they were handed over.
    pub closed spec fn children(&self) -> Seq<ProcessView> {
        Seq::new(self.processes@.len(), |i: int| self.processes@[i]@)
    }

    /// The handles of the children, in the same order.
    pub closed spec fn handles(&self) -> Seq<Process> {
        self.processes@
    }

    /// Whether this supervisor is the first process of its namespace.
    pub closed spec fn primary(&self) -> bool {
        self.primary
    }

    /// Sets up the supervision of the configured children, which have been
    /// started under `pids`, entry by entry, by a supervisor that runs under
    /// `own_pid`. Every entry gets a handle and two tasks of its own. There is
    /// nothing to set up unless there is one process identifier per entry.
    pub fn start(config: &Config, pids: &Vec<u32>, own_pid: u32) -> (started: Option<Started>)
        ensures
            started is Some <==> pids@.len() == config@.len(),
            started matches Some(parts) ==> {
                &&& parts.supervisor.children() == enrolled(config@, pids@)
                &&& parts.supervisor.primary() == is_primary_pid(own_pid)
                &&& parts.listener.primary() == is_primary_pid(own_pid)
                &&& parts.listener.marks_for(&parts.supervisor)
                &&& parts.forwarder is Some <==> is_primary_pid(own_pid)
                &&& parts.tasks@.len() == config@.len()
                &&& parts.supervisor.handles().len() == config@.len()
                &&& forall|i: int|
                    0 <= i < parts.tasks@.len() ==> (#[trigger] parts.supervisor.handles()[i]).watched_by(
                        &parts.tasks@[i].watcher,
                    )
                &&& forall|i: int|
                    0 <= i < parts.tasks@.len() ==> (#[trigger] parts.tasks@[i]).relay@
                        == enrolled(config@, pids@)[i] && parts.tasks@[i].watcher@ == enrolled(
                        config@,
                        pids@,
                    )[i]
            },
    {
        let count: usize = config.len();
        if pids.len() != count {
            return None;
        }
        let (exit_tx, exit_rx) = bounded_channel::<()>(0);
        let mut processes: Vec<Process> = Vec::new();
        let mut tasks: Vec<ChildTasks> = Vec::new();
        let mut index: usize = 0;
        while index < count
            invariant
                index <= count,
                count == config@.len(),
                count == pids@.len(),
                processes@.len() == index,
                tasks@.len() == index,
                forall|i: int|
                    0 <= i < index ==> (#[trigger] processes@[i])@ == enrolled(config@, pids@)[i],
                forall|i: int|
                    0 <= i < index ==> (#[trigger] processes@[i]).watched_by(&tasks@[i].watcher),
                forall|i: int|
                    0 <= i < index ==> (#[trigger] tasks@[i]).relay@ == enrolled(config@, pids@)[i]
                        && tasks@[i].watcher@ == enrolled(config@, pids@)[i],
            decreases count - index,
        {
            if let Some(entry) = config.get(index) {
                let (process, relay, watcher) = Process::new(
                    entry.name.clone(),
                    pids[index],
                    clone_sender(&exit_tx),
                );
                processes.push(process);
                tasks.push(ChildTasks { relay, watcher });
            }
            index = index + 1;
        }
        let primary = is_primary(own_pid);
        let signaled = Latch::new();
        let (broadcast_tx, broadcast_rx) = bounded_channel::<Signal>(0);
        let listener = SignalRelay { signaled: signaled.share(), broadcast_tx, primary };
        let forwarder = if primary {
            Some(broadcast_rx)
        } else {
            None
        };
        let supervisor = Supervisor { processes, signaled, primary, exit_rx };
        assert(supervisor.children() =~= enrolled(config@, pids@));
        Some(Started { supervisor, listener, forwarder, tasks })
    }

    /// The number of children.
    pub fn child_count(&self) -> (count: usize)
        ensures
            count == self.children().len(),
    {
        self.processes.len()
    }

    /// Whether this supervisor is the first process of its namespace.
    pub fn is_primary(&self) -> (primary: bool)
        ensures
            primary == self.primary(),
    {
        self.primary
    }

    /// Whether a termination-class signal, or a cascade, has been seen so far.
    pub fn is_signaled(&self) -> (signaled: bool) {
        self.signaled.is_raised()
    }

    /// The handle of the child at `index`, if there are that many.
    pub fn process(&self, index: usize) -> (process: Option<&Process>)
        ensures
            process is Some <==> index < self.children().len(),
            process matches Some(found) ==> *found == self.handles()[index as int] && found@
                == self.children()[index as int],
    {
        if index < self.processes.len() {
            Some(&self.processes[index])
        } else {
            None
        }
    }

    /// Requests `signal` for every child, one after the other, each exactly
    /// once. Children that have exited are passed over. Stops at the first
    /// child whose relay is gone. With no child there is nothing to fail.
    pub fn broadcast(&self, signal: Signal) -> (outcome: Result<Vec<Delivery>, SupervisorError>)
        ensures
            outcome matches Ok(deliveries) ==> is_broadcast_of(
                deliveries@,
                self.children().len(),
                signal,
            ),
            outcome matches Err(error) ==> error == SupervisorError::DeliveryFailed,
            self.children().len() == 0 ==> outcome is Ok,
    {
        let mut deliveries: Vec<Delivery> = Vec::new();
        let mut index: usize = 0;
        while index < self.processes.len()
            invariant
                index <= self.processes.len(),
                is_broadcast_of(deliveries@, index as nat, signal),
            decreases self.processes.len() - index,
        {
            match self.processes[index].send_signal(signal) {
                Ok(delivery) => {
                    deliveries.push(delivery);
                },
                Err(error) => {
                    return Err(error);
                },
            }
            index = index + 1;
        }
        Ok(deliveries)
    }

    /// Waits for the first signal that the listener hands over and broadcasts
    /// it. The receiver is given up afterwards: later signals are not
    /// broadcast again.
    pub fn forward_first_signal(&self, broadcast_rx: Receiver<Signal>) -> (outcome: Result<
        Forwarded,
        SupervisorError,
    >)
        ensures
            outcome matches Ok(forwarded) ==> is_broadcast_of(
                forwarded.deliveries@,
                self.children().len(),
                forwarded.signal,
            ),
            outcome matches Err(error) ==> error == SupervisorError::BroadcastChannelClosed
                || error == SupervisorError::DeliveryFailed,
    {
        match receive_message(&broadcast_rx) {
            Err(_) => Err(SupervisorError::BroadcastChannelClosed),
            Ok(signal) => match self.broadcast(signal) {
                Ok(deliveries) => Ok(Forwarded { signal, deliveries }),
                Err(error) => Err(error),
            },
        }
    }

    /// Runs the exit coordinator: takes one notice per child and returns when
    /// the last child has exited. The first exit, if no signal was seen before
    /// it and siblings are left, raises the signaled flag and sends the
    /// terminate signal to every child; no later exit does. A supervisor
    /// without children is done at once, whatever the channels hold.
    pub fn run(&self) -> (outcome: Result<RunReport, SupervisorError>)
        ensures
            outcome matches Ok(report) ==> {
                &&& report.observed@.len() == self.children().len()
                &&& is_terminal(
                    state_after(initial_state(self.children().len()), report.observed@),
                )
                &&& report.cascade is Some <==> (self.children().len() >= 2
                    && !report.observed@[0])
                &&& report.cascade matches Some(deliveries) ==> is_broadcast_of(
                    deliveries@,
                    self.children().len(),
                    TERMINATE,
                )
            },
            outcome matches Err(error) ==> error == SupervisorError::ExitChannelClosed || error
                == SupervisorError::DeliveryFailed,
            self.children().len() == 0 ==> outcome is Ok,
    {
        let count: usize = self.processes.len();
        let mut coordinator = ExitCoordinator::new(count);
        let mut observed: Vec<bool> = Vec::new();
        let mut cascade: Option<Vec<Delivery>> = None;
        while !coordinator.is_terminated()
            invariant
                count == self.children().len(),
                observed@.len() <= count,
                coordinator@.remaining <= count,
                coordinator@ == state_after(initial_state(count as nat), observed@),
                cascade is Some <==> (observed@.len() >= 1 && count >= 2 && !observed@[0]),
                cascade matches Some(deliveries) ==> is_broadcast_of(
                    deliveries@,
                    count as nat,
                    TERMINATE,
                ),
            decreases coordinator@.remaining,
        {
            match receive_message(&self.exit_rx) {
                Ok(()) => {},
                Err(_) => {
                    return Err(SupervisorError::ExitChannelClosed);
                },
            }
            let flag = self.signaled.is_raised();
            let ghost before = observed@;
            let decision = coordinator.on_exit(flag);
            observed.push(flag);
            proof {
                assert(observed@.drop_last() == before);
                assert(observed@.take(before.len() as int) == before);
                lemma_remaining_after(count as nat, before);
                lemma_remaining_after(count as nat, observed@);
                lemma_cascade_only_on_first_unsignaled_exit(
                    count as nat,
                    observed@,
                    before.len() as int,
                );
                assert(decision == decision_at(
                    initial_state(count as nat),
                    observed@,
                    before.len() as int,
                ));
            }
            match decision {
                ExitDecision::Cascade => {
                    self.signaled.raise();
                    match self.broadcast(sigterm()) {
                        Ok(deliveries) => {
                            cascade = Some(deliveries);
                        },
                        Err(error) => {
                            return Err(error);
                        },
                    }
                },
                _ => {},
            }
        }
        proof {
            lemma_remaining_after(count as nat, observed@);
        }
        Ok(RunReport { observed, cascade })
    }
}

/// Whatever the liveness flags of the children read, the deliveries planned
/// for those readings make a broadcast: one per child, in order, each passed
/// over or made with the signal.
pub proof fn lemma_planned_broadcast_is_broadcast(alive: Seq<bool>, signal: Signal)
    ensures
        is_broadcast_of(planned_broadcast(alive, signal), alive.len(), signal),
        enqueued_marks(planned_broadcast(alive, signal)) == alive,
{
    assert(enqueued_marks(planned_broadcast(alive, signal)) =~= alive);
}

/// A list of deliveries is a broadcast exactly when it is what is planned for
/// some readings of the flags, namely for readings that were alive at the
/// places where the list holds an enqueued signal. This speaks of the record
/// of the broadcast: it is fixed by the signal and by what was enqueued.
pub proof fn lemma_broadcast_is_plan_of_its_marks(
    deliveries: Seq<Delivery>,
    children: nat,
    signal: Signal,
)
    ensures
        is_broadcast_of(deliveries, children, signal) <==> deliveries.len() == children
            && deliveries == planned_broadcast(enqueued_marks(deliveries), signal),
{
    let planned = planned_broadcast(enqueued_marks(deliveries), signal);
    if is_broadcast_of(deliveries, children, signal) {
        assert forall|i: int| 0 <= i < deliveries.len() implies deliveries[i] == planned[i] by {
            assert(deliveries[i] == Delivery::Skipped || deliveries[i] == Delivery::Enqueued(
                signal,
            ));
        }
        assert(deliveries =~= planned);
    }
    if deliveries.len() == children && deliveries == planned {
        lemma_planned_broadcast_is_broadcast(enqueued_marks(deliveries), signal);
    }
}

/// When a primary supervisor forwards a signal that came before any child
/// exited, and the broadcast that follows enqueued it for every child, then
/// every child was handed that very signal exactly once, and no exit after it
/// makes the coordinator send anything more. The premise speaks of what the
/// broadcast enqueued, which is all that is recorded of the children's
/// liveness.
pub proof fn lemma_forwarded_signal_reaches_every_child(
    signal: Signal,
    deliveries: Seq<Delivery>,
    children: nat,
    observed: Seq<bool>,
)
    requires
        is_broadcast_of(deliveries, children, signal),
        forall|i: int| 0 <= i < children ==> was_enqueued(#[trigger] deliveries[i]),
        observed.len() >= 1 ==> observed[0],
    ensures
        relay_decision_for(true, signal) == RelayDecision::Forward(signal),
        deliveries == Seq::new(children, |i: int| Delivery::Enqueued(signal)),
        forall|k: int|
            0 <= k < observed.len() ==> #[trigger] decision_at(
                initial_state(children),
                observed,
                k,
            ) != ExitDecision::Cascade,
{
    assert forall|i: int| 0 <= i < children implies deliveries[i] == Delivery::Enqueued(
        signal,
    ) by {
        assert(was_enqueued(deliveries[i]));
    }
    assert(deliveries =~= Seq::new(children, |i: int| Delivery::Enqueued(signal)));
    assert forall|k: int| 0 <= k < observed.len() implies #[trigger] decision_at(
        initial_state(children),
        observed,
        k,
    ) != ExitDecision::Cascade by {
        lemma_cascade_only_on_first_unsignaled_exit(children, observed, k);
    }
}

/// When a child exits with no signal seen before and siblings left, the
/// coordinator cascades on that exit and on no later one, and every delivery
/// that the cascade enqueued carries the terminate signal, one per child.
pub proof fn lemma_unprompted_exit_cascades_once(
    children: nat,
    observed: Seq<bool>,
    deliveries: Seq<Delivery>,
)
    requires
        children >= 2,
        observed.len() >= 1,
        !observed[0],
        is_broadcast_of(deliveries, children, TERMINATE),
    ensures
        decision_at(initial_state(children), observed, 0) == ExitDecision::Cascade,
        forall|k: int|
            1 <= k < observed.len() ==> #[trigger] decision_at(
                initial_state(children),
                observed,
                k,
            ) != ExitDecision::Cascade,
        forall|i: int|
            0 <= i < children ==> (was_enqueued(#[trigger] deliveries[i]) ==> deliveries[i]
                == Delivery::Enqueued(TERMINATE)),
{
    lemma_cascade_only_on_first_unsignaled_exit(children, observed, 0);
    assert forall|k: int| 1 <= k < observed.len() implies #[trigger] decision_at(
        initial_state(children),
        observed,
        k,
    ) != ExitDecision::Cascade by {
        lemma_cascade_only_on_first_unsignaled_exit(children, observed, k);
    }
}

} // verus!
