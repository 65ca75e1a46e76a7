//! One supervised child: the handle through which it is signalled, the relay
//! that passes signals on to it, and the watcher that reports its exit.

use crate::channel::{bounded_channel, poll_message, send_message, wait_for_either};
use crate::error::SupervisorError;
use crate::flag::Latch;
use crate::signal::Signal;
use crossbeam_channel::{Receiver, Sender};
use vstd::prelude::*;

verus! {

/// What became of one request to signal a child.
#[derive(Clone, Copy, Debug, PartialEq, Eq, Structural)]
pub enum Delivery {
    /// The child had exited: nothing was sent.
    Skipped,
    /// The signal was handed to the child's relay.
    Enqueued(Signal),
}

/// What is done with a signal for a child that is, or is not, alive.
pub open spec fn planned_delivery(alive: bool, signal: Signal) -> Delivery {
    if alive {
        Delivery::Enqueued(signal)
    } else {
        Delivery::Skipped
    }
}

/// Whether a delivery handed a signal to the relay. This reads the record of
/// the delivery; of the child it says only how its flag read at that moment.
pub open spec fn was_enqueued(delivery: Delivery) -> bool {
    delivery is Enqueued
}

/// Decides what to do with a signal for a child, given its liveness flag.
pub fn plan_delivery(alive: bool, signal: Signal) -> (delivery: Delivery)
    ensures
        delivery == planned_delivery(alive, signal),
{
    if alive {
        Delivery::Enqueued(signal)
    } else {
        Delivery::Skipped
    }
}

/// A signal to be sent to a process.
#[derive(Clone, Copy, Debug, PartialEq, Eq, Structural)]
pub struct Kill {
    pub pid: u32,
    pub signal: Signal,
}

/// What a relay does after one wake-up.
#[derive(Clone, Copy, Debug, PartialEq, Eq, Structural)]
pub struct RelayStep {
    /// The signal to send to the child, if one was requested.
    pub kill: Option<Kill>,
    /// Whether the relay is finished.
    pub stop: bool,
}

/// The step of a relay for child `pid` that found `request` on its signal
/// channel and, if `exit_noticed`, the notice of the child's exit. A requested
/// signal is sent even when the exit notice came with it; only the notice
/// ends the relay.
pub open spec fn relay_step_for(pid: u32, request: Option<Signal>, exit_noticed: bool) -> RelayStep {
    RelayStep {
        kill: match request {
            Some(signal) => Some(Kill { pid, signal }),
            None => None,
        },
        stop: exit_noticed,
    }
}

/// Decides the step of a relay from what its two channels held.
pub fn relay_step(pid: u32, request: Option<Signal>, exit_noticed: bool) -> (step: RelayStep)
    ensures
        step == relay_step_for(pid, request, exit_noticed),
{
    let kill = match request {
        Some(signal) => Some(Kill { pid, signal }),
        None => None,
    };
    RelayStep { kill, stop: exit_noticed }
}

/// What a watcher has to report of its two notices: the relay is told first,
/// and the coordinator only after the relay has taken its notice.
pub open spec fn exit_report_for(relay_told: bool, coordinator_told: bool) -> Result<
    (),
    SupervisorError,
> {
    if !relay_told {
        Err(SupervisorError::RelayNotNotified)
    } else if !coordinator_told {
        Err(SupervisorError::ExitNotReported)
    } else {
        Ok(())
    }
}

/// Says how an exit report ended, given which of its two notices were taken.
pub fn exit_report(relay_told: bool, coordinator_told: bool) -> (outcome: Result<
    (),
    SupervisorError,
>)
    ensures
        outcome == exit_report_for(relay_told, coordinator_told),
{
    if !relay_told {
        Err(SupervisorError::RelayNotNotified)
    } else if !coordinator_told {
        Err(SupervisorError::ExitNotReported)
    } else {
        Ok(())
    }
}

/// The identity of a child.
pub struct ProcessView {
    pub name: Seq<char>,
    pub pid: u32,
}

/// The handle of a running child.
#[derive(Debug)]
pub struct Process {
    name: String,
    pid: u32,
    signal_tx: Sender<Signal>,
    exited: Latch,
}

/// The receiving side of a child's signal channel: it turns requests into
/// signals for the child until the child has exited.
#[derive(Debug)]
pub struct RelayLoop {
    name: String,
    pid: u32,
    signal_rx: Receiver<Signal>,
    local_exit_rx: Receiver<()>,
}

/// The task that reports a child's exit, once, after the child has been
/// waited for.
#[derive(Debug)]
pub struct ExitWatcher {
    name: String,
    pid: u32,
    exited: Latch,
    local_exit_tx: Sender<()>,
    exit_tx: Sender<()>,
}

impl View for Process {
    type V = ProcessView;

    closed spec fn view(&self) -> ProcessView {
        ProcessView { name: self.name@, pid: self.pid }
    }
}

impl View for ExitWatcher {
    type V = ProcessView;

    closed spec fn view(&self) -> ProcessView {
        ProcessView { name: self.name@, pid: self.pid }
    }
}

impl View for RelayLoop {
    type V = ProcessView;

    closed spec fn view(&self) -> ProcessView {
        ProcessView { name: self.name@, pid: self.pid }
    }
}

impl Process {
    /// Whether `watcher` holds the liveness flag of this handle: its report
    /// is what ends this handle's liveness.
    pub closed spec fn watched_by(&self, watcher: &ExitWatcher) -> bool {
        self.exited == watcher.exited
    }

    /// Sets up the supervision of a child that has been started under `pid`.
    /// The handle stays with the supervisor; the relay and the watcher each
    /// run as a task of their own. `exit_tx` is where the exit is reported.
    pub fn new(name: String, pid: u32, exit_tx: Sender<()>) -> (parts: (
        Process,
        RelayLoop,
        ExitWatcher,
    ))
        ensures
            parts.0@ == (ProcessView { name: name@, pid }),
            parts.1@ == (ProcessView { name: name@, pid }),
            parts.2@ == (ProcessView { name: name@, pid }),
            parts.0.watched_by(&parts.2),
    {
        let exited = Latch::new();
        let (signal_tx, signal_rx) = bounded_channel::<Signal>(0);
        let (local_exit_tx, local_exit_rx) = bounded_channel::<()>(0);
        let relay = RelayLoop { name: name.clone(), pid, signal_rx, local_exit_rx };
        let watcher = ExitWatcher {
            name: name.clone(),
            pid,
            exited: exited.share(),
            local_exit_tx,
            exit_tx,
        };
        (Process { name, pid, signal_tx, exited }, relay, watcher)
    }

    /// The name under which the child was configured.
    pub fn name(&self) -> (name: &String)
        ensures
            name@ == self@.name,
    {
        &self.name
    }

    /// The process identifier of the child.
    pub fn pid(&self) -> (pid: u32)
        ensures
            pid == self@.pid,
    {
        self.pid
    }

    /// Whether the child still counts as running. Its watcher may report the
    /// exit at any moment; from then on the answer is `false`.
    pub fn is_alive(&self) -> (alive: bool) {
        !self.exited.is_raised()
    }

    /// Carries out a delivery for a child whose liveness flag read `alive`:
    /// nothing at all for a child that has exited, else one blocking hand-over
    /// to the relay. The hand-over fails only if the relay is gone.
    pub fn deliver(&self, alive: bool, signal: Signal) -> (outcome: Result<
        Delivery,
        SupervisorError,
    >)
        ensures
            match outcome {
                Ok(delivery) => delivery == planned_delivery(alive, signal),
                Err(error) => alive && error == SupervisorError::DeliveryFailed,
            },
    {
        match plan_delivery(alive, signal) {
            Delivery::Skipped => Ok(Delivery::Skipped),
            Delivery::Enqueued(signal) => match send_message(&self.signal_tx, signal) {
                Ok(()) => Ok(Delivery::Enqueued(signal)),
                Err(_) => Err(SupervisorError::DeliveryFailed),
            },
        }
    }

    /// Requests that `signal` be sent to the child. A child that has exited is
    /// passed over in silence.
    pub fn send_signal(&self, signal: Signal) -> (outcome: Result<Delivery, SupervisorError>)
        ensures
            outcome matches Ok(delivery) ==> delivery == Delivery::Skipped || delivery
                == Delivery::Enqueued(signal),
            outcome matches Err(error) ==> error == SupervisorError::DeliveryFailed,
    {
        let alive = self.is_alive();
        self.deliver(alive, signal)
    }
}

impl RelayLoop {
    /// The name of the child that this relay serves.
    pub fn name(&self) -> (name: &String)
        ensures
            name@ == self@.name,
    {
        &self.name
    }

    /// The process identifier that this relay signals.
    pub fn pid(&self) -> (pid: u32)
        ensures
            pid == self@.pid,
    {
        self.pid
    }

    /// Waits until a signal request or the exit notice may be there, takes
    /// what is there and says what to do. Any signal to send goes to this
    /// relay's child.
    pub fn next_step(&self) -> (step: RelayStep)
        ensures
            step.kill matches Some(kill) ==> kill.pid == self@.pid,
    {
        wait_for_either(&self.signal_rx, &self.local_exit_rx);
        let request = match poll_message(&self.signal_rx) {
            Ok(signal) => Some(signal),
            Err(_) => None,
        };
        let exit_noticed = match poll_message(&self.local_exit_rx) {
            Ok(()) => true,
            Err(_) => false,
        };
        relay_step(self.pid, request, exit_noticed)
    }
}

impl ExitWatcher {
    /// The name of the child that is watched.
    pub fn name(&self) -> (name: &String)
        ensures
            name@ == self@.name,
    {
        &self.name
    }

    /// The process identifier of the child that is watched.
    pub fn pid(&self) -> (pid: u32)
        ensures
            pid == self@.pid,
    {
        self.pid
    }

    /// Reports that the child has exited. In this order: the child stops
    /// counting as alive, the relay is told to stop, the coordinator is told
    /// of the exit. A task that runs once reports once: the watcher is used
    /// up.
    pub fn report_exit(self) -> (outcome: Result<(), SupervisorError>)
        ensures
            outcome matches Err(error) ==> error == SupervisorError::RelayNotNotified || error
                == SupervisorError::ExitNotReported,
    {
        self.exited.raise();
        let relay_told = match send_message(&self.local_exit_tx, ()) {
            Ok(()) => true,
            Err(_) => false,
        };
        if !relay_told {
            return exit_report(false, false);
        }
        let coordinator_told = match send_message(&self.exit_tx, ()) {
            Ok(()) => true,
            Err(_) => false,
        };
        exit_report(true, coordinator_told)
    }
}

} // verus!
