//! Signal numbers and the three termination-class signals.

use vstd::prelude::*;

verus! {

/// The number of an operating-system signal.
pub type Signal = i32;

/// The number of the terminate signal.
pub const TERMINATE: Signal = 15;

/// The number of the interrupt signal.
pub const INTERRUPT: Signal = 2;

/// The number of the quit signal.
pub const QUIT: Signal = 3;

/// What a signal number means to the supervisor.
#[derive(Clone, Copy, Debug, PartialEq, Eq, Structural)]
pub enum SignalKind {
    Terminate,
    Interrupt,
    Quit,
    /// Any other number: it is relayed as it came, under a generic label.
    Unrecognized,
}

/// The meaning of a signal number.
pub open spec fn kind_of(signal: Signal) -> SignalKind {
    if signal == TERMINATE {
        SignalKind::Terminate
    } else if signal == INTERRUPT {
        SignalKind::Interrupt
    } else if signal == QUIT {
        SignalKind::Quit
    } else {
        SignalKind::Unrecognized
    }
}

/// The label under which a kind of signal is logged.
pub open spec fn label_of(kind: SignalKind) -> Seq<char> {
    match kind {
        SignalKind::Terminate => "SIGTERM"@,
        SignalKind::Interrupt => "SIGINT"@,
        SignalKind::Quit => "SIGQUIT"@,
        SignalKind::Unrecognized => "SIGUNKNOWN"@,
    }
}

/// Trusted: `signal_hook::SIGTERM`, which re-exports `libc::SIGTERM`, a
/// constant that is 15 on every Unix target of `libc`.
#[verifier::external_body]
pub(crate) fn sigterm() -> (signal: Signal)
    ensures
        signal == TERMINATE,
{
    signal_hook::SIGTERM
}

/// Trusted: `signal_hook::SIGINT`, which re-exports `libc::SIGINT`, a
/// constant that is 2 on every Unix target of `libc`.
#[verifier::external_body]
pub(crate) fn sigint() -> (signal: Signal)
    ensures
        signal == INTERRUPT,
{
    signal_hook::SIGINT
}

/// Trusted: `signal_hook::SIGQUIT`, which re-exports `libc::SIGQUIT`, a
/// constant that is 3 on every Unix target of `libc`.
#[verifier::external_body]
pub(crate) fn sigquit() -> (signal: Signal)
    ensures
        signal == QUIT,
{
    signal_hook::SIGQUIT
}

/// Classifies a signal number.
pub fn classify(signal: Signal) -> (kind: SignalKind)
    ensures
        kind == kind_of(signal),
{
    if signal == sigterm() {
        SignalKind::Terminate
    } else if signal == sigint() {
        SignalKind::Interrupt
    } else if signal == sigquit() {
        SignalKind::Quit
    } else {
        SignalKind::Unrecognized
    }
}

/// The label under which a signal is logged when it is relayed to a child.
pub fn signal_name(signal: Signal) -> (name: &'static str)
    ensures
        name@ == label_of(kind_of(signal)),
{
    match classify(signal) {
        SignalKind::Terminate => "SIGTERM",
        SignalKind::Interrupt => "SIGINT",
        SignalKind::Quit => "SIGQUIT",
        SignalKind::Unrecognized => "SIGUNKNOWN",
    }
}

/// The signals that the supervisor intercepts, in the order in which they are
/// registered.
pub fn termination_signals() -> (signals: Vec<Signal>)
    ensures
        signals@ == seq![TERMINATE, INTERRUPT, QUIT],
{
    let mut signals: Vec<Signal> = Vec::new();
    signals.push(sigterm());
    signals.push(sigint());
    signals.push(sigquit());
    signals
}

} // verus!
