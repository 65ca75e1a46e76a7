//! The exit coordinator: it counts child exits and decides, for each one,
//! whether the supervisor is done, whether the siblings are told to terminate,
//! or whether nothing is left to do but wait.

use vstd::prelude::*;

verus! {

/// What the coordinator does about one exit notice.
#[derive(Clone, Copy, Debug, PartialEq, Eq, Structural)]
pub enum ExitDecision {
    /// No child is left: the supervisor is done.
    Terminate,
    /// A child went away unprompted while siblings are left: each of them is
    /// sent the terminate signal.
    Cascade,
    /// A shutdown is already under way: wait for the next exit.
    Continue,
}

/// The coordinator as a mathematical value.
pub struct CoordinatorState {
    /// The children that have not been seen to exit yet.
    pub remaining: nat,
    /// Whether a shutdown is known to be under way.
    pub signaled: bool,
}

/// The state in which a supervisor of `children` children starts.
pub open spec fn initial_state(children: nat) -> CoordinatorState {
    CoordinatorState { remaining: children, signaled: false }
}

/// The terminal state: every child has been seen to exit.
pub open spec fn is_terminal(state: CoordinatorState) -> bool {
    state.remaining == 0
}

/// One exit notice. `observed` says whether a termination-class signal had
/// been seen by the supervisor when the notice was taken.
pub open spec fn exit_step(state: CoordinatorState, observed: bool) -> (
    CoordinatorState,
    ExitDecision,
) {
    if state.remaining == 0 {
        (state, ExitDecision::Terminate)
    } else {
        let remaining = (state.remaining - 1) as nat;
        let signaled = state.signaled || observed;
        if remaining == 0 {
            (CoordinatorState { remaining, signaled }, ExitDecision::Terminate)
        } else if signaled {
            (CoordinatorState { remaining, signaled: true }, ExitDecision::Continue)
        } else {
            (CoordinatorState { remaining, signaled: true }, ExitDecision::Cascade)
        }
    }
}

/// The state after a run of exit notices, the first one first.
pub open spec fn state_after(state: CoordinatorState, observed: Seq<bool>) -> CoordinatorState
    decreases observed.len(),
{
    if observed.len() == 0 {
        state
    } else {
        exit_step(state_after(state, observed.drop_last()), observed.last()).0
    }
}

/// The decision taken on the notice at position `index` of a run.
pub open spec fn decision_at(
    state: CoordinatorState,
    observed: Seq<bool>,
    index: int,
) -> ExitDecision
    recommends
        0 <= index < observed.len(),
{
    exit_step(state_after(state, observed.take(index)), observed[index]).1
}

/// Counts the exits of a fixed number of children.
#[derive(Clone, Copy, Debug, PartialEq, Eq)]
pub struct ExitCoordinator {
    remaining: usize,
    signaled: bool,
}

impl View for ExitCoordinator {
    type V = CoordinatorState;

    closed spec fn view(&self) -> CoordinatorState {
        CoordinatorState { remaining: self.remaining as nat, signaled: self.signaled }
    }
}

impl ExitCoordinator {
    /// A coordinator that waits for `children` exits. With no child at all it
    /// is terminal from the start.
    pub fn new(children: usize) -> (coordinator: ExitCoordinator)
        ensures
            coordinator@ == initial_state(children as nat),
    {
        ExitCoordinator { remaining: children, signaled: false }
    }

    /// The number of children that have not been seen to exit.
    pub fn remaining(&self) -> (count: usize)
        ensures
            count == self@.remaining,
    {
        self.remaining
    }

    /// Whether a shutdown is known to be under way.
    pub fn is_signaled(&self) -> (signaled: bool)
        ensures
            signaled == self@.signaled,
    {
        self.signaled
    }

    /// Whether every child has been seen to exit.
    pub fn is_terminated(&self) -> (done: bool)
        ensures
            done == is_terminal(self@),
    {
        self.remaining == 0
    }

    /// Takes one exit notice. `observed` is the supervisor-wide signaled flag
    /// as it was read when the notice arrived.
    pub fn on_exit(&mut self, observed: bool) -> (decision: ExitDecision)
        ensures
            (final(self)@, decision) == exit_step(old(self)@, observed),
    {
        if self.remaining == 0 {
            return ExitDecision::Terminate;
        }
        self.remaining = self.remaining - 1;
        let signaled = self.signaled || observed;
        if self.remaining == 0 {
            self.signaled = signaled;
            ExitDecision::Terminate
        } else {
            self.signaled = true;
            if signaled {
                ExitDecision::Continue
            } else {
                ExitDecision::Cascade
            }
        }
    }
}

/// The coordinator decides to terminate on exactly those notices that leave
/// no child to wait for: never while a child is left, and at once when the
/// last one is gone.
pub proof fn lemma_terminate_iff_none_left(state: CoordinatorState, observed: bool)
    ensures
        exit_step(state, observed).1 == ExitDecision::Terminate <==> is_terminal(
            exit_step(state, observed).0,
        ),
        exit_step(state, observed).0.remaining == if state.remaining == 0 {
            0
        } else {
            state.remaining - 1
        },
{
}

/// After `observed.len()` exit notices, a coordinator of `children` children
/// has that many fewer to wait for, and none once all have been seen.
pub proof fn lemma_remaining_after(children: nat, observed: Seq<bool>)
    ensures
        state_after(initial_state(children), observed).remaining == if observed.len() <= children {
            children - observed.len()
        } else {
            0
        },
    decreases observed.len(),
{
    if observed.len() > 0 {
        lemma_remaining_after(children, observed.drop_last());
    }
}

/// The coordinator is terminal exactly when it has taken as many exit notices
/// as there are children: not before the last of them, and from then on.
pub proof fn lemma_terminal_exactly_after_all_exits(children: nat, observed: Seq<bool>)
    ensures
        is_terminal(state_after(initial_state(children), observed)) <==> observed.len()
            >= children,
{
    lemma_remaining_after(children, observed);
}

/// Once one exit has been taken and children are left, a shutdown is known to
/// be under way, and stays so.
pub proof fn lemma_signaled_after_first_exit(children: nat, observed: Seq<bool>)
    requires
        1 <= observed.len() < children,
    ensures
        state_after(initial_state(children), observed).signaled,
{
    lemma_remaining_after(children, observed.drop_last());
}

/// The siblings are told to terminate at most once in a run: on the first
/// exit, if no signal had been seen by then and another child is left. No
/// later exit cascades.
pub proof fn lemma_cascade_only_on_first_unsignaled_exit(
    children: nat,
    observed: Seq<bool>,
    index: int,
)
    requires
        0 <= index < observed.len(),
    ensures
        decision_at(initial_state(children), observed, index) == ExitDecision::Cascade <==> (index
            == 0 && !observed[0] && children >= 2),
{
    let before = observed.take(index);
    lemma_remaining_after(children, before);
    if index == 0 {
        assert(before.len() == 0);
    } else if index < children {
        lemma_signaled_after_first_exit(children, before);
    }
}

} // verus!
