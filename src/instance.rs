//! The single-instance guard: what a launch does, given the outcome of
//! taking the process-wide instance lock.

use vstd::prelude::*;
use crate::lifecycle::{
    Action, ClosePolicy, Lifecycle, LifecycleEvent, LifecycleState, next_state, step_actions,
};

verus! {

/// The outcome of trying to take the instance lock at startup.
#[derive(Clone, Copy, Debug, PartialEq, Eq, Structural)]
pub enum InstanceLock {
    /// This process holds the lock for its whole lifetime.
    Acquired,
    /// Another instance already holds it.
    AlreadyHeld,
    /// The lock could not be taken for another reason.
    Unavailable,
}

/// What a launching process does next.
#[derive(Clone, Copy, Debug, PartialEq, Eq, Structural)]
pub enum StartupDecision {
    /// Become the running instance: create the window and the tray.
    RunPrimary,
    /// Forward the launch arguments to the running instance and exit at once,
    /// creating nothing.
    ForwardAndExit,
    /// A startup-fatal failure: abort.
    Abort,
}

pub open spec fn startup_decision_spec(lock: InstanceLock) -> StartupDecision {
    match lock {
        InstanceLock::Acquired => StartupDecision::RunPrimary,
        InstanceLock::AlreadyHeld => StartupDecision::ForwardAndExit,
        InstanceLock::Unavailable => StartupDecision::Abort,
    }
}

/// Losing the race for the lock is not an error: it means forward and exit.
pub fn startup_decision(lock: InstanceLock) -> (r: StartupDecision)
    ensures
        r == startup_decision_spec(lock),
{
    match lock {
        InstanceLock::Acquired => StartupDecision::RunPrimary,
        InstanceLock::AlreadyHeld => StartupDecision::ForwardAndExit,
        InstanceLock::Unavailable => StartupDecision::Abort,
    }
}

/// A launch that finds the lock held creates no window and exits at once;
/// the running instance, on hearing of it, ends visible and focused, showing
/// the window only if it was hidden.
pub proof fn lemma_second_launch_activates_primary(policy: ClosePolicy, s: LifecycleState)
    requires
        s.is_running(),
    ensures
        startup_decision_spec(InstanceLock::AlreadyHeld) == StartupDecision::ForwardAndExit,
        next_state(policy, s, LifecycleEvent::ActivateRequested) == LifecycleState::RunningVisible,
        step_actions(policy, s, LifecycleEvent::ActivateRequested) == if s is RunningHidden {
            seq![Action::ShowWindow, Action::FocusWindow]
        } else {
            seq![Action::FocusWindow]
        },
{
}

impl Lifecycle {
    /// The running instance learned of a second launch: activate the window.
    /// The forwarded arguments play no part in the decision.
    pub fn on_second_instance(&mut self) -> (r: Vec<Action>)
        ensures
            final(self).policy_spec() == old(self).policy_spec(),
            final(self).state_spec() == next_state(
                old(self).policy_spec(),
                old(self).state_spec(),
                LifecycleEvent::ActivateRequested,
            ),
            r@ == step_actions(old(self).policy_spec(), old(self).state_spec(), LifecycleEvent::ActivateRequested),
    {
        self.activate()
    }
}

} // verus!
