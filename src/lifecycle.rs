//! The window/tray lifecycle state machine and its shutdown protocol.

use vstd::prelude::*;

verus! {

/// Grace period, in milliseconds, between the quit notification and forced
/// termination when closing the window quits the application.
pub const CLOSE_GRACE_MS: u64 = 200;

/// Grace period, in milliseconds, between the quit notification and forced
/// termination when quitting from the tray menu.
pub const QUIT_GRACE_MS: u64 = 500;

/// Where the application is in its life.
#[derive(Clone, Copy, Debug, PartialEq, Eq, Structural)]
pub enum LifecycleState {
    RunningVisible,
    RunningHidden,
    ShuttingDown,
    Terminated,
}

impl LifecycleState {
    pub open spec fn is_running(self) -> bool {
        self is RunningVisible || self is RunningHidden
    }
}

/// What closing the window means.
#[derive(Clone, Copy, Debug, PartialEq, Eq, Structural)]
pub enum ClosePolicy {
    /// Closing hides the window; the application keeps running in the tray.
    MinimizeToTray,
    /// Closing starts the shutdown protocol.
    QuitOnClose,
}

/// The closed set of events the lifecycle reacts to.
#[derive(Clone, Copy, Debug, PartialEq, Eq, Structural)]
pub enum LifecycleEvent {
    /// The user asked the window to close.
    CloseRequested,
    /// Show and focus the window (tray Show, tray left-click, second launch).
    ActivateRequested,
    /// Explicit quit intent (tray Quit).
    QuitRequested,
    /// The shutdown timer's grace period elapsed.
    ShutdownTimerFired,
}

/// A side effect that the host must carry out, in order.
#[derive(Clone, Copy, Debug, PartialEq, Eq, Structural)]
pub enum Action {
    /// Suppress the platform's native close of the window.
    PreventClose,
    HideWindow,
    ShowWindow,
    FocusWindow,
    /// Send the fire-and-forget "before quit" notification to the frontend.
    EmitBeforeQuit,
    /// Start a one-shot timer that reports `ShutdownTimerFired` after the delay.
    ArmShutdownTimer { grace_ms: u64 },
    /// End the process unconditionally.
    Terminate,
}

/// The state after `e` arrives in state `s`.
pub open spec fn next_state(policy: ClosePolicy, s: LifecycleState, e: LifecycleEvent) -> LifecycleState {
    match e {
        LifecycleEvent::CloseRequested => {
            if !s.is_running() {
                s
            } else if policy is MinimizeToTray {
                LifecycleState::RunningHidden
            } else {
                LifecycleState::ShuttingDown
            }
        },
        LifecycleEvent::ActivateRequested => {
            if s.is_running() { LifecycleState::RunningVisible } else { s }
        },
        LifecycleEvent::QuitRequested => {
            if s.is_running() { LifecycleState::ShuttingDown } else { s }
        },
        LifecycleEvent::ShutdownTimerFired => {
            if s is ShuttingDown { LifecycleState::Terminated } else { s }
        },
    }
}

/// The actions, in order, that `e` causes in state `s`.
pub open spec fn step_actions(policy: ClosePolicy, s: LifecycleState, e: LifecycleEvent) -> Seq<Action> {
    match e {
        LifecycleEvent::CloseRequested => {
            if !s.is_running() {
                seq![Action::PreventClose]
            } else if policy is MinimizeToTray {
                seq![Action::PreventClose, Action::HideWindow]
            } else {
                seq![
                    Action::PreventClose,
                    Action::EmitBeforeQuit,
                    Action::ArmShutdownTimer { grace_ms: CLOSE_GRACE_MS },
                ]
            }
        },
        LifecycleEvent::ActivateRequested => {
            match s {
                LifecycleState::RunningHidden => seq![Action::ShowWindow, Action::FocusWindow],
                LifecycleState::RunningVisible => seq![Action::FocusWindow],
                _ => seq![],
            }
        },
        LifecycleEvent::QuitRequested => {
            if s.is_running() {
                seq![Action::EmitBeforeQuit, Action::ArmShutdownTimer { grace_ms: QUIT_GRACE_MS }]
            } else {
                seq![]
            }
        },
        LifecycleEvent::ShutdownTimerFired => {
            if s is ShuttingDown { seq![Action::Terminate] } else { seq![] }
        },
    }
}

/// The state reached from `s` after each event of `events` in turn.
pub open spec fn run_events(policy: ClosePolicy, s: LifecycleState, events: Seq<LifecycleEvent>) -> LifecycleState
    decreases events.len(),
{
    if events.len() == 0 {
        s
    } else {
        run_events(policy, next_state(policy, s, events[0]), events.drop_first())
    }
}

/// Under minimize-to-tray, no sequence of events without an explicit quit
/// ever leaves the running states.
pub proof fn lemma_no_quit_stays_running(s: LifecycleState, events: Seq<LifecycleEvent>)
    requires
        s.is_running(),
        forall|i: int| 0 <= i < events.len() ==> events[i] != LifecycleEvent::QuitRequested,
    ensures
        run_events(ClosePolicy::MinimizeToTray, s, events).is_running(),
    decreases events.len(),
{
    if events.len() > 0 {
        let rest = events.drop_first();
        assert forall|i: int| 0 <= i < rest.len() implies rest[i] != LifecycleEvent::QuitRequested by {
            assert(rest[i] == events[i + 1]);
        }
        lemma_no_quit_stays_running(next_state(ClosePolicy::MinimizeToTray, s, events[0]), rest);
    }
}

/// Under minimize-to-tray, a run of close gestures from a running state
/// passes only through running states, and each gesture leaves the window
/// hidden.
pub proof fn lemma_close_gestures_only_hide(s: LifecycleState, events: Seq<LifecycleEvent>)
    requires
        s.is_running(),
        forall|i: int| 0 <= i < events.len() ==> events[i] == LifecycleEvent::CloseRequested,
    ensures
        forall|n: int|
            0 <= n <= events.len() ==> #[trigger] run_events(ClosePolicy::MinimizeToTray, s, events.take(n)).is_running(),
        forall|n: int|
            0 < n <= events.len() ==> #[trigger] run_events(ClosePolicy::MinimizeToTray, s, events.take(n))
                == LifecycleState::RunningHidden,
    decreases events.len(),
{
    let p = ClosePolicy::MinimizeToTray;
    assert(events.take(0) =~= Seq::<LifecycleEvent>::empty());
    if events.len() > 0 {
        let rest = events.drop_first();
        let h = next_state(p, s, events[0]);
        assert forall|i: int| 0 <= i < rest.len() implies rest[i] == LifecycleEvent::CloseRequested by {
            assert(rest[i] == events[i + 1]);
        }
        lemma_close_gestures_only_hide(h, rest);
        assert forall|n: int| 0 < n <= events.len() implies #[trigger] run_events(p, s, events.take(n))
            == LifecycleState::RunningHidden by {
            let t = events.take(n);
            assert(t.drop_first() =~= rest.take(n - 1));
            assert(t[0] == events[0]);
            assert(t.len() == n);
            assert(run_events(p, s, t) == run_events(p, h, rest.take(n - 1)));
            if n - 1 == 0 {
                assert(rest.take(0) =~= Seq::<LifecycleEvent>::empty());
            } else {
                assert(run_events(p, h, rest.take(n - 1)) == LifecycleState::RunningHidden);
            }
        }
    }
}

/// Activating twice in a row from a running state ends visible, and the
/// second activation only reasserts focus: the window is not shown again.
pub proof fn lemma_activate_idempotent(policy: ClosePolicy, s: LifecycleState)
    requires
        s.is_running(),
    ensures
        ({
            let once = next_state(policy, s, LifecycleEvent::ActivateRequested);
            &&& once == LifecycleState::RunningVisible
            &&& next_state(policy, once, LifecycleEvent::ActivateRequested) == once
            &&& step_actions(policy, once, LifecycleEvent::ActivateRequested) == seq![Action::FocusWindow]
        }),
{
}

/// Once shutting down, close and quit requests change nothing and notify
/// nothing; only the timer moves the state on, so no event but the timer
/// leaves the shutdown state and the frontend is notified once per shutdown.
pub proof fn lemma_shutdown_absorbs_requests(policy: ClosePolicy, events: Seq<LifecycleEvent>)
    requires
        forall|i: int| 0 <= i < events.len() ==> events[i] != LifecycleEvent::ShutdownTimerFired,
    ensures
        next_state(policy, LifecycleState::ShuttingDown, LifecycleEvent::CloseRequested)
            == LifecycleState::ShuttingDown,
        step_actions(policy, LifecycleState::ShuttingDown, LifecycleEvent::CloseRequested)
            == seq![Action::PreventClose],
        next_state(policy, LifecycleState::ShuttingDown, LifecycleEvent::QuitRequested)
            == LifecycleState::ShuttingDown,
        step_actions(policy, LifecycleState::ShuttingDown, LifecycleEvent::QuitRequested).len() == 0,
        forall|e: LifecycleEvent|
            !(#[trigger] step_actions(policy, LifecycleState::ShuttingDown, e)).contains(Action::EmitBeforeQuit),
        run_events(policy, LifecycleState::ShuttingDown, events) == LifecycleState::ShuttingDown,
    decreases events.len(),
{
    assert forall|e: LifecycleEvent|
        !(#[trigger] step_actions(policy, LifecycleState::ShuttingDown, e)).contains(Action::EmitBeforeQuit) by {
        let a = step_actions(policy, LifecycleState::ShuttingDown, e);
        if a.contains(Action::EmitBeforeQuit) {
            let k = choose|k: int| 0 <= k < a.len() && a[k] == Action::EmitBeforeQuit;
            assert(a[k] == Action::EmitBeforeQuit);
        }
    }
    if events.len() > 0 {
        let rest = events.drop_first();
        assert forall|i: int| 0 <= i < rest.len() implies rest[i] != LifecycleEvent::ShutdownTimerFired by {
            assert(rest[i] == events[i + 1]);
        }
        lemma_shutdown_absorbs_requests(policy, rest);
    }
}

/// The timer armed by a tray quit never has a shorter grace period than the
/// one armed by a close under quit-on-close.
pub proof fn lemma_tray_grace_not_shorter(policy: ClosePolicy, s1: LifecycleState, s2: LifecycleState)
    requires
        s1.is_running(),
        s2.is_running(),
    ensures
        ({
            let q = step_actions(policy, s1, LifecycleEvent::QuitRequested);
            let c = step_actions(ClosePolicy::QuitOnClose, s2, LifecycleEvent::CloseRequested);
            &&& q.contains(Action::ArmShutdownTimer { grace_ms: QUIT_GRACE_MS })
            &&& c.contains(Action::ArmShutdownTimer { grace_ms: CLOSE_GRACE_MS })
            &&& forall|i: int, j: int|
                0 <= i < q.len() && 0 <= j < c.len() && q[i] is ArmShutdownTimer && c[j] is ArmShutdownTimer
                    ==> q[i]->grace_ms >= c[j]->grace_ms
        }),
{
    let q = step_actions(policy, s1, LifecycleEvent::QuitRequested);
    let c = step_actions(ClosePolicy::QuitOnClose, s2, LifecycleEvent::CloseRequested);
    assert(q[1] == Action::ArmShutdownTimer { grace_ms: QUIT_GRACE_MS });
    assert(c[2] == Action::ArmShutdownTimer { grace_ms: CLOSE_GRACE_MS });
}

/// The lifecycle controller: the single owner of the lifecycle state.
pub struct Lifecycle {
    policy: ClosePolicy,
    state: LifecycleState,
}

impl Lifecycle {
    pub closed spec fn policy_spec(&self) -> ClosePolicy {
        self.policy
    }

    pub closed spec fn state_spec(&self) -> LifecycleState {
        self.state
    }

    /// A controller for a freshly started instance: the window is shown.
    pub fn new(policy: ClosePolicy) -> (r: Lifecycle)
        ensures
            r.policy_spec() == policy,
            r.state_spec() == LifecycleState::RunningVisible,
    {
        Lifecycle { policy, state: LifecycleState::RunningVisible }
    }

    pub fn policy(&self) -> (r: ClosePolicy)
        ensures
            r == self.policy_spec(),
    {
        self.policy
    }

    pub fn state(&self) -> (r: LifecycleState)
        ensures
            r == self.state_spec(),
    {
        self.state
    }
    /// The single arbitration point: applies one event and returns the
    /// actions the host must perform, in order.
    pub fn handle(&mut self, e: LifecycleEvent) -> (r: Vec<Action>)
        ensures
            final(self).policy_spec() == old(self).policy_spec(),
            final(self).state_spec() == next_state(old(self).policy_spec(), old(self).state_spec(), e),
            r@ == step_actions(old(self).policy_spec(), old(self).state_spec(), e),
    {
        let running = match self.state {
            LifecycleState::RunningVisible | LifecycleState::RunningHidden => true,
            _ => false,
        };
        let mut r: Vec<Action> = Vec::new();
        match e {
            LifecycleEvent::CloseRequested => {
                r.push(Action::PreventClose);
                if running {
                    match self.policy {
                        ClosePolicy::MinimizeToTray => {
                            r.push(Action::HideWindow);
                            self.state = LifecycleState::RunningHidden;
                        },
                        ClosePolicy::QuitOnClose => {
                            r.push(Action::EmitBeforeQuit);
                            r.push(Action::ArmShutdownTimer { grace_ms: CLOSE_GRACE_MS });
                            self.state = LifecycleState::ShuttingDown;
                        },
                    }
                }
            },
            LifecycleEvent::ActivateRequested => {
                match self.state {
                    LifecycleState::RunningHidden => {
                        r.push(Action::ShowWindow);
                        r.push(Action::FocusWindow);
                        self.state = LifecycleState::RunningVisible;
                    },
                    LifecycleState::RunningVisible => {
                        r.push(Action::FocusWindow);
                    },
                    _ => {},
                }
            },
            LifecycleEvent::QuitRequested => {
                if running {
                    r.push(Action::EmitBeforeQuit);
                    r.push(Action::ArmShutdownTimer { grace_ms: QUIT_GRACE_MS });
                    self.state = LifecycleState::ShuttingDown;
                }
            },
            LifecycleEvent::ShutdownTimerFired => {
                if let LifecycleState::ShuttingDown = self.state {
                    r.push(Action::Terminate);
                    self.state = LifecycleState::Terminated;
                }
            },
        }
        assert(r@ =~= step_actions(old(self).policy_spec(), old(self).state_spec(), e));
        r
    }

    /// One platform close gesture. The native close is always suppressed;
    /// during shutdown nothing else happens.
    pub fn request_close(&mut self) -> (r: Vec<Action>)
        ensures
            final(self).policy_spec() == old(self).policy_spec(),
            final(self).state_spec() == next_state(
                old(self).policy_spec(),
                old(self).state_spec(),
                LifecycleEvent::CloseRequested,
            ),
            r@ == step_actions(old(self).policy_spec(), old(self).state_spec(), LifecycleEvent::CloseRequested),
    {
        self.handle(LifecycleEvent::CloseRequested)
    }

    /// Show and focus the window; only focus is reasserted when it is
    /// already visible, and nothing happens once shutdown has begun.
    pub fn activate(&mut self) -> (r: Vec<Action>)
        ensures
            final(self).policy_spec() == old(self).policy_spec(),
            final(self).state_spec() == next_state(
                old(self).policy_spec(),
                old(self).state_spec(),
                LifecycleEvent::ActivateRequested,
            ),
            r@ == step_actions(old(self).policy_spec(), old(self).state_spec(), LifecycleEvent::ActivateRequested),
    {
        self.handle(LifecycleEvent::ActivateRequested)
    }

    /// Explicit quit: notify the frontend and arm the longer shutdown timer;
    /// a no-op once shutdown has begun.
    pub fn request_quit(&mut self) -> (r: Vec<Action>)
        ensures
            final(self).policy_spec() == old(self).policy_spec(),
            final(self).state_spec() == next_state(
                old(self).policy_spec(),
                old(self).state_spec(),
                LifecycleEvent::QuitRequested,
            ),
            r@ == step_actions(old(self).policy_spec(), old(self).state_spec(), LifecycleEvent::QuitRequested),
    {
        self.handle(LifecycleEvent::QuitRequested)
    }

    /// The shutdown timer elapsed: terminate if shutting down, else nothing.
    pub fn shutdown_timer_fired(&mut self) -> (r: Vec<Action>)
        ensures
            final(self).policy_spec() == old(self).policy_spec(),
            final(self).state_spec() == next_state(
                old(self).policy_spec(),
                old(self).state_spec(),
                LifecycleEvent::ShutdownTimerFired,
            ),
            r@ == step_actions(old(self).policy_spec(), old(self).state_spec(), LifecycleEvent::ShutdownTimerFired),
    {
        self.handle(LifecycleEvent::ShutdownTimerFired)
    }
}

} // verus!
