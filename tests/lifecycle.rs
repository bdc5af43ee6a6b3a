use nodes_shell::instance::{startup_decision, InstanceLock, StartupDecision};
use nodes_shell::lifecycle::{
    Action, ClosePolicy, Lifecycle, LifecycleEvent, LifecycleState, CLOSE_GRACE_MS, QUIT_GRACE_MS,
};
use nodes_shell::tray::{click_event, create_tray, menu_command, PointerButton, TrayCommand};

fn hidden(policy: ClosePolicy) -> Lifecycle {
    let mut l = Lifecycle::new(policy);
    l.request_close();
    l
}

#[test]
fn starts_visible() {
    let l = Lifecycle::new(ClosePolicy::QuitOnClose);
    assert_eq!(l.state(), LifecycleState::RunningVisible);
    assert_eq!(l.policy(), ClosePolicy::QuitOnClose);
}

#[test]
fn close_hides_under_minimize_to_tray() {
    let mut l = Lifecycle::new(ClosePolicy::MinimizeToTray);
    let a = l.request_close();
    assert_eq!(a, vec![Action::PreventClose, Action::HideWindow]);
    assert_eq!(l.state(), LifecycleState::RunningHidden);
    assert!(!a.contains(&Action::Terminate));
}

#[test]
fn tray_show_from_hidden_shows_and_focuses() {
    let mut l = hidden(ClosePolicy::MinimizeToTray);
    let a = l.on_menu_selected("show");
    assert_eq!(a, vec![Action::ShowWindow, Action::FocusWindow]);
    assert_eq!(l.state(), LifecycleState::RunningVisible);
}

#[test]
fn tray_quit_notifies_once_then_terminates() {
    let mut l = Lifecycle::new(ClosePolicy::MinimizeToTray);
    let a = l.on_menu_selected("quit");
    assert_eq!(a, vec![Action::EmitBeforeQuit, Action::ArmShutdownTimer { grace_ms: 500 }]);
    assert_eq!(l.state(), LifecycleState::ShuttingDown);
    assert!(l.on_menu_selected("quit").is_empty());
    assert_eq!(l.request_close(), vec![Action::PreventClose]);
    assert_eq!(l.shutdown_timer_fired(), vec![Action::Terminate]);
    assert_eq!(l.state(), LifecycleState::Terminated);
}

#[test]
fn second_launch_forwards_and_primary_activates() {
    assert_eq!(startup_decision(InstanceLock::AlreadyHeld), StartupDecision::ForwardAndExit);
    let mut primary = hidden(ClosePolicy::MinimizeToTray);
    let a = primary.on_second_instance();
    assert_eq!(a, vec![Action::ShowWindow, Action::FocusWindow]);
    assert_eq!(primary.state(), LifecycleState::RunningVisible);
}

#[test]
fn startup_decisions() {
    assert_eq!(startup_decision(InstanceLock::Acquired), StartupDecision::RunPrimary);
    assert_eq!(startup_decision(InstanceLock::Unavailable), StartupDecision::Abort);
}

#[test]
fn close_gestures_never_shut_down_under_minimize_to_tray() {
    let mut l = Lifecycle::new(ClosePolicy::MinimizeToTray);
    for _ in 0..5 {
        let a = l.request_close();
        assert_eq!(a, vec![Action::PreventClose, Action::HideWindow]);
        assert_eq!(l.state(), LifecycleState::RunningHidden);
    }
    l.activate();
    assert_eq!(l.state(), LifecycleState::RunningVisible);
    l.request_close();
    assert_eq!(l.state(), LifecycleState::RunningHidden);
    assert!(l.shutdown_timer_fired().is_empty());
    assert_eq!(l.state(), LifecycleState::RunningHidden);
}

#[test]
fn activate_twice_from_visible_only_refocuses() {
    let mut l = Lifecycle::new(ClosePolicy::MinimizeToTray);
    assert_eq!(l.activate(), vec![Action::FocusWindow]);
    assert_eq!(l.activate(), vec![Action::FocusWindow]);
    assert_eq!(l.state(), LifecycleState::RunningVisible);
}

#[test]
fn requests_during_shutdown_are_no_ops() {
    let mut l = Lifecycle::new(ClosePolicy::QuitOnClose);
    l.request_quit();
    assert_eq!(l.state(), LifecycleState::ShuttingDown);
    assert_eq!(l.request_close(), vec![Action::PreventClose]);
    assert!(l.request_quit().is_empty());
    assert!(l.activate().is_empty());
    assert!(l.on_tray_click(PointerButton::Left).is_empty());
    assert_eq!(l.state(), LifecycleState::ShuttingDown);
}

#[test]
fn terminated_is_final() {
    let mut l = Lifecycle::new(ClosePolicy::QuitOnClose);
    l.request_close();
    l.shutdown_timer_fired();
    assert_eq!(l.state(), LifecycleState::Terminated);
    assert!(l.shutdown_timer_fired().is_empty());
    assert!(l.request_quit().is_empty());
    assert!(l.activate().is_empty());
    assert_eq!(l.request_close(), vec![Action::PreventClose]);
    assert_eq!(l.state(), LifecycleState::Terminated);
}

#[test]
fn tray_quit_grace_not_shorter_than_close_grace() {
    let mut by_close = Lifecycle::new(ClosePolicy::QuitOnClose);
    let close = by_close.request_close();
    let mut by_tray = Lifecycle::new(ClosePolicy::QuitOnClose);
    let quit = by_tray.request_quit();
    let grace = |a: &Vec<Action>| {
        a.iter()
            .find_map(|x| match x {
                Action::ArmShutdownTimer { grace_ms } => Some(*grace_ms),
                _ => None,
            })
            .unwrap()
    };
    assert_eq!(grace(&close), 200);
    assert_eq!(grace(&quit), 500);
    assert!(grace(&quit) >= grace(&close));
    assert_eq!(CLOSE_GRACE_MS, 200);
    assert_eq!(QUIT_GRACE_MS, 500);
}

#[test]
fn close_under_quit_on_close_notifies_and_arms_short_timer() {
    let mut l = Lifecycle::new(ClosePolicy::QuitOnClose);
    let a = l.request_close();
    assert_eq!(
        a,
        vec![Action::PreventClose, Action::EmitBeforeQuit, Action::ArmShutdownTimer { grace_ms: 200 }]
    );
    assert_eq!(l.state(), LifecycleState::ShuttingDown);
}

#[test]
fn quit_from_hidden() {
    let mut l = hidden(ClosePolicy::MinimizeToTray);
    let a = l.request_quit();
    assert_eq!(a, vec![Action::EmitBeforeQuit, Action::ArmShutdownTimer { grace_ms: 500 }]);
    assert_eq!(l.state(), LifecycleState::ShuttingDown);
}

#[test]
fn handle_is_the_single_entry_point() {
    let mut l = Lifecycle::new(ClosePolicy::MinimizeToTray);
    assert_eq!(l.handle(LifecycleEvent::CloseRequested), vec![Action::PreventClose, Action::HideWindow]);
    assert_eq!(l.handle(LifecycleEvent::ActivateRequested), vec![Action::ShowWindow, Action::FocusWindow]);
    assert_eq!(l.handle(LifecycleEvent::ShutdownTimerFired), vec![]);
    assert_eq!(l.state(), LifecycleState::RunningVisible);
}

#[test]
fn menu_ids_dispatch() {
    assert_eq!(menu_command("show"), Some(TrayCommand::Show));
    assert_eq!(menu_command("quit"), Some(TrayCommand::Quit));
    assert_eq!(menu_command("Show"), None);
    assert_eq!(menu_command(""), None);
    assert_eq!(menu_command("quitx"), None);
    assert_eq!(TrayCommand::Show.event(), LifecycleEvent::ActivateRequested);
    assert_eq!(TrayCommand::Quit.event(), LifecycleEvent::QuitRequested);
}

#[test]
fn unknown_menu_id_is_ignored() {
    let mut l = hidden(ClosePolicy::MinimizeToTray);
    assert!(l.on_menu_selected("settings").is_empty());
    assert_eq!(l.state(), LifecycleState::RunningHidden);
}

#[test]
fn only_left_click_activates() {
    assert_eq!(click_event(PointerButton::Left), Some(LifecycleEvent::ActivateRequested));
    assert_eq!(click_event(PointerButton::Right), None);
    assert_eq!(click_event(PointerButton::Middle), None);
    let mut l = hidden(ClosePolicy::MinimizeToTray);
    assert!(l.on_tray_click(PointerButton::Right).is_empty());
    assert_eq!(l.state(), LifecycleState::RunningHidden);
    assert_eq!(l.on_tray_click(PointerButton::Left), vec![Action::ShowWindow, Action::FocusWindow]);
    assert_eq!(l.state(), LifecycleState::RunningVisible);
}

#[test]
fn tray_layout() {
    let t = create_tray();
    assert_eq!(t.entries, vec![TrayCommand::Show, TrayCommand::Quit]);
    assert!(!t.show_menu_on_left_click);
    assert_eq!(TrayCommand::Show.id(), "show");
    assert_eq!(TrayCommand::Quit.id(), "quit");
    assert_eq!(TrayCommand::Show.label(), "Show Nodes");
    assert_eq!(TrayCommand::Quit.label(), "Quit");
}
