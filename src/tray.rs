//! The tray icon's fixed menu and the mapping from tray input to lifecycle
//! events.

use vstd::prelude::*;
use crate::lifecycle::{Action, Lifecycle, LifecycleEvent, step_actions, next_state};

verus! {

/// An entry of the tray menu.
#[derive(Clone, Copy, Debug, PartialEq, Eq, Structural)]
pub enum TrayCommand {
    Show,
    Quit,
}

/// The stable identifier of each menu entry.
pub open spec fn command_id(c: TrayCommand) -> Seq<char> {
    match c {
        TrayCommand::Show => "show"@,
        TrayCommand::Quit => "quit"@,
    }
}

/// The text shown for each menu entry.
pub open spec fn command_label(c: TrayCommand) -> Seq<char> {
    match c {
        TrayCommand::Show => "Show Nodes"@,
        TrayCommand::Quit => "Quit"@,
    }
}

/// The lifecycle event that selecting `c` raises.
pub open spec fn command_event(c: TrayCommand) -> LifecycleEvent {
    match c {
        TrayCommand::Show => LifecycleEvent::ActivateRequested,
        TrayCommand::Quit => LifecycleEvent::QuitRequested,
    }
}

/// The menu command whose identifier is `id`, if any.
pub open spec fn command_of_id(id: Seq<char>) -> Option<TrayCommand> {
    if id == command_id(TrayCommand::Show) {
        Some(TrayCommand::Show)
    } else if id == command_id(TrayCommand::Quit) {
        Some(TrayCommand::Quit)
    } else {
        None
    }
}

impl TrayCommand {
    pub fn id(self) -> (r: &'static str)
        ensures
            r@ == command_id(self),
    {
        match self {
            TrayCommand::Show => "show",
            TrayCommand::Quit => "quit",
        }
    }

    /// The text shown for the entry.
    pub fn label(self) -> (r: &'static str)
        ensures
            r@ == command_label(self),
    {
        match self {
            TrayCommand::Show => "Show Nodes",
            TrayCommand::Quit => "Quit",
        }
    }

    pub fn event(self) -> (r: LifecycleEvent)
        ensures
            r == command_event(self),
    {
        match self {
            TrayCommand::Show => LifecycleEvent::ActivateRequested,
            TrayCommand::Quit => LifecycleEvent::QuitRequested,
        }
    }
}

/// Character-wise equality of two strings.
fn same_text(a: &str, b: &str) -> (r: bool)
    ensures
        r == (a@ == b@),
{
    let n = a.unicode_len();
    if n != b.unicode_len() {
        return false;
    }
    let mut i: usize = 0;
    while i < n
        invariant
            n == a@.len(),
            n == b@.len(),
            i <= n,
            forall|k: int| 0 <= k < i ==> a@[k] == b@[k],
        decreases n - i,
    {
        if a.get_char(i) != b.get_char(i) {
            return false;
        }
        i = i + 1;
    }
    assert(a@ =~= b@);
    true
}

/// Dispatch by stable identifier; unknown identifiers give `None`.
pub fn menu_command(id: &str) -> (r: Option<TrayCommand>)
    ensures
        r == command_of_id(id@),
{
    if same_text(id, TrayCommand::Show.id()) {
        Some(TrayCommand::Show)
    } else if same_text(id, TrayCommand::Quit.id()) {
        Some(TrayCommand::Quit)
    } else {
        None
    }
}

/// A mouse button on the tray icon.
#[derive(Clone, Copy, Debug, PartialEq, Eq, Structural)]
pub enum PointerButton {
    Left,
    Right,
    Middle,
}

/// The lifecycle event a click on the tray icon raises: only a left click
/// does anything.
pub open spec fn click_event_spec(b: PointerButton) -> Option<LifecycleEvent> {
    if b is Left { Some(LifecycleEvent::ActivateRequested) } else { None }
}

pub fn click_event(b: PointerButton) -> (r: Option<LifecycleEvent>)
    ensures
        r == click_event_spec(b),
{
    match b {
        PointerButton::Left => Some(LifecycleEvent::ActivateRequested),
        _ => None,
    }
}

/// The layout of the tray: its menu entries in order, and whether a left
/// click opens the menu.
pub struct TrayMenu {
    pub entries: Vec<TrayCommand>,
    pub show_menu_on_left_click: bool,
}

/// The tray built at startup: `Show` then `Quit`; a left click activates the
/// window rather than opening the menu.
pub fn create_tray() -> (r: TrayMenu)
    ensures
        r.entries@ == seq![TrayCommand::Show, TrayCommand::Quit],
        !r.show_menu_on_left_click,
{
    let mut entries: Vec<TrayCommand> = Vec::new();
    entries.push(TrayCommand::Show);
    entries.push(TrayCommand::Quit);
    assert(entries@ =~= seq![TrayCommand::Show, TrayCommand::Quit]);
    TrayMenu { entries, show_menu_on_left_click: false }
}

impl Lifecycle {
    /// A menu entry was selected: `show` activates, `quit` requests quit,
    /// anything else is ignored.
    pub fn on_menu_selected(&mut self, id: &str) -> (r: Vec<Action>)
        ensures
            final(self).policy_spec() == old(self).policy_spec(),
            match command_of_id(id@) {
                Some(c) => {
                    &&& final(self).state_spec() == next_state(
                        old(self).policy_spec(),
                        old(self).state_spec(),
                        command_event(c),
                    )
                    &&& r@ == step_actions(old(self).policy_spec(), old(self).state_spec(), command_event(c))
                },
                None => final(self).state_spec() == old(self).state_spec() && r@.len() == 0,
            },
    {
        match menu_command(id) {
            Some(c) => self.handle(c.event()),
            None => Vec::new(),
        }
    }

    /// The tray icon was clicked.
    pub fn on_tray_click(&mut self, b: PointerButton) -> (r: Vec<Action>)
        ensures
            final(self).policy_spec() == old(self).policy_spec(),
            match click_event_spec(b) {
                Some(e) => {
                    &&& final(self).state_spec() == next_state(old(self).policy_spec(), old(self).state_spec(), e)
                    &&& r@ == step_actions(old(self).policy_spec(), old(self).state_spec(), e)
                },
                None => final(self).state_spec() == old(self).state_spec() && r@.len() == 0,
            },
    {
        match click_event(b) {
            Some(e) => self.handle(e),
            None => Vec::new(),
        }
    }
}

} // verus!
