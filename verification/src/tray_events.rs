//! Tray icon clicks: a second left click soon after the first opens the window.
use vstd::prelude::*;

use crate::controller_types::UiAction;

verus! {

/// The longest gap between the two clicks of a double click, in milliseconds.
pub const DEFAULT_DOUBLE_CLICK_MS: u64 = 500;

#[derive(Clone, Copy, Debug, Eq, PartialEq)]
pub enum TrayAction {
    OpenWindow,
}

/// Remembers the last left click that did not complete a double click.
#[derive(Debug)]
pub struct TrayClickTracker {
    last_left_up_at_ms: Option<u64>,
}

impl View for TrayClickTracker {
    type V = Option<u64>;

    closed spec fn view(&self) -> Option<u64> {
        self.last_left_up_at_ms
    }
}

/// A click completes a double click when an earlier click is remembered and
/// no more than the double-click time has passed since it.
pub open spec fn completes_double_click(last: Option<u64>, now: u64) -> bool {
    match last {
        Some(previous) => (if now >= previous {
            now - previous
        } else {
            0
        }) <= DEFAULT_DOUBLE_CLICK_MS,
        None => false,
    }
}

impl Default for TrayClickTracker {
    fn default() -> (t: Self)
        ensures
            t@ is None,
    {
        TrayClickTracker { last_left_up_at_ms: None }
    }
}

impl TrayClickTracker {
    /// A left button release on the tray icon. A double click opens the
    /// window and is forgotten; any other click starts a new window.
    pub fn left_up_at(&mut self, now_ms: u64) -> (r: Option<TrayAction>)
        ensures
            completes_double_click(old(self)@, now_ms) ==> r == Some(TrayAction::OpenWindow)
                && final(self)@ is None,
            !completes_double_click(old(self)@, now_ms) ==> r is None && final(self)@ == Some(
                now_ms,
            ),
    {
        let action = match self.last_left_up_at_ms {
            Some(previous) if now_ms.saturating_sub(previous) <= DEFAULT_DOUBLE_CLICK_MS => Some(
                TrayAction::OpenWindow,
            ),
            _ => None,
        };
        self.last_left_up_at_ms = if action.is_some() {
            None
        } else {
            Some(now_ms)
        };
        action
    }
}

/// One left click on the tray icon: the remembered click afterwards, and
/// whether the click opens the window.
pub open spec fn click_step(last: Option<u64>, now: u64) -> (Option<u64>, bool) {
    if completes_double_click(last, now) {
        (None, true)
    } else {
        (Some(now), false)
    }
}

/// Three quick clicks open the window once: the click after a completed
/// double click opens nothing and starts a new double-click window.
pub proof fn law_double_click_is_consumed(last: Option<u64>, now: u64, later: u64)
    requires
        click_step(last, now).1,
    ensures
        !click_step(click_step(last, now).0, later).1,
        click_step(click_step(last, now).0, later).0 == Some(later),
{
}

/// What happened at the tray icon: a menu item was chosen, or the icon was
/// clicked.
#[derive(Clone, Copy, Debug, Eq, PartialEq)]
pub enum TrayEvent {
    OpenItem,
    RefreshItem,
    AutostartItem,
    ExitItem,
    OtherMenuItem,
    LeftButtonUp,
    LeftDoubleClick,
    Other,
}

impl TrayClickTracker {
    /// The action for a tray event: the menu items open the window, refresh,
    /// toggle autostart and exit; a double click opens the window, and so
    /// does a left click that completes one.
    pub fn action_for_event(&mut self, event: TrayEvent, now_ms: u64) -> (r: Option<UiAction>)
        ensures
            event == TrayEvent::LeftButtonUp ==> final(self)@ == click_step(old(self)@, now_ms).0
                && r == (if click_step(old(self)@, now_ms).1 {
                Some(UiAction::OpenWindow)
            } else {
                None
            }),
            event != TrayEvent::LeftButtonUp ==> final(self)@ == old(self)@ && r == match event {
                TrayEvent::OpenItem => Some(UiAction::OpenWindow),
                TrayEvent::RefreshItem => Some(UiAction::Refresh),
                TrayEvent::AutostartItem => Some(UiAction::ToggleAutostart),
                TrayEvent::ExitItem => Some(UiAction::Exit),
                TrayEvent::LeftDoubleClick => Some(UiAction::OpenWindow),
                _ => None,
            },
    {
        match event {
            TrayEvent::OpenItem => Some(UiAction::OpenWindow),
            TrayEvent::RefreshItem => Some(UiAction::Refresh),
            TrayEvent::AutostartItem => Some(UiAction::ToggleAutostart),
            TrayEvent::ExitItem => Some(UiAction::Exit),
            TrayEvent::OtherMenuItem => None,
            TrayEvent::LeftButtonUp => match self.left_up_at(now_ms) {
                Some(TrayAction::OpenWindow) => Some(UiAction::OpenWindow),
                None => None,
            },
            TrayEvent::LeftDoubleClick => Some(UiAction::OpenWindow),
            TrayEvent::Other => None,
        }
    }
}

} // verus!
