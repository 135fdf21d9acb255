//! Timing and focus rules of the tray application's event loop.
use vstd::prelude::*;

use crate::controller_types::UiAction;
use crate::persistence::PersistedWindowPosition;
use crate::value_controls::elapsed;

verus! {

/// How often a snapshot is taken while the window is active.
pub const ACTIVE_SNAPSHOT_INTERVAL_MS: u64 = 1_000;

/// How often a snapshot is taken while the window is not active.
pub const INACTIVE_SNAPSHOT_INTERVAL_MS: u64 = 30_000;

/// The coordinate that Windows reports for a minimized window.
pub const MINIMIZED_WINDOW_SENTINEL_COORDINATE: i32 = -32_000;

pub fn snapshot_poll_interval_ms(window_active: bool) -> (r: u64)
    ensures
        r == (if window_active {
            ACTIVE_SNAPSHOT_INTERVAL_MS
        } else {
            INACTIVE_SNAPSHOT_INTERVAL_MS
        }),
{
    if window_active {
        ACTIVE_SNAPSHOT_INTERVAL_MS
    } else {
        INACTIVE_SNAPSHOT_INTERVAL_MS
    }
}

/// A snapshot is due when none was requested yet, or when the interval for
/// the window's activity has passed since the last request.
pub fn snapshot_poll_due(last_snapshot_request_ms: Option<u64>, now_ms: u64, window_active: bool) -> (r:
    bool)
    ensures
        r == match last_snapshot_request_ms {
            None => true,
            Some(last) => elapsed(now_ms, last) >= (if window_active {
                ACTIVE_SNAPSHOT_INTERVAL_MS
            } else {
                INACTIVE_SNAPSHOT_INTERVAL_MS
            }),
        },
{
    match last_snapshot_request_ms {
        None => true,
        Some(last) => now_ms.saturating_sub(last) >= snapshot_poll_interval_ms(window_active),
    }
}

/// Opening the window while it is shown focuses it instead.
pub fn should_focus_existing_window(action: &UiAction, window_visible: bool) -> (r: bool)
    ensures
        r == (*action is OpenWindow && window_visible),
{
    matches!(action, UiAction::OpenWindow) && window_visible
}

/// A global shortcut runs unless the settings are open in the active window
/// (where the keys are being captured).
pub fn should_execute_registered_shortcut(settings_open: bool, window_active: bool) -> (r: bool)
    ensures
        r == !(settings_open && window_active),
{
    !(settings_open && window_active)
}

/// The position to remember: the window's normal placement, once it was shown.
pub fn persisted_window_position_from_placement(
    window_shown_once: bool,
    normal_left: i32,
    normal_top: i32,
) -> (r: Option<PersistedWindowPosition>)
    ensures
        r == (if window_shown_once {
            Some(PersistedWindowPosition { x: normal_left, y: normal_top })
        } else {
            None
        }),
{
    if !window_shown_once {
        return None;
    }
    Some(PersistedWindowPosition { x: normal_left, y: normal_top })
}

/// A remembered position is restored unless it is the minimized sentinel.
pub fn should_restore_window_position(position: PersistedWindowPosition) -> (r: bool)
    ensures
        r == !(position.x <= MINIMIZED_WINDOW_SENTINEL_COORDINATE && position.y
            <= MINIMIZED_WINDOW_SENTINEL_COORDINATE),
{
    !(position.x <= MINIMIZED_WINDOW_SENTINEL_COORDINATE && position.y
        <= MINIMIZED_WINDOW_SENTINEL_COORDINATE)
}

} // verus!
