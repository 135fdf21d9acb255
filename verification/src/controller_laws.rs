//! Properties of the tray controller that hold across actions and events.
use vstd::prelude::*;

use crate::app_controller::{
    action_model, backend_change_stage, cache_complete, cache_lookup, cached_brightness,
    cached_contrast, cached_display, event_model, flush_model, hdr_finished_model, initial_model,
    missing_monitor_stage, readings_stage, reading, recently_changed, shown, snapshot_model,
    ControllerModel, MonitorSnapshot, UiAction, WorkerEvent,
};

verus! {

/// While an HDR change is pending, neither the HDR toggle nor a picture
/// control can be used.
pub open spec fn pending_disables_controls(m: ControllerModel) -> bool {
    m.ui.hdr_pending ==> !m.ui.hdr_toggle_enabled && !m.ui.brightness.enabled
        && !m.ui.contrast.enabled
}

/// The controller starts with nothing pending.
pub proof fn law_initially_nothing_pending()
    ensures
        !initial_model().ui.hdr_pending,
        pending_disables_controls(initial_model()),
{
}

proof fn lemma_pending_through_action(m: ControllerModel, a: UiAction, now: u64)
    requires
        pending_disables_controls(m),
    ensures
        pending_disables_controls(action_model(m, a, now).0),
        m.ui.hdr_pending ==> action_model(m, a, now).0.ui.hdr_pending,
{
}

proof fn lemma_pending_through_snapshot(m: ControllerModel, s: MonitorSnapshot, now: u64)
    requires
        pending_disables_controls(m),
    ensures
        pending_disables_controls(snapshot_model(m, s, now)),
        m.ui.hdr_pending ==> snapshot_model(m, s, now).ui.hdr_pending,
{
    reveal(snapshot_model);
}

proof fn lemma_pending_through_event(m: ControllerModel, e: WorkerEvent, now: u64)
    requires
        pending_disables_controls(m),
    ensures
        pending_disables_controls(event_model(m, e, now)),
        m.ui.hdr_pending && !(e is HdrUpdateFinished) ==> event_model(m, e, now).ui.hdr_pending,
{
    match e {
        WorkerEvent::Snapshot(s) => {
            lemma_pending_through_snapshot(m, s, now);
        },
        WorkerEvent::HdrUpdateFinished { .. } => {
            reveal(hdr_finished_model);
        },
        WorkerEvent::SdrContentBrightnessFinished { .. } => {
            reveal(crate::app_controller::sdr_finished_model);
        },
        _ => {},
    }
}

/// A pending HDR change keeps the toggle and the picture controls disabled
/// through every action, every worker event other than its completion, and
/// every flush; only the completion of the change lifts it.
pub proof fn law_pending_hdr_change_keeps_controls_disabled(
    m: ControllerModel,
    a: UiAction,
    e: WorkerEvent,
    now: u64,
)
    requires
        pending_disables_controls(m),
    ensures
        pending_disables_controls(action_model(m, a, now).0),
        pending_disables_controls(event_model(m, e, now)),
        pending_disables_controls(flush_model(m, now).0),
        m.ui.hdr_pending && !(e is HdrUpdateFinished) ==> event_model(m, e, now).ui.hdr_pending,
        m.ui.hdr_pending ==> action_model(m, a, now).0.ui.hdr_pending,
{
    lemma_pending_through_action(m, a, now);
    lemma_pending_through_event(m, e, now);
}

/// A control the user changed within the guard time keeps the user's value
/// when a snapshot arrives from the same picture backend for a present
/// monitor: a stale reading does not undo an edit.
pub proof fn law_recent_edit_survives_snapshot(m: ControllerModel, s: MonitorSnapshot, now: u64)
    requires
        recently_changed(m.brightness.last_user_change_ms, now),
        recently_changed(m.contrast.last_user_change_ms, now),
        m.picture_backend == Some(s.picture_backend),
        s.has_monitor,
    ensures
        snapshot_model(m, s, now).ui.brightness.value == m.ui.brightness.value,
        snapshot_model(m, s, now).ui.brightness.text == m.ui.brightness.text,
        snapshot_model(m, s, now).ui.contrast.value == m.ui.contrast.value,
        snapshot_model(m, s, now).ui.contrast.text == m.ui.contrast.text,
{
    reveal(snapshot_model);
}

/// Once the guard time has passed, a snapshot's value wins: the control
/// shows the reading, held to its maximum.
pub proof fn law_snapshot_wins_after_guard(m: ControllerModel, s: MonitorSnapshot, now: u64)
    requires
        !recently_changed(m.brightness.last_user_change_ms, now),
        !(m.awaiting_reconcile && m.brightness.touched_since_restore),
        s.brightness.available,
    ensures
        snapshot_model(m, s, now).ui.brightness.value == (if s.brightness.value
            < s.brightness.maximum {
            s.brightness.value
        } else {
            s.brightness.maximum
        }),
{
    reveal(snapshot_model);
}

/// The snapshot guard works per control: a control the user changed within
/// the guard time keeps its value and text when a snapshot of a present
/// monitor arrives; a control not changed recently takes the snapshot's
/// reading, enabled, or, when the snapshot has none, the value cached for
/// the monitor (disabled) or nothing. This holds with the picture backend
/// unchanged, no reconcile of restored values under way, and no HDR change
/// pending.
pub proof fn law_snapshot_guard_is_per_control(m: ControllerModel, s: MonitorSnapshot, now: u64)
    requires
        s.has_monitor,
        m.picture_backend is None || m.picture_backend == Some(s.picture_backend),
        !m.awaiting_reconcile,
        !m.ui.hdr_pending,
    ensures
        ({
            let r = event_model(m, WorkerEvent::Snapshot(s), now);
            let seen = readings_stage(missing_monitor_stage(backend_change_stage(m, s), s), s);
            let key = s.selected_monitor_key@;
            &&& recently_changed(m.brightness.last_user_change_ms, now) ==> r.ui.brightness.value
                == m.ui.brightness.value && r.ui.brightness.text == m.ui.brightness.text
            &&& !recently_changed(m.brightness.last_user_change_ms, now) ==> r.ui.brightness == (
            if s.brightness.available {
                shown(reading(s.brightness), true)
            } else {
                cached_display(cached_brightness(seen, key), true)
            })
            &&& recently_changed(m.contrast.last_user_change_ms, now) ==> r.ui.contrast.value
                == m.ui.contrast.value && r.ui.contrast.text == m.ui.contrast.text
            &&& !recently_changed(m.contrast.last_user_change_ms, now) ==> r.ui.contrast == (
            if s.contrast.available {
                shown(reading(s.contrast), true)
            } else {
                cached_display(cached_contrast(seen, key), true)
            })
        }),
{
    reveal(snapshot_model);
}

/// Turning HDR off with both DDC values cached for the selected monitor
/// shows both cached values, enabled, as soon as the change succeeds.
pub proof fn law_cached_hdr_off_restores_both_controls(m: ControllerModel)
    requires
        cache_complete(m.ddc_cache, m.ui.selected_monitor_key),
    ensures
        ({
            let e = cache_lookup(m.ddc_cache, m.ui.selected_monitor_key)->Some_0;
            let r = hdr_finished_model(m, false, None, true);
            &&& r.ui.brightness == shown(e.brightness->Some_0, true)
            &&& r.ui.contrast == shown(e.contrast->Some_0, true)
            &&& !r.ui.hdr_pending
        }),
{
    reveal(hdr_finished_model);
}

} // verus!
