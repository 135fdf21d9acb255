//! The tray application's controller: turns user actions and worker events
//! into the window's state and into requests for the worker.
//!
//! Picture writes are throttled per control. A control the user changed is
//! shielded from snapshots for a short guard time, so a stale reading does
//! not undo the edit. An HDR change disables the picture controls until the
//! worker reports that it finished. DDC picture values are cached per
//! monitor, so that while HDR is active the DDC contrast can still be shown
//! and, when HDR is turned off, the cached values can be restored at once.
use vstd::prelude::*;

use crate::counting::{first_where, lemma_count_prefix_step, lemma_first_where,
    lemma_first_where_is};
use crate::persistence::PersistedSettings;
use crate::text::{decimal_seq, decimal_string};
use crate::value_controls::{elapsed, schedule_spec, tick_spec, ThrottleView, WriteThrottle};

pub use crate::controller_types::{
    copy_choices, copy_ui_state, effects_view, feature_code, feature_default, input_route_value,
    shortcut_default, ui_default, ChoiceView, ControllerEffect, EffectView, FeatureId,
    FeatureSnapshot, FeatureState, FeatureView, InputRoute, MonitorChoice, MonitorSnapshot,
    PictureBackend, RequestView, ShortcutFieldState, ShortcutTarget, ShortcutView, UiAction,
    UiPane, UiState, UiView, WorkerEvent, WorkerRequest, BRIGHTNESS_CODE, CONTRAST_CODE,
    INPUT_CODE, INPUT_DP_VALUE, INPUT_HDMI_VALUE, INPUT_USB_C_VALUE,
};

verus! {

/// The throttle interval of live picture and input writes.
pub const DEFAULT_LIVE_WRITE_INTERVAL_MS: u64 = 140;

/// How long a control the user changed is shielded from snapshot values.
pub const SNAPSHOT_USER_GUARD_MS: u64 = 1_500;

/// The bookkeeping of one picture control.
#[derive(Debug)]
pub struct PictureSlot {
    pub throttle: WriteThrottle,
    /// The value the user set and the monitor has not yet confirmed.
    pub optimistic_value: Option<u32>,
    pub last_user_change_ms: Option<u64>,
    /// The control was available in the latest snapshot.
    pub available: bool,
    /// The user changed the control since cached values were restored.
    pub touched_since_restore: bool,
}

pub struct SlotView {
    pub throttle: ThrottleView,
    pub optimistic_value: Option<u32>,
    pub last_user_change_ms: Option<u64>,
    pub available: bool,
    pub touched_since_restore: bool,
}

impl View for PictureSlot {
    type V = SlotView;

    open spec fn view(&self) -> SlotView {
        SlotView {
            throttle: self.throttle@,
            optimistic_value: self.optimistic_value,
            last_user_change_ms: self.last_user_change_ms,
            available: self.available,
            touched_since_restore: self.touched_since_restore,
        }
    }
}

/// The DDC picture values last read from one monitor, as (value, maximum).
#[derive(Debug)]
pub struct DdcCacheEntry {
    pub key: String,
    pub brightness: Option<(u32, u32)>,
    pub contrast: Option<(u32, u32)>,
}

pub struct CacheView {
    pub key: Seq<char>,
    pub brightness: Option<(u32, u32)>,
    pub contrast: Option<(u32, u32)>,
}

impl View for DdcCacheEntry {
    type V = CacheView;

    open spec fn view(&self) -> CacheView {
        CacheView { key: self.key@, brightness: self.brightness, contrast: self.contrast }
    }
}

pub open spec fn cache_view(s: Seq<DdcCacheEntry>) -> Seq<CacheView> {
    s.map_values(|e: DdcCacheEntry| e@)
}

/// The controller's whole state.
pub struct ControllerModel {
    pub ui: UiView,
    pub window_hidden: bool,
    pub brightness: SlotView,
    pub contrast: SlotView,
    pub input_throttle: ThrottleView,
    pub input_last_user_change_ms: Option<u64>,
    pub durable_selected_monitor_key: Seq<char>,
    pub hdr_available: bool,
    /// The picture backend of the latest snapshot.
    pub picture_backend: Option<PictureBackend>,
    /// The next flush starts by cancelling queued picture writes.
    pub cancel_queued: bool,
    pub ddc_cache: Seq<CacheView>,
    /// The Windows SDR brightness of the latest snapshot, as (value, maximum).
    pub confirmed_sdr_brightness: Option<(u32, u32)>,
    /// Cached values were restored; the next snapshot reconciles them.
    pub awaiting_reconcile: bool,
}

/// Turns user actions and worker events into UI state and worker requests.
#[derive(Debug)]
pub struct AppController {
    state: UiState,
    window_hidden: bool,
    brightness: PictureSlot,
    contrast: PictureSlot,
    input_throttle: WriteThrottle,
    input_last_user_change_ms: Option<u64>,
    durable_selected_monitor_key: String,
    hdr_available: bool,
    picture_backend: Option<PictureBackend>,
    cancel_queued: bool,
    ddc_cache: Vec<DdcCacheEntry>,
    confirmed_sdr_brightness: Option<(u32, u32)>,
    awaiting_reconcile: bool,
}

impl View for AppController {
    type V = ControllerModel;

    closed spec fn view(&self) -> ControllerModel {
        ControllerModel {
            ui: self.state@,
            window_hidden: self.window_hidden,
            brightness: self.brightness@,
            contrast: self.contrast@,
            input_throttle: self.input_throttle@,
            input_last_user_change_ms: self.input_last_user_change_ms,
            durable_selected_monitor_key: self.durable_selected_monitor_key@,
            hdr_available: self.hdr_available,
            picture_backend: self.picture_backend,
            cancel_queued: self.cancel_queued,
            ddc_cache: cache_view(self.ddc_cache@),
            confirmed_sdr_brightness: self.confirmed_sdr_brightness,
            awaiting_reconcile: self.awaiting_reconcile,
        }
    }
}

// ---------------------------------------------------------------------
// The rules, over the model.
// ---------------------------------------------------------------------

pub open spec fn min_u32(a: u32, b: u32) -> u32 {
    if a < b {
        a
    } else {
        b
    }
}

pub open spec fn at_least_one(a: u32) -> u32 {
    if a < 1 {
        1
    } else {
        a
    }
}

/// A throttle with nothing pending and no send remembered.
pub open spec fn throttle_reset(t: ThrottleView) -> ThrottleView {
    ThrottleView { last_sent_at_ms: None, pending_value: None, ..t }
}

pub open spec fn fresh_throttle() -> ThrottleView {
    ThrottleView {
        interval_ms: DEFAULT_LIVE_WRITE_INTERVAL_MS,
        last_sent_at_ms: None,
        pending_value: None,
    }
}

pub open spec fn fresh_slot() -> SlotView {
    SlotView {
        throttle: fresh_throttle(),
        optimistic_value: None,
        last_user_change_ms: None,
        available: false,
        touched_since_restore: false,
    }
}

/// The controller at start: window hidden, nothing known.
pub open spec fn initial_model() -> ControllerModel {
    ControllerModel {
        ui: ui_default(),
        window_hidden: true,
        brightness: fresh_slot(),
        contrast: fresh_slot(),
        input_throttle: fresh_throttle(),
        input_last_user_change_ms: None,
        durable_selected_monitor_key: Seq::empty(),
        hdr_available: false,
        picture_backend: None,
        cancel_queued: false,
        ddc_cache: Seq::empty(),
        confirmed_sdr_brightness: None,
        awaiting_reconcile: false,
    }
}

/// A change is recent while the guard time has not passed since it.
pub open spec fn recently_changed(last: Option<u64>, now: u64) -> bool {
    match last {
        Some(t) => elapsed(now, t) < SNAPSHOT_USER_GUARD_MS,
        None => false,
    }
}

/// The request that writes a picture value: brightness goes to Windows'
/// SDR content brightness while that backend serves it, everything else is
/// a DDC write of the control's code.
pub open spec fn picture_request(f: FeatureId, backend: Option<PictureBackend>, value: u32) -> RequestView {
    if f == FeatureId::Brightness && backend == Some(PictureBackend::WindowsSdr) {
        RequestView::SetSdrContentBrightness { percent: value }
    } else {
        RequestView::WriteFeature { code: feature_code(f), value }
    }
}

pub open spec fn feature_of(m: ControllerModel, f: FeatureId) -> FeatureView {
    match f {
        FeatureId::Brightness => m.ui.brightness,
        FeatureId::Contrast => m.ui.contrast,
    }
}

pub open spec fn slot_of(m: ControllerModel, f: FeatureId) -> SlotView {
    match f {
        FeatureId::Brightness => m.brightness,
        FeatureId::Contrast => m.contrast,
    }
}

pub open spec fn with_feature(m: ControllerModel, f: FeatureId, fv: FeatureView, sv: SlotView) -> ControllerModel {
    match f {
        FeatureId::Brightness => ControllerModel {
            ui: UiView { brightness: fv, ..m.ui },
            brightness: sv,
            ..m
        },
        FeatureId::Contrast => ControllerModel {
            ui: UiView { contrast: fv, ..m.ui },
            contrast: sv,
            ..m
        },
    }
}

/// A user edit of a picture control: ignored while the control is disabled;
/// otherwise the value, held to the maximum, is shown at once, shielded from
/// snapshots, and offered to the control's throttle.
pub open spec fn edit_feature_spec(
    fv: FeatureView,
    sv: SlotView,
    value: u32,
    now: u64,
    awaiting_reconcile: bool,
) -> (FeatureView, SlotView, Option<u32>) {
    if !fv.enabled {
        (fv, sv, None)
    } else {
        let c = min_u32(value, fv.maximum);
        let (t, sent) = schedule_spec(sv.throttle, now, c);
        (
            FeatureView { value: c, text: decimal_seq(c as nat), ..fv },
            SlotView {
                throttle: t,
                optimistic_value: Some(c),
                last_user_change_ms: Some(now),
                touched_since_restore: sv.touched_since_restore || awaiting_reconcile,
                ..sv
            },
            sent,
        )
    }
}

pub open spec fn edit_model(m: ControllerModel, f: FeatureId, value: u32, now: u64) -> (ControllerModel, Seq<EffectView>) {
    let (fv, sv, sent) = edit_feature_spec(
        feature_of(m, f),
        slot_of(m, f),
        value,
        now,
        m.awaiting_reconcile,
    );
    (
        with_feature(m, f, fv, sv),
        match sent {
            Some(v) => seq![EffectView::Worker(picture_request(f, m.picture_backend, v))],
            None => Seq::empty(),
        },
    )
}

pub open spec fn input_summary_of(route: InputRoute) -> Seq<char> {
    match route {
        InputRoute::Unknown => "Input"@,
        InputRoute::UsbC => "USB-C"@,
        InputRoute::DisplayPort => "DP"@,
        InputRoute::Hdmi => "HDMI"@,
    }
}

/// Selecting an input: ignored for no input or while input is disabled;
/// otherwise shown at once, shielded from snapshots, and throttled.
pub open spec fn set_input_model(m: ControllerModel, route: InputRoute, now: u64) -> (ControllerModel, Seq<EffectView>) {
    match input_route_value(route) {
        None => (m, Seq::empty()),
        Some(v) => if !m.ui.input_enabled {
            (m, Seq::empty())
        } else {
            let (t, sent) = schedule_spec(m.input_throttle, now, v);
            (
                ControllerModel {
                    ui: UiView {
                        selected_input: route,
                        input_summary: input_summary_of(route),
                        ..m.ui
                    },
                    input_throttle: t,
                    input_last_user_change_ms: Some(now),
                    ..m
                },
                match sent {
                    Some(x) => seq![EffectView::Worker(RequestView::SetInput { value: x })],
                    None => Seq::empty(),
                },
            )
        },
    }
}

/// The cache entry of a monitor.
pub open spec fn key_is(key: Seq<char>) -> spec_fn(CacheView) -> bool {
    |e: CacheView| e.key == key
}

pub open spec fn cache_lookup(cache: Seq<CacheView>, key: Seq<char>) -> Option<CacheView> {
    match first_where(cache, key_is(key)) {
        Some(i) => Some(cache[i]),
        None => None,
    }
}

/// Both DDC picture values of a monitor are cached.
pub open spec fn cache_complete(cache: Seq<CacheView>, key: Seq<char>) -> bool {
    cache_lookup(cache, key) matches Some(e) && e.brightness is Some && e.contrast is Some
}

pub open spec fn or_else<T>(new: Option<T>, old: Option<T>) -> Option<T> {
    match new {
        Some(v) => Some(v),
        None => old,
    }
}

/// Records the DDC values read for a monitor; values not read stay as cached.
pub open spec fn cache_update(
    cache: Seq<CacheView>,
    key: Seq<char>,
    b: Option<(u32, u32)>,
    c: Option<(u32, u32)>,
) -> Seq<CacheView> {
    match first_where(cache, key_is(key)) {
        Some(i) => cache.update(
            i,
            CacheView {
                key,
                brightness: or_else(b, cache[i].brightness),
                contrast: or_else(c, cache[i].contrast),
            },
        ),
        None => cache.push(CacheView { key, brightness: b, contrast: c }),
    }
}

/// A snapshot value as (value, maximum): the value held to the maximum, the
/// maximum at least one.
pub open spec fn reading(s: FeatureSnapshot) -> (u32, u32) {
    (min_u32(s.value, s.maximum), at_least_one(s.maximum))
}

pub open spec fn available_reading(s: FeatureSnapshot) -> Option<(u32, u32)> {
    if s.available {
        Some(reading(s))
    } else {
        None
    }
}

/// A reading shown as a control.
pub open spec fn shown(r: (u32, u32), enabled: bool) -> FeatureView {
    FeatureView { value: r.0, maximum: r.1, text: decimal_seq(r.0 as nat), enabled }
}

/// What a control shows when the snapshot has no value for it: the cached
/// DDC value, disabled, for a present monitor; otherwise nothing.
pub open spec fn cached_display(cached: Option<(u32, u32)>, has_monitor: bool) -> FeatureView {
    match cached {
        Some(r) => if has_monitor {
            shown(r, false)
        } else {
            feature_default()
        },
        None => feature_default(),
    }
}

/// A snapshot value for one control: a control the user changed recently
/// (or since cached values were restored) keeps its value; otherwise the
/// snapshot value is shown, or the cached display when there is none.
/// Controls stay disabled while an HDR change is pending.
pub open spec fn apply_feature_spec(
    fv: FeatureView,
    sv: SlotView,
    s: FeatureSnapshot,
    cached: Option<(u32, u32)>,
    has_monitor: bool,
    now: u64,
    pending: bool,
    reconciling: bool,
) -> (FeatureView, SlotView) {
    if (reconciling && sv.touched_since_restore) || recently_changed(sv.last_user_change_ms, now) {
        (
            if s.available {
                FeatureView { maximum: at_least_one(s.maximum), enabled: !pending, ..fv }
            } else {
                fv
            },
            SlotView { available: s.available, touched_since_restore: false, ..sv },
        )
    } else if !s.available {
        (
            cached_display(cached, has_monitor),
            SlotView {
                optimistic_value: None,
                last_user_change_ms: None,
                available: false,
                touched_since_restore: false,
                ..sv
            },
        )
    } else {
        (
            shown(reading(s), !pending),
            SlotView {
                optimistic_value: None,
                last_user_change_ms: None,
                available: true,
                touched_since_restore: false,
                ..sv
            },
        )
    }
}

pub open spec fn clear_slot_guard(sv: SlotView) -> SlotView {
    SlotView { optimistic_value: None, last_user_change_ms: None, ..sv }
}

/// A change of picture backend drops the pending picture writes and the
/// picture guards, and queues a cancel for the worker.
pub open spec fn backend_change_stage(m: ControllerModel, s: MonitorSnapshot) -> ControllerModel {
    if m.picture_backend matches Some(p) && p != s.picture_backend {
        ControllerModel {
            brightness: clear_slot_guard(
                SlotView { throttle: throttle_reset(m.brightness.throttle), ..m.brightness },
            ),
            contrast: clear_slot_guard(
                SlotView { throttle: throttle_reset(m.contrast.throttle), ..m.contrast },
            ),
            cancel_queued: true,
            ..m
        }
    } else {
        m
    }
}

/// A snapshot without a monitor drops every user guard.
pub open spec fn missing_monitor_stage(m: ControllerModel, s: MonitorSnapshot) -> ControllerModel {
    if !s.has_monitor {
        clear_guards(m)
    } else {
        m
    }
}

/// DDC readings of a present monitor go to its cache entry; a Windows SDR
/// brightness reading becomes the confirmed SDR brightness.
pub open spec fn readings_stage(m: ControllerModel, s: MonitorSnapshot) -> ControllerModel {
    ControllerModel {
        ddc_cache: if s.has_monitor && s.picture_backend == PictureBackend::Ddc {
            cache_update(
                m.ddc_cache,
                s.selected_monitor_key@,
                available_reading(s.brightness),
                available_reading(s.contrast),
            )
        } else {
            m.ddc_cache
        },
        confirmed_sdr_brightness: if s.picture_backend == PictureBackend::WindowsSdr
            && s.brightness.available {
            Some(reading(s.brightness))
        } else {
            m.confirmed_sdr_brightness
        },
        ..m
    }
}

pub open spec fn cached_brightness(m: ControllerModel, key: Seq<char>) -> Option<(u32, u32)> {
    match cache_lookup(m.ddc_cache, key) {
        Some(e) => e.brightness,
        None => None,
    }
}

pub open spec fn cached_contrast(m: ControllerModel, key: Seq<char>) -> Option<(u32, u32)> {
    match cache_lookup(m.ddc_cache, key) {
        Some(e) => e.contrast,
        None => None,
    }
}

/// Both picture controls take the snapshot's values under their guards.
pub open spec fn picture_stage(m: ControllerModel, s: MonitorSnapshot, now: u64) -> ControllerModel {
    let key = s.selected_monitor_key@;
    let (bf, bs) = apply_feature_spec(
        m.ui.brightness,
        m.brightness,
        s.brightness,
        cached_brightness(m, key),
        s.has_monitor,
        now,
        m.ui.hdr_pending,
        m.awaiting_reconcile,
    );
    let (cf, cs) = apply_feature_spec(
        m.ui.contrast,
        m.contrast,
        s.contrast,
        cached_contrast(m, key),
        s.has_monitor,
        now,
        m.ui.hdr_pending,
        m.awaiting_reconcile,
    );
    ControllerModel {
        ui: UiView { brightness: bf, contrast: cf, ..m.ui },
        brightness: bs,
        contrast: cs,
        ..m
    }
}

/// The monitor's texts, choices and HDR state are taken over; the input
/// too, unless the user changed it recently.
pub open spec fn texts_stage(m: ControllerModel, s: MonitorSnapshot, now: u64) -> ControllerModel {
    let input_recent = recently_changed(m.input_last_user_change_ms, now);
    ControllerModel {
        ui: UiView {
            monitor_title: s.monitor_title@,
            hdr_status: s.hdr_status@,
            hdr_enabled: s.hdr_enabled,
            hdr_toggle_enabled: s.hdr_available && !m.ui.hdr_pending,
            monitor_choices: crate::controller_types::choices_view(s.monitor_choices@),
            selected_monitor_key: s.selected_monitor_key@,
            status_text: if s.diagnostic_status@.len() > 0 {
                s.diagnostic_status@
            } else {
                m.ui.status_text
            },
            input_summary: if input_recent {
                m.ui.input_summary
            } else {
                s.input_summary@
            },
            selected_input: if input_recent {
                m.ui.selected_input
            } else {
                s.selected_input
            },
            input_enabled: s.input_enabled,
            no_monitor: !s.has_monitor,
            ..m.ui
        },
        input_last_user_change_ms: if input_recent {
            m.input_last_user_change_ms
        } else {
            None
        },
        hdr_available: s.hdr_available,
        picture_backend: Some(s.picture_backend),
        awaiting_reconcile: false,
        ..m
    }
}

/// A snapshot from the worker, in order: a change of picture backend drops
/// pending picture writes and queues a cancel; a missing monitor drops all
/// user guards; DDC and SDR readings are recorded; the picture controls are
/// updated under their guards; the monitor's texts, HDR state and input are
/// taken over.
#[verifier::opaque]
pub open spec fn snapshot_model(m: ControllerModel, s: MonitorSnapshot, now: u64) -> ControllerModel {
    texts_stage(
        picture_stage(
            readings_stage(missing_monitor_stage(backend_change_stage(m, s), s), s),
            s,
            now,
        ),
        s,
        now,
    )
}

/// The end of an HDR change is reported, and the toggle is usable again
/// where HDR is available.
pub open spec fn hdr_done_stage(m: ControllerModel, enabled: bool, error: Option<Seq<char>>) -> ControllerModel {
    ControllerModel {
        ui: UiView {
            hdr_pending: false,
            hdr_toggle_enabled: m.hdr_available,
            status_text: match error {
                Some(e) => e,
                None => if enabled {
                    "Windows HDR enabled"@
                } else {
                    "Windows HDR disabled"@
                },
            },
            ..m.ui
        },
        ..m
    }
}

/// Each picture control is enabled as the latest snapshot allowed.
pub open spec fn enable_stage(m: ControllerModel) -> ControllerModel {
    ControllerModel {
        ui: UiView {
            brightness: FeatureView { enabled: m.brightness.available, ..m.ui.brightness },
            contrast: FeatureView { enabled: m.contrast.available, ..m.ui.contrast },
            ..m.ui
        },
        ..m
    }
}

/// A cached brightness is shown, enabled; without one the control is
/// enabled as the latest snapshot allowed.
pub open spec fn restore_brightness_stage(m: ControllerModel, b: Option<(u32, u32)>) -> ControllerModel {
    ControllerModel {
        ui: UiView {
            brightness: match b {
                Some(r) => shown(r, true),
                None => FeatureView { enabled: m.brightness.available, ..m.ui.brightness },
            },
            ..m.ui
        },
        brightness: SlotView {
            touched_since_restore: false,
            ..(if b is Some {
                clear_slot_guard(m.brightness)
            } else {
                m.brightness
            })
        },
        ..m
    }
}

/// The same for contrast.
pub open spec fn restore_contrast_stage(m: ControllerModel, c: Option<(u32, u32)>) -> ControllerModel {
    ControllerModel {
        ui: UiView {
            contrast: match c {
                Some(r) => shown(r, true),
                None => FeatureView { enabled: m.contrast.available, ..m.ui.contrast },
            },
            ..m.ui
        },
        contrast: SlotView {
            touched_since_restore: false,
            ..(if c is Some {
                clear_slot_guard(m.contrast)
            } else {
                m.contrast
            })
        },
        ..m
    }
}

/// The end of an HDR change. A successful change to SDR that relied on
/// cached values shows them, enabled, until the next snapshot reconciles
/// them; otherwise each control is enabled as the latest snapshot allowed.
#[verifier::opaque]
pub open spec fn hdr_finished_model(
    m: ControllerModel,
    enabled: bool,
    error: Option<Seq<char>>,
    used_cached: bool,
) -> ControllerModel {
    let m1 = hdr_done_stage(m, enabled, error);
    if error is None && used_cached {
        let key = m.ui.selected_monitor_key;
        ControllerModel {
            awaiting_reconcile: true,
            ..restore_contrast_stage(
                restore_brightness_stage(m1, cached_brightness(m1, key)),
                cached_contrast(m1, key),
            )
        }
    } else {
        enable_stage(m1)
    }
}

/// The end of a Windows SDR brightness write. A failure is reported, and
/// if the failed value is still the one shown, the last confirmed value
/// comes back; a success, or a failure of an older value, changes nothing
/// else.
#[verifier::opaque]
pub open spec fn sdr_finished_model(m: ControllerModel, requested: u32, error: Option<Seq<char>>) -> ControllerModel {
    match error {
        None => m,
        Some(e) => {
            let ui = UiView { status_text: e, ..m.ui };
            if m.brightness.optimistic_value == Some(requested) {
                ControllerModel {
                    ui: UiView {
                        brightness: match m.confirmed_sdr_brightness {
                            Some(r) => shown(r, m.ui.brightness.enabled),
                            None => m.ui.brightness,
                        },
                        ..ui
                    },
                    brightness: clear_slot_guard(m.brightness),
                    ..m
                }
            } else {
                ControllerModel { ui, ..m }
            }
        },
    }
}

pub open spec fn clear_guards(m: ControllerModel) -> ControllerModel {
    ControllerModel {
        brightness: clear_slot_guard(m.brightness),
        contrast: clear_slot_guard(m.contrast),
        input_last_user_change_ms: None,
        ..m
    }
}

pub open spec fn opt_view(o: Option<String>) -> Option<Seq<char>> {
    match o {
        Some(s) => Some(s@),
        None => None,
    }
}

/// A worker event applied to the model.
pub open spec fn event_model(m: ControllerModel, e: WorkerEvent, now: u64) -> ControllerModel {
    match e {
        WorkerEvent::Snapshot(s) => snapshot_model(m, s, now),
        WorkerEvent::AutostartState { enabled, status } => ControllerModel {
            ui: UiView {
                autostart_enabled: enabled,
                status_text: if status@.len() > 0 {
                    status@
                } else {
                    m.ui.status_text
                },
                ..m.ui
            },
            ..m
        },
        WorkerEvent::HdrUpdateFinished { enabled, error, used_cached_ddc_values } =>
            hdr_finished_model(m, enabled, opt_view(error), used_cached_ddc_values),
        WorkerEvent::SdrContentBrightnessFinished { requested_percent, error } =>
            sdr_finished_model(m, requested_percent, opt_view(error)),
        WorkerEvent::Status(msg) => ControllerModel { ui: UiView { status_text: msg@, ..m.ui }, ..m },
        WorkerEvent::Error(msg) => ControllerModel {
            ui: UiView { status_text: msg@, ..clear_guards(m).ui },
            ..clear_guards(m)
        },
    }
}

pub open spec fn shortcut_of(m: ControllerModel, t: ShortcutTarget) -> ShortcutView {
    match t {
        ShortcutTarget::UsbC => m.ui.tb_shortcut,
        ShortcutTarget::DisplayPort => m.ui.dp_shortcut,
        ShortcutTarget::Hdmi => m.ui.hdmi_shortcut,
    }
}

pub open spec fn with_shortcut(m: ControllerModel, t: ShortcutTarget, v: ShortcutView) -> ControllerModel {
    match t {
        ShortcutTarget::UsbC => ControllerModel { ui: UiView { tb_shortcut: v, ..m.ui }, ..m },
        ShortcutTarget::DisplayPort => ControllerModel {
            ui: UiView { dp_shortcut: v, ..m.ui },
            ..m
        },
        ShortcutTarget::Hdmi => ControllerModel { ui: UiView { hdmi_shortcut: v, ..m.ui }, ..m },
    }
}

/// A shortcut as stored: an empty one is "None".
pub open spec fn normalized_shortcut(value: Seq<char>) -> Seq<char> {
    if value.len() == 0 {
        "None"@
    } else {
        value
    }
}

/// A shortcut that is now in force, with nothing being captured.
pub open spec fn settled_shortcut(value: Seq<char>, error: Seq<char>) -> ShortcutView {
    ShortcutView {
        value: normalized_shortcut(value),
        preview: Seq::empty(),
        awaiting_final_key: false,
        error_text: error,
    }
}

/// Changing HDR: refused while the toggle is disabled or when HDR already
/// is as requested. Otherwise the change is pending, the toggle and the
/// picture controls are disabled, pending picture writes are dropped, and
/// the worker is told to cancel queued picture writes and then to change
/// HDR; turning HDR off may restore cached DDC values when both are cached
/// for the selected monitor.
pub open spec fn toggle_hdr_model(m: ControllerModel, enabled: bool) -> (ControllerModel, Seq<EffectView>) {
    if !m.ui.hdr_toggle_enabled || enabled == m.ui.hdr_enabled {
        (m, Seq::empty())
    } else {
        let use_cached = !enabled && cache_complete(m.ddc_cache, m.ui.selected_monitor_key);
        (
            ControllerModel {
                ui: UiView {
                    hdr_pending: true,
                    hdr_toggle_enabled: false,
                    brightness: FeatureView { enabled: false, ..m.ui.brightness },
                    contrast: FeatureView { enabled: false, ..m.ui.contrast },
                    ..m.ui
                },
                brightness: SlotView {
                    throttle: throttle_reset(m.brightness.throttle),
                    ..m.brightness
                },
                contrast: SlotView { throttle: throttle_reset(m.contrast.throttle), ..m.contrast },
                cancel_queued: false,
                ..m
            },
            seq![
                EffectView::Worker(RequestView::CancelPictureWrites),
                EffectView::Worker(
                    RequestView::SetHdr { enabled, use_cached_ddc_values: use_cached },
                ),
            ],
        )
    }
}

/// Choosing a monitor: remembered for the next run, user guards and pending
/// picture writes dropped, and the worker told to cancel queued picture
/// writes and to switch.
pub open spec fn select_monitor_model(m: ControllerModel, key: Seq<char>) -> (ControllerModel, Seq<EffectView>) {
    (
        ControllerModel {
            ui: UiView { selected_monitor_key: key, ..m.ui },
            durable_selected_monitor_key: key,
            brightness: clear_slot_guard(
                SlotView { throttle: throttle_reset(m.brightness.throttle), ..m.brightness },
            ),
            contrast: clear_slot_guard(
                SlotView { throttle: throttle_reset(m.contrast.throttle), ..m.contrast },
            ),
            input_last_user_change_ms: None,
            cancel_queued: false,
            ..m
        },
        seq![
            EffectView::Worker(RequestView::CancelPictureWrites),
            EffectView::Worker(RequestView::SelectMonitor { key }),
        ],
    )
}

/// A user action applied to the model, with the effects it asks for.
pub open spec fn action_model(m: ControllerModel, a: UiAction, now: u64) -> (ControllerModel, Seq<EffectView>) {
    match a {
        UiAction::OpenWindow => if m.window_hidden {
            (
                ControllerModel {
                    window_hidden: false,
                    ui: UiView { active_pane: UiPane::Main, ..m.ui },
                    ..m
                },
                seq![EffectView::ShowWindow, EffectView::Worker(RequestView::RefreshAll)],
            )
        } else {
            (m, Seq::empty())
        },
        UiAction::OpenSettings => (
            ControllerModel { ui: UiView { active_pane: UiPane::Settings, ..m.ui }, ..m },
            Seq::empty(),
        ),
        UiAction::CloseSettings => (
            ControllerModel { ui: UiView { active_pane: UiPane::Main, ..m.ui }, ..m },
            Seq::empty(),
        ),
        UiAction::HideWindow => (
            ControllerModel { window_hidden: true, ..m },
            seq![EffectView::HideWindow],
        ),
        UiAction::Exit => (m, seq![EffectView::Quit]),
        UiAction::Refresh => (m, seq![EffectView::Worker(RequestView::RefreshAll)]),
        UiAction::ToggleAutostart => (
            ControllerModel {
                ui: UiView { autostart_enabled: !m.ui.autostart_enabled, ..m.ui },
                ..m
            },
            seq![
                EffectView::Worker(
                    RequestView::SetAutostart { enabled: !m.ui.autostart_enabled, quiet: false },
                ),
            ],
        ),
        UiAction::ToggleHdr(enabled) => toggle_hdr_model(m, enabled),
        UiAction::DeactivateShortcutCapture(t) => (
            with_shortcut(
                m,
                t,
                ShortcutView {
                    preview: Seq::empty(),
                    awaiting_final_key: false,
                    ..shortcut_of(m, t)
                },
            ),
            Seq::empty(),
        ),
        UiAction::PreviewShortcut { target, preview } => (
            with_shortcut(
                m,
                target,
                ShortcutView {
                    preview: preview@,
                    awaiting_final_key: true,
                    error_text: Seq::empty(),
                    ..shortcut_of(m, target)
                },
            ),
            Seq::empty(),
        ),
        UiAction::CommitShortcut { target, shortcut } => (
            with_shortcut(m, target, settled_shortcut(shortcut@, Seq::empty())),
            Seq::empty(),
        ),
        UiAction::ClearShortcut(t) => (with_shortcut(m, t, shortcut_default()), Seq::empty()),
        UiAction::PersistWindowState => (m, Seq::empty()),
        UiAction::SelectMonitor(key) => select_monitor_model(m, key@),
        UiAction::PreviewFeature { feature, value } => edit_model(m, feature, value, now),
        UiAction::CommitFeature { feature, value } => edit_model(m, feature, value, now),
        UiAction::SetInput(route) => set_input_model(m, route, now),
    }
}

pub open spec fn tick_effect(f: FeatureId, backend: Option<PictureBackend>, sent: Option<u32>) -> Seq<EffectView> {
    match sent {
        Some(v) => seq![EffectView::Worker(picture_request(f, backend, v))],
        None => Seq::empty(),
    }
}

/// A flush: a queued cancel first, then whatever the brightness, contrast
/// and input throttles release.
pub open spec fn flush_model(m: ControllerModel, now: u64) -> (ControllerModel, Seq<EffectView>) {
    let (bt, bsent) = tick_spec(m.brightness.throttle, now);
    let (ct, csent) = tick_spec(m.contrast.throttle, now);
    let (it, isent) = tick_spec(m.input_throttle, now);
    (
        ControllerModel {
            brightness: SlotView { throttle: bt, ..m.brightness },
            contrast: SlotView { throttle: ct, ..m.contrast },
            input_throttle: it,
            cancel_queued: false,
            ..m
        },
        (if m.cancel_queued {
            seq![EffectView::Worker(RequestView::CancelPictureWrites)]
        } else {
            Seq::empty()
        }) + tick_effect(FeatureId::Brightness, m.picture_backend, bsent) + tick_effect(
            FeatureId::Contrast,
            m.picture_backend,
            csent,
        ) + match isent {
            Some(v) => seq![EffectView::Worker(RequestView::SetInput { value: v })],
            None => Seq::empty(),
        },
    )
}

// ---------------------------------------------------------------------
// Executable helpers.
// ---------------------------------------------------------------------

fn min_of(a: u32, b: u32) -> (r: u32)
    ensures
        r == min_u32(a, b),
{
    if a < b {
        a
    } else {
        b
    }
}

fn clamp_low(a: u32) -> (r: u32)
    ensures
        r == at_least_one(a),
{
    if a < 1 {
        1
    } else {
        a
    }
}

fn recent(last: Option<u64>, now: u64) -> (r: bool)
    ensures
        r == recently_changed(last, now),
{
    match last {
        Some(t) => now.saturating_sub(t) < SNAPSHOT_USER_GUARD_MS,
        None => false,
    }
}

fn new_slot() -> (s: PictureSlot)
    ensures
        s@ == fresh_slot(),
{
    PictureSlot {
        throttle: WriteThrottle::new(DEFAULT_LIVE_WRITE_INTERVAL_MS),
        optimistic_value: None,
        last_user_change_ms: None,
        available: false,
        touched_since_restore: false,
    }
}

fn shown_state(value: u32, maximum: u32, enabled: bool) -> (f: FeatureState)
    ensures
        f@ == shown((value, maximum), enabled),
{
    FeatureState { value, maximum, text: decimal_string(value as u64), enabled }
}

fn request_for(f: FeatureId, backend: Option<PictureBackend>, value: u32) -> (r: WorkerRequest)
    ensures
        r@ == picture_request(f, backend, value),
{
    match (f, backend) {
        (FeatureId::Brightness, Some(PictureBackend::WindowsSdr)) => {
            WorkerRequest::SetSdrContentBrightness { percent: value }
        },
        _ => WorkerRequest::WriteFeature { code: f.to_vcp_code(), value },
    }
}

fn edit_feature(
    fs: &mut FeatureState,
    slot: &mut PictureSlot,
    value: u32,
    now: u64,
    awaiting_reconcile: bool,
) -> (sent: Option<u32>)
    ensures
        (final(fs)@, final(slot)@, sent) == edit_feature_spec(
            old(fs)@,
            old(slot)@,
            value,
            now,
            awaiting_reconcile,
        ),
{
    if !fs.enabled {
        return None;
    }
    let c = min_of(value, fs.maximum);
    fs.value = c;
    fs.text = decimal_string(c as u64);
    slot.optimistic_value = Some(c);
    slot.last_user_change_ms = Some(now);
    slot.touched_since_restore = slot.touched_since_restore || awaiting_reconcile;
    slot.throttle.schedule(now, c)
}

fn clear_guard(slot: &mut PictureSlot)
    ensures
        final(slot)@ == clear_slot_guard(old(slot)@),
{
    slot.optimistic_value = None;
    slot.last_user_change_ms = None;
}

fn reset_slot(slot: &mut PictureSlot)
    ensures
        final(slot)@ == clear_slot_guard(
            SlotView { throttle: throttle_reset(old(slot)@.throttle), ..old(slot)@ },
        ),
{
    slot.throttle.reset();
    slot.optimistic_value = None;
    slot.last_user_change_ms = None;
}

fn apply_feature(
    fs: &mut FeatureState,
    slot: &mut PictureSlot,
    s: FeatureSnapshot,
    cached: Option<(u32, u32)>,
    has_monitor: bool,
    now: u64,
    pending: bool,
    reconciling: bool,
)
    ensures
        (final(fs)@, final(slot)@) == apply_feature_spec(
            old(fs)@,
            old(slot)@,
            s,
            cached,
            has_monitor,
            now,
            pending,
            reconciling,
        ),
{
    let keep = (reconciling && slot.touched_since_restore) || recent(
        slot.last_user_change_ms,
        now,
    );
    if keep {
        if s.available {
            fs.maximum = clamp_low(s.maximum);
            fs.enabled = !pending;
        }
    } else if !s.available {
        slot.optimistic_value = None;
        slot.last_user_change_ms = None;
        match cached {
            Some((v, mx)) => {
                if has_monitor {
                    *fs = shown_state(v, mx, false);
                } else {
                    *fs = FeatureState::default();
                }
            },
            None => {
                *fs = FeatureState::default();
            },
        }
    } else {
        slot.optimistic_value = None;
        slot.last_user_change_ms = None;
        *fs = shown_state(min_of(s.value, s.maximum), clamp_low(s.maximum), !pending);
    }
    slot.available = s.available;
    slot.touched_since_restore = false;
}

fn available_reading_of(s: FeatureSnapshot) -> (r: Option<(u32, u32)>)
    ensures
        r == available_reading(s),
{
    if s.available {
        Some((min_of(s.value, s.maximum), clamp_low(s.maximum)))
    } else {
        None
    }
}

fn pick<T: Copy>(new: Option<T>, old: Option<T>) -> (r: Option<T>)
    ensures
        r == or_else(new, old),
{
    match new {
        Some(v) => Some(v),
        None => old,
    }
}

/// The index of a monitor's cache entry.
fn find_cache_entry(cache: &Vec<DdcCacheEntry>, key: &str) -> (r: Option<usize>)
    ensures
        r matches Some(j) ==> first_where(cache_view(cache@), key_is(key@)) == Some(j as int) && j
            < cache@.len(),
        r is None ==> first_where(cache_view(cache@), key_is(key@)) is None,
{
    let ghost cv = cache_view(cache@);
    let mut i: usize = 0;
    while i < cache.len()
        invariant
            i <= cache.len(),
            cv == cache_view(cache@),
            cv.len() == cache@.len(),
            first_where(cv.subrange(0, i as int), key_is(key@)) is None,
        decreases cache.len() - i,
    {
        proof {
            lemma_count_prefix_step(cv, key_is(key@), i as int);
            lemma_first_where(cv.subrange(0, i as int), key_is(key@));
        }
        if crate::text::str_eq(cache[i].key.as_str(), key) {
            proof {
                assert forall|j: int| 0 <= j < i implies !key_is(key@)(#[trigger] cv[j]) by {
                    assert(cv[j] == cv.subrange(0, i as int)[j]);
                }
                lemma_first_where_is(cv, key_is(key@), i as int);
            }
            return Some(i);
        }
        i = i + 1;
    }
    assert(cv.subrange(0, i as int) =~= cv);
    None
}

impl Default for AppController {
    fn default() -> (c: Self)
        ensures
            c@ == initial_model(),
    {
        let c = AppController {
            state: UiState::default(),
            window_hidden: true,
            brightness: new_slot(),
            contrast: new_slot(),
            input_throttle: WriteThrottle::new(DEFAULT_LIVE_WRITE_INTERVAL_MS),
            input_last_user_change_ms: None,
            durable_selected_monitor_key: String::new(),
            hdr_available: false,
            picture_backend: None,
            cancel_queued: false,
            ddc_cache: Vec::new(),
            confirmed_sdr_brightness: None,
            awaiting_reconcile: false,
        };
        assert(c@.ddc_cache =~= Seq::<CacheView>::empty());
        c
    }
}


/// A shortcut as stored: an empty one is "None".
fn normalize_shortcut_value(value: &str) -> (r: String)
    ensures
        r@ == normalized_shortcut(value@),
{
    if value.is_empty() {
        String::from_str("None")
    } else {
        String::from_str(value)
    }
}

fn settled(value: &str, error: String) -> (r: ShortcutFieldState)
    ensures
        r@ == settled_shortcut(value@, error@),
{
    ShortcutFieldState {
        value: normalize_shortcut_value(value),
        preview: String::new(),
        awaiting_final_key: false,
        error_text: error,
    }
}

fn input_route_summary(route: InputRoute) -> (r: &'static str)
    ensures
        r@ == input_summary_of(route),
{
    match route {
        InputRoute::Unknown => "Input",
        InputRoute::UsbC => "USB-C",
        InputRoute::DisplayPort => "DP",
        InputRoute::Hdmi => "HDMI",
    }
}

fn one_effect(e: ControllerEffect) -> (r: Vec<ControllerEffect>)
    ensures
        effects_view(r@) == seq![e@],
{
    let r = vec![e];
    assert(effects_view(r@) =~= seq![e@]);
    r
}

fn two_effects(a: ControllerEffect, b: ControllerEffect) -> (r: Vec<ControllerEffect>)
    ensures
        effects_view(r@) == seq![a@, b@],
{
    let r = vec![a, b];
    assert(effects_view(r@) =~= seq![a@, b@]);
    r
}

fn no_effects() -> (r: Vec<ControllerEffect>)
    ensures
        effects_view(r@) == Seq::<EffectView>::empty(),
{
    let r: Vec<ControllerEffect> = Vec::new();
    assert(effects_view(r@) =~= Seq::<EffectView>::empty());
    r
}

impl AppController {
    /// What the window shows.
    pub fn ui_state(&self) -> (r: UiState)
        ensures
            r@ == self@.ui,
    {
        copy_ui_state(&self.state)
    }

    fn set_shortcut(&mut self, target: ShortcutTarget, v: ShortcutFieldState)
        ensures
            final(self)@ == with_shortcut(old(self)@, target, v@),
    {
        match target {
            ShortcutTarget::UsbC => {
                self.state.tb_shortcut = v;
            },
            ShortcutTarget::DisplayPort => {
                self.state.dp_shortcut = v;
            },
            ShortcutTarget::Hdmi => {
                self.state.hdmi_shortcut = v;
            },
        }
    }

    fn shortcut_state(&self, target: ShortcutTarget) -> (r: &ShortcutFieldState)
        ensures
            r@ == shortcut_of(self@, target),
    {
        match target {
            ShortcutTarget::UsbC => &self.state.tb_shortcut,
            ShortcutTarget::DisplayPort => &self.state.dp_shortcut,
            ShortcutTarget::Hdmi => &self.state.hdmi_shortcut,
        }
    }

    /// Takes over the settings of an earlier run.
    pub fn hydrate_persisted_settings(&mut self, settings: &PersistedSettings)
        ensures
            final(self)@ == (ControllerModel {
                ui: UiView {
                    autostart_enabled: settings.autostart_enabled,
                    selected_monitor_key: settings.selected_monitor_key@,
                    tb_shortcut: settled_shortcut(settings.tb_shortcut@, Seq::empty()),
                    dp_shortcut: settled_shortcut(settings.dp_shortcut@, Seq::empty()),
                    hdmi_shortcut: settled_shortcut(settings.hdmi_shortcut@, Seq::empty()),
                    ..old(self)@.ui
                },
                durable_selected_monitor_key: settings.selected_monitor_key@,
                ..old(self)@
            }),
    {
        self.state.autostart_enabled = settings.autostart_enabled;
        self.state.selected_monitor_key = settings.selected_monitor_key.clone();
        self.durable_selected_monitor_key = settings.selected_monitor_key.clone();
        self.state.tb_shortcut = settled(settings.tb_shortcut.as_str(), String::new());
        self.state.dp_shortcut = settled(settings.dp_shortcut.as_str(), String::new());
        self.state.hdmi_shortcut = settled(settings.hdmi_shortcut.as_str(), String::new());
    }

    /// The settings to keep for the next run.
    pub fn persisted_settings(&self) -> (r: PersistedSettings)
        ensures
            r.autostart_enabled == self@.ui.autostart_enabled,
            r.selected_monitor_key@ == self@.durable_selected_monitor_key,
            r.tb_shortcut@ == self@.ui.tb_shortcut.value,
            r.dp_shortcut@ == self@.ui.dp_shortcut.value,
            r.hdmi_shortcut@ == self@.ui.hdmi_shortcut.value,
    {
        PersistedSettings {
            autostart_enabled: self.state.autostart_enabled,
            selected_monitor_key: self.durable_selected_monitor_key.clone(),
            tb_shortcut: self.state.tb_shortcut.value.clone(),
            dp_shortcut: self.state.dp_shortcut.value.clone(),
            hdmi_shortcut: self.state.hdmi_shortcut.value.clone(),
        }
    }

    /// The shortcut in force for a target.
    pub fn shortcut_value(&self, target: ShortcutTarget) -> (r: &str)
        ensures
            r@ == shortcut_of(self@, target).value,
    {
        self.shortcut_state(target).value.as_str()
    }

    /// A shortcut was registered for a target; a target that lost it to this
    /// registration has none any more.
    pub fn apply_shortcut_registration_success(
        &mut self,
        target: ShortcutTarget,
        shortcut: String,
        displaced_target: Option<ShortcutTarget>,
    )
        ensures
            final(self)@ == ({
                let m1 = with_shortcut(
                    old(self)@,
                    target,
                    settled_shortcut(shortcut@, Seq::empty()),
                );
                match displaced_target {
                    Some(d) => if d != target {
                        with_shortcut(m1, d, shortcut_default())
                    } else {
                        m1
                    },
                    None => m1,
                }
            }),
    {
        self.set_shortcut(target, settled(shortcut.as_str(), String::new()));
        if let Some(displaced) = displaced_target {
            if displaced != target {
                self.set_shortcut(displaced, ShortcutFieldState::default());
            }
        }
    }

    /// A registration failed: the previous shortcut stays, with the error.
    pub fn apply_shortcut_registration_failure(
        &mut self,
        target: ShortcutTarget,
        previous_value: String,
        error_text: String,
    )
        ensures
            final(self)@ == with_shortcut(
                old(self)@,
                target,
                settled_shortcut(previous_value@, error_text@),
            ),
    {
        self.set_shortcut(target, settled(previous_value.as_str(), error_text));
    }

    /// A shortcut was unregistered.
    pub fn apply_shortcut_clear_success(&mut self, target: ShortcutTarget)
        ensures
            final(self)@ == with_shortcut(old(self)@, target, shortcut_default()),
    {
        self.set_shortcut(target, ShortcutFieldState::default());
    }

    fn toggle_hdr(&mut self, enabled: bool) -> (effects: Vec<ControllerEffect>)
        ensures
            (final(self)@, effects_view(effects@)) == toggle_hdr_model(old(self)@, enabled),
    {
        if !self.state.hdr_toggle_enabled || enabled == self.state.hdr_enabled {
            return no_effects();
        }
        let use_cached = !enabled && self.cache_complete_for_selected();
        self.state.hdr_pending = true;
        self.state.hdr_toggle_enabled = false;
        self.state.brightness.enabled = false;
        self.state.contrast.enabled = false;
        self.brightness.throttle.reset();
        self.contrast.throttle.reset();
        self.cancel_queued = false;
        two_effects(
            ControllerEffect::Worker(WorkerRequest::CancelPictureWrites),
            ControllerEffect::Worker(
                WorkerRequest::SetHdr { enabled, use_cached_ddc_values: use_cached },
            ),
        )
    }

    fn cache_complete_for_selected(&self) -> (r: bool)
        ensures
            r == cache_complete(self@.ddc_cache, self@.ui.selected_monitor_key),
    {
        match find_cache_entry(&self.ddc_cache, self.state.selected_monitor_key.as_str()) {
            Some(i) => {
                proof {
                    lemma_first_where(
                        cache_view(self.ddc_cache@),
                        key_is(self.state.selected_monitor_key@),
                    );
                    assert(cache_view(self.ddc_cache@)[i as int] == self.ddc_cache@[i as int]@);
                    assert(self@.ddc_cache == cache_view(self.ddc_cache@));
                    assert(self@.ui.selected_monitor_key == self.state.selected_monitor_key@);
                    assert(first_where(self@.ddc_cache, key_is(self@.ui.selected_monitor_key)) == Some(i as int));
                    assert(cache_lookup(self@.ddc_cache, self@.ui.selected_monitor_key) == Some(
                        self.ddc_cache@[i as int]@,
                    ));
                }
                self.ddc_cache[i].brightness.is_some() && self.ddc_cache[i].contrast.is_some()
            },
            None => {
                assert(cache_lookup(self@.ddc_cache, self@.ui.selected_monitor_key) is None);
                false
            },
        }
    }

    fn select_monitor(&mut self, key: String) -> (effects: Vec<ControllerEffect>)
        ensures
            (final(self)@, effects_view(effects@)) == select_monitor_model(old(self)@, key@),
    {
        self.state.selected_monitor_key = key.clone();
        self.durable_selected_monitor_key = key.clone();
        reset_slot(&mut self.brightness);
        reset_slot(&mut self.contrast);
        self.input_last_user_change_ms = None;
        self.cancel_queued = false;
        two_effects(
            ControllerEffect::Worker(WorkerRequest::CancelPictureWrites),
            ControllerEffect::Worker(WorkerRequest::SelectMonitor { key }),
        )
    }

    fn edit(&mut self, feature: FeatureId, value: u32, now_ms: u64) -> (effects: Vec<
        ControllerEffect,
    >)
        ensures
            (final(self)@, effects_view(effects@)) == edit_model(old(self)@, feature, value, now_ms),
    {
        let awaiting = self.awaiting_reconcile;
        let sent = match feature {
            FeatureId::Brightness => edit_feature(
                &mut self.state.brightness,
                &mut self.brightness,
                value,
                now_ms,
                awaiting,
            ),
            FeatureId::Contrast => edit_feature(
                &mut self.state.contrast,
                &mut self.contrast,
                value,
                now_ms,
                awaiting,
            ),
        };
        match sent {
            Some(v) => one_effect(
                ControllerEffect::Worker(request_for(feature, self.picture_backend, v)),
            ),
            None => no_effects(),
        }
    }

    fn set_input(&mut self, route: InputRoute, now_ms: u64) -> (effects: Vec<ControllerEffect>)
        ensures
            (final(self)@, effects_view(effects@)) == set_input_model(old(self)@, route, now_ms),
    {
        let value = match route.to_vcp_value() {
            Some(v) => v,
            None => {
                return no_effects();
            },
        };
        if !self.state.input_enabled {
            return no_effects();
        }
        self.state.selected_input = route;
        self.state.input_summary = String::from_str(input_route_summary(route));
        self.input_last_user_change_ms = Some(now_ms);
        match self.input_throttle.schedule(now_ms, value) {
            Some(v) => one_effect(ControllerEffect::Worker(WorkerRequest::SetInput { value: v })),
            None => no_effects(),
        }
    }

    fn deactivate_capture(&mut self, target: ShortcutTarget)
        ensures
            final(self)@ == with_shortcut(
                old(self)@,
                target,
                ShortcutView {
                    preview: Seq::empty(),
                    awaiting_final_key: false,
                    ..shortcut_of(old(self)@, target)
                },
            ),
    {
        let current = self.shortcut_state(target);
        let v = ShortcutFieldState {
            value: current.value.clone(),
            preview: String::new(),
            awaiting_final_key: false,
            error_text: current.error_text.clone(),
        };
        self.set_shortcut(target, v);
    }

    fn preview_shortcut(&mut self, target: ShortcutTarget, preview: String)
        ensures
            final(self)@ == with_shortcut(
                old(self)@,
                target,
                ShortcutView {
                    preview: preview@,
                    awaiting_final_key: true,
                    error_text: Seq::empty(),
                    ..shortcut_of(old(self)@, target)
                },
            ),
    {
        let current = self.shortcut_state(target);
        let v = ShortcutFieldState {
            value: current.value.clone(),
            preview,
            awaiting_final_key: true,
            error_text: String::new(),
        };
        self.set_shortcut(target, v);
    }

    /// A user action, with the effects it asks for.
    #[verifier::spinoff_prover]
    #[verifier::rlimit(60)]
    pub fn handle_action(&mut self, action: UiAction, now_ms: u64) -> (effects: Vec<
        ControllerEffect,
    >)
        ensures
            (final(self)@, effects_view(effects@)) == action_model(old(self)@, action, now_ms),
    {
        match action {
            UiAction::OpenWindow => {
                if self.window_hidden {
                    self.window_hidden = false;
                    self.state.active_pane = UiPane::Main;
                    two_effects(
                        ControllerEffect::ShowWindow,
                        ControllerEffect::Worker(WorkerRequest::RefreshAll),
                    )
                } else {
                    no_effects()
                }
            },
            UiAction::OpenSettings => {
                self.state.active_pane = UiPane::Settings;
                no_effects()
            },
            UiAction::CloseSettings => {
                self.state.active_pane = UiPane::Main;
                no_effects()
            },
            UiAction::HideWindow => {
                self.window_hidden = true;
                one_effect(ControllerEffect::HideWindow)
            },
            UiAction::Exit => one_effect(ControllerEffect::Quit),
            UiAction::Refresh => one_effect(ControllerEffect::Worker(WorkerRequest::RefreshAll)),
            UiAction::ToggleAutostart => {
                self.state.autostart_enabled = !self.state.autostart_enabled;
                one_effect(
                    ControllerEffect::Worker(
                        WorkerRequest::SetAutostart {
                            enabled: self.state.autostart_enabled,
                            quiet: false,
                        },
                    ),
                )
            },
            UiAction::ToggleHdr(enabled) => self.toggle_hdr(enabled),
            UiAction::DeactivateShortcutCapture(target) => {
                self.deactivate_capture(target);
                no_effects()
            },
            UiAction::PreviewShortcut { target, preview } => {
                self.preview_shortcut(target, preview);
                no_effects()
            },
            UiAction::CommitShortcut { target, shortcut } => {
                self.set_shortcut(target, settled(shortcut.as_str(), String::new()));
                no_effects()
            },
            UiAction::ClearShortcut(target) => {
                self.set_shortcut(target, ShortcutFieldState::default());
                no_effects()
            },
            UiAction::PersistWindowState => no_effects(),
            UiAction::SelectMonitor(key) => self.select_monitor(key),
            UiAction::PreviewFeature { feature, value } => self.edit(feature, value, now_ms),
            UiAction::CommitFeature { feature, value } => self.edit(feature, value, now_ms),
            UiAction::SetInput(route) => self.set_input(route, now_ms),
        }
    }

    /// Writes that the throttles release now, after a queued cancel.
    #[verifier::spinoff_prover]
    #[verifier::rlimit(60)]
    pub fn flush_pending(&mut self, now_ms: u64) -> (effects: Vec<ControllerEffect>)
        ensures
            (final(self)@, effects_view(effects@)) == flush_model(old(self)@, now_ms),
    {
        let mut effects: Vec<ControllerEffect> = Vec::new();
        let ghost e0: Seq<EffectView> = if self.cancel_queued {
            seq![EffectView::Worker(RequestView::CancelPictureWrites)]
        } else {
            Seq::empty()
        };
        if self.cancel_queued {
            effects.push(ControllerEffect::Worker(WorkerRequest::CancelPictureWrites));
        }
        self.cancel_queued = false;
        assert(effects_view(effects@) =~= e0);
        let backend = self.picture_backend;
        let bsent = self.brightness.throttle.tick(now_ms);
        let ghost e1 = e0 + tick_effect(FeatureId::Brightness, backend, bsent);
        if let Some(v) = bsent {
            effects.push(ControllerEffect::Worker(request_for(FeatureId::Brightness, backend, v)));
        }
        assert(effects_view(effects@) =~= e1);
        let csent = self.contrast.throttle.tick(now_ms);
        let ghost e2 = e1 + tick_effect(FeatureId::Contrast, backend, csent);
        if let Some(v) = csent {
            effects.push(ControllerEffect::Worker(request_for(FeatureId::Contrast, backend, v)));
        }
        assert(effects_view(effects@) =~= e2);
        let isent = self.input_throttle.tick(now_ms);
        let ghost e3 = e2 + match isent {
            Some(v) => seq![EffectView::Worker(RequestView::SetInput { value: v })],
            None => Seq::empty(),
        };
        if let Some(v) = isent {
            effects.push(ControllerEffect::Worker(WorkerRequest::SetInput { value: v }));
        }
        assert(effects_view(effects@) =~= e3);
        effects
    }
}


impl AppController {
    fn update_cache(&mut self, key: &str, b: Option<(u32, u32)>, c: Option<(u32, u32)>)
        ensures
            final(self)@ == (ControllerModel {
                ddc_cache: cache_update(old(self)@.ddc_cache, key@, b, c),
                ..old(self)@
            }),
    {
        proof {
            lemma_first_where(cache_view(self.ddc_cache@), key_is(key@));
        }
        match find_cache_entry(&self.ddc_cache, key) {
            Some(i) => {
                let old_b = self.ddc_cache[i].brightness;
                let old_c = self.ddc_cache[i].contrast;
                let entry = DdcCacheEntry {
                    key: String::from_str(key),
                    brightness: pick(b, old_b),
                    contrast: pick(c, old_c),
                };
                let ghost before = cache_view(self.ddc_cache@);
                self.ddc_cache.set(i, entry);
                assert(cache_view(self.ddc_cache@) =~= cache_update(before, key@, b, c));
            },
            None => {
                let ghost before = cache_view(self.ddc_cache@);
                self.ddc_cache.push(DdcCacheEntry { key: String::from_str(key), brightness: b, contrast: c });
                assert(cache_view(self.ddc_cache@) =~= cache_update(before, key@, b, c));
            },
        }
    }

    fn cached_values(&self, key: &str) -> (r: (Option<(u32, u32)>, Option<(u32, u32)>))
        ensures
            r == match cache_lookup(self@.ddc_cache, key@) {
                Some(e) => (e.brightness, e.contrast),
                None => (None, None),
            },
    {
        match find_cache_entry(&self.ddc_cache, key) {
            Some(i) => {
                assert(cache_view(self.ddc_cache@)[i as int] == self.ddc_cache@[i as int]@);
                (self.ddc_cache[i].brightness, self.ddc_cache[i].contrast)
            },
            None => (None, None),
        }
    }

    fn clear_all_guards(&mut self)
        ensures
            final(self)@ == clear_guards(old(self)@),
    {
        clear_guard(&mut self.brightness);
        clear_guard(&mut self.contrast);
        self.input_last_user_change_ms = None;
    }

    fn snapshot_guards(&mut self, s: &MonitorSnapshot)
        ensures
            final(self)@ == missing_monitor_stage(backend_change_stage(old(self)@, *s), *s),
    {
        let changed = match self.picture_backend {
            Some(p) => p != s.picture_backend,
            None => false,
        };
        if changed {
            reset_slot(&mut self.brightness);
            reset_slot(&mut self.contrast);
            self.cancel_queued = true;
        }
        if !s.has_monitor {
            self.clear_all_guards();
        }
    }

    fn record_readings(&mut self, s: &MonitorSnapshot)
        ensures
            final(self)@ == readings_stage(old(self)@, *s),
    {
        if s.has_monitor && s.picture_backend == PictureBackend::Ddc {
            self.update_cache(
                s.selected_monitor_key.as_str(),
                available_reading_of(s.brightness),
                available_reading_of(s.contrast),
            );
        }
        if s.picture_backend == PictureBackend::WindowsSdr && s.brightness.available {
            self.confirmed_sdr_brightness = Some(
                (min_of(s.brightness.value, s.brightness.maximum), clamp_low(s.brightness.maximum)),
            );
        }
    }

    fn apply_picture(&mut self, s: &MonitorSnapshot, now_ms: u64)
        ensures
            final(self)@ == picture_stage(old(self)@, *s, now_ms),
    {
        let (cached_b, cached_c) = self.cached_values(s.selected_monitor_key.as_str());
        let pending = self.state.hdr_pending;
        let reconciling = self.awaiting_reconcile;
        apply_feature(
            &mut self.state.brightness,
            &mut self.brightness,
            s.brightness,
            cached_b,
            s.has_monitor,
            now_ms,
            pending,
            reconciling,
        );
        apply_feature(
            &mut self.state.contrast,
            &mut self.contrast,
            s.contrast,
            cached_c,
            s.has_monitor,
            now_ms,
            pending,
            reconciling,
        );
    }

    #[verifier::spinoff_prover]
    #[verifier::rlimit(60)]
    fn take_texts(&mut self, s: MonitorSnapshot, now_ms: u64)
        ensures
            final(self)@ == texts_stage(old(self)@, s, now_ms),
    {
        let input_recent = recent(self.input_last_user_change_ms, now_ms);
        let pending = self.state.hdr_pending;
        self.state.monitor_title = s.monitor_title;
        self.state.hdr_status = s.hdr_status;
        self.state.hdr_enabled = s.hdr_enabled;
        self.hdr_available = s.hdr_available;
        self.state.hdr_toggle_enabled = s.hdr_available && !pending;
        self.state.monitor_choices = s.monitor_choices;
        self.state.selected_monitor_key = s.selected_monitor_key;
        if !s.diagnostic_status.as_str().is_empty() {
            self.state.status_text = s.diagnostic_status;
        }
        if input_recent {
            self.state.input_enabled = s.input_enabled;
        } else {
            self.state.input_summary = s.input_summary;
            self.state.selected_input = s.selected_input;
            self.state.input_enabled = s.input_enabled;
            self.input_last_user_change_ms = None;
        }
        self.state.no_monitor = !s.has_monitor;
        self.picture_backend = Some(s.picture_backend);
        self.awaiting_reconcile = false;
    }

    fn apply_snapshot(&mut self, s: MonitorSnapshot, now_ms: u64)
        ensures
            final(self)@ == snapshot_model(old(self)@, s, now_ms),
    {
        reveal(snapshot_model);
        self.snapshot_guards(&s);
        self.record_readings(&s);
        self.apply_picture(&s, now_ms);
        self.take_texts(s, now_ms);
    }

    fn begin_hdr_finish(&mut self, enabled: bool, error: Option<String>)
        ensures
            final(self)@ == hdr_done_stage(old(self)@, enabled, opt_view(error)),
    {
        self.state.hdr_pending = false;
        self.state.hdr_toggle_enabled = self.hdr_available;
        self.state.status_text = match error {
            Some(e) => e,
            None => if enabled {
                String::from_str("Windows HDR enabled")
            } else {
                String::from_str("Windows HDR disabled")
            },
        };
    }

    fn enable_as_available(&mut self)
        ensures
            final(self)@ == enable_stage(old(self)@),
    {
        self.state.brightness.enabled = self.brightness.available;
        self.state.contrast.enabled = self.contrast.available;
    }

    fn restore_brightness(&mut self, b: Option<(u32, u32)>)
        ensures
            final(self)@ == restore_brightness_stage(old(self)@, b),
    {
        match b {
            Some((v, mx)) => {
                self.state.brightness = shown_state(v, mx, true);
                clear_guard(&mut self.brightness);
            },
            None => {
                self.state.brightness.enabled = self.brightness.available;
            },
        }
        self.brightness.touched_since_restore = false;
    }

    fn restore_contrast(&mut self, c: Option<(u32, u32)>)
        ensures
            final(self)@ == restore_contrast_stage(old(self)@, c),
    {
        match c {
            Some((v, mx)) => {
                self.state.contrast = shown_state(v, mx, true);
                clear_guard(&mut self.contrast);
            },
            None => {
                self.state.contrast.enabled = self.contrast.available;
            },
        }
        self.contrast.touched_since_restore = false;
    }

    fn finish_hdr(&mut self, enabled: bool, error: Option<String>, used_cached: bool)
        ensures
            final(self)@ == hdr_finished_model(old(self)@, enabled, opt_view(error), used_cached),
    {
        reveal(hdr_finished_model);
        let restore = error.is_none() && used_cached;
        self.begin_hdr_finish(enabled, error);
        if restore {
            let (b, c) = self.cached_values(self.state.selected_monitor_key.as_str());
            proof {
                assert(b == cached_brightness(self@, self@.ui.selected_monitor_key));
                assert(c == cached_contrast(self@, self@.ui.selected_monitor_key));
            }
            self.restore_brightness(b);
            self.restore_contrast(c);
            self.awaiting_reconcile = true;
        } else {
            self.enable_as_available();
        }
    }

    #[verifier::rlimit(100)]
    fn finish_sdr(&mut self, requested: u32, error: Option<String>)
        ensures
            final(self)@ == sdr_finished_model(old(self)@, requested, opt_view(error)),
    {
        reveal(sdr_finished_model);
        match error {
            None => {},
            Some(e) => {
                let restore = match self.brightness.optimistic_value {
                    Some(v) => v == requested,
                    None => false,
                };
                self.state.status_text = e;
                if restore {
                    match self.confirmed_sdr_brightness {
                        Some((v, mx)) => {
                            let en = self.state.brightness.enabled;
                            self.state.brightness = shown_state(v, mx, en);
                        },
                        None => {},
                    }
                    clear_guard(&mut self.brightness);
                }
            },
        }
    }

    fn set_status(&mut self, message: String)
        ensures
            final(self)@ == (ControllerModel {
                ui: UiView { status_text: message@, ..old(self)@.ui },
                ..old(self)@
            }),
    {
        self.state.status_text = message;
    }

    fn apply_autostart(&mut self, enabled: bool, status: String)
        ensures
            final(self)@ == (ControllerModel {
                ui: UiView {
                    autostart_enabled: enabled,
                    status_text: if status@.len() > 0 {
                        status@
                    } else {
                        old(self)@.ui.status_text
                    },
                    ..old(self)@.ui
                },
                ..old(self)@
            }),
    {
        self.state.autostart_enabled = enabled;
        if !status.as_str().is_empty() {
            self.state.status_text = status;
        }
    }

    /// An event from the worker.
    pub fn apply_worker_event(&mut self, event: WorkerEvent, now_ms: u64)
        ensures
            final(self)@ == event_model(old(self)@, event, now_ms),
    {
        match event {
            WorkerEvent::Snapshot(snapshot) => self.apply_snapshot(snapshot, now_ms),
            WorkerEvent::AutostartState { enabled, status } => self.apply_autostart(enabled, status),
            WorkerEvent::HdrUpdateFinished { enabled, error, used_cached_ddc_values } => {
                self.finish_hdr(enabled, error, used_cached_ddc_values)
            },
            WorkerEvent::SdrContentBrightnessFinished { requested_percent, error } => {
                self.finish_sdr(requested_percent, error)
            },
            WorkerEvent::Status(message) => self.set_status(message),
            WorkerEvent::Error(message) => {
                self.clear_all_guards();
                self.set_status(message);
            },
        }
    }
}

} // verus!
