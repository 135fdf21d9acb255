use std::cell::RefCell;

use dell_controller::controller_types::{
    FeatureSnapshot, InputRoute, MonitorChoice, MonitorSnapshot, PictureBackend, WorkerEvent,
    WorkerRequest, BRIGHTNESS_CODE, CONTRAST_CODE, INPUT_CODE, INPUT_DP_VALUE, INPUT_HDMI_VALUE,
};
use dell_controller::hdr::HdrState;
use dell_controller::worker::{
    ddc_failure_step, execute_worker_task, LoggedDevice, hdr_status_text, input_route_from_value, monitor_key,
    normalize_key_part, read_picture_features, strict_selected_monitor_index,
    validate_ddc_picture_write, DeviceSnapshot, PendingWorkerRequests, PictureReadMode,
    WorkerDevice, WorkerRuntimeState, WorkerTask,
};


#[derive(Default)]
struct RecordingWorkerDevice {
    calls: Vec<String>,
    ddc_failure_snapshots: bool,
    missing_selected_monitor: bool,
    hdr_error: Option<String>,
    sdr_brightness_error: Option<String>,
}

impl WorkerDevice for RecordingWorkerDevice {
    fn refresh_monitors(&mut self) -> Result<(), String> {
        self.calls.push("refresh".into());
        Ok(())
    }

    fn snapshot(
        &mut self,
        selected_monitor_key: Option<&str>,
        picture_read_mode: PictureReadMode,
    ) -> DeviceSnapshot {
        let suffix = match picture_read_mode {
            PictureReadMode::Full => "",
            PictureReadMode::DeferDdc => ":defer-ddc",
        };
        self.calls.push(format!(
            "snapshot:{}{suffix}",
            selected_monitor_key.unwrap_or("<none>"),
        ));
        DeviceSnapshot {
            snapshot: test_snapshot(
                selected_monitor_key
                    .filter(|key| !key.is_empty())
                    .unwrap_or("dell-u4025qw|u4025qw|0"),
            ),
            selected_monitor_missing: self.missing_selected_monitor,
            ddc_failure: self.ddc_failure_snapshots,
            picture_values_deferred: picture_read_mode == PictureReadMode::DeferDdc,
        }
    }

    fn write_vcp(
        &mut self,
        selected_monitor_key: Option<&str>,
        code: u8,
        value: u32,
    ) -> Result<(), String> {
        self.calls.push(format!(
            "write:{}:{code:02X}:{value}",
            selected_monitor_key.unwrap_or("<none>")
        ));
        Ok(())
    }

    fn set_hdr_enabled(
        &mut self,
        selected_monitor_key: Option<&str>,
        enabled: bool,
    ) -> Result<(), String> {
        self.calls.push(format!(
            "hdr:{}:{enabled}",
            selected_monitor_key.unwrap_or("<none>")
        ));
        match self.hdr_error.take() {
            Some(error) => Err(error),
            None => Ok(()),
        }
    }

    fn set_sdr_content_brightness(
        &mut self,
        selected_monitor_key: Option<&str>,
        percent: u32,
    ) -> Result<(), String> {
        self.calls.push(format!(
            "sdr-brightness:{}:{percent}",
            selected_monitor_key.unwrap_or("<none>")
        ));
        match self.sdr_brightness_error.take() {
            Some(error) => Err(error),
            None => Ok(()),
        }
    }

    fn autostart_enabled(&self) -> bool {
        false
    }

    fn set_autostart_enabled(&mut self, enabled: bool) -> Result<(), String> {
        self.calls.push(format!("autostart:{enabled}"));
        Ok(())
    }
}

fn test_snapshot(selected_monitor_key: &str) -> MonitorSnapshot {
    MonitorSnapshot {
        monitor_title: "Dell U4025QW".into(),
        input_summary: "DP".into(),
        hdr_status: "Windows HDR: On".into(),
        diagnostic_status: String::new(),
        monitor_choices: vec![MonitorChoice {
            key: "dell-u4025qw|u4025qw|0".into(),
            title: "Dell U4025QW".into(),
        }],
        selected_monitor_key: selected_monitor_key.into(),
        brightness: FeatureSnapshot {
            value: 50,
            maximum: 100,
            available: true,
        },
        contrast: FeatureSnapshot {
            value: 80,
            maximum: 100,
            available: true,
        },
        selected_input: InputRoute::DisplayPort,
        input_enabled: true,
        has_monitor: true,
        hdr_enabled: true,
        hdr_available: true,
        hdr_active: true,
        picture_backend: PictureBackend::WindowsSdr,
        advanced_color_monitor: None,
    }
}

fn hdr_state(
    supported: bool,
    user_enabled: bool,
    active: bool,
    limited_by_policy: bool,
) -> HdrState {
    HdrState {
        supported,
        user_enabled,
        active,
        limited_by_policy,
    }
}

#[test]
fn queued_writes_for_the_same_vcp_execute_only_the_newest_value() {
    let mut pending = PendingWorkerRequests::from_requests(vec![
        WorkerRequest::WriteFeature {
            code: BRIGHTNESS_CODE,
            value: 51,
        },
        WorkerRequest::WriteFeature {
            code: CONTRAST_CODE,
            value: 72,
        },
        WorkerRequest::WriteFeature {
            code: BRIGHTNESS_CODE,
            value: 64,
        },
    ]);

    assert_eq!(
        pending.pop_next_task(),
        Some(WorkerTask::WriteVcp {
            code: BRIGHTNESS_CODE,
            value: 64,
            input_status: false,
        })
    );
    assert_eq!(
        pending.pop_next_task(),
        Some(WorkerTask::WriteVcp {
            code: CONTRAST_CODE,
            value: 72,
            input_status: false,
        })
    );
    assert_eq!(pending.pop_next_task(), None);
}

#[test]
fn input_writes_coalesce_with_raw_writes_for_the_input_vcp_code() {
    let mut pending = PendingWorkerRequests::from_requests(vec![
        WorkerRequest::WriteFeature {
            code: INPUT_CODE,
            value: INPUT_DP_VALUE,
        },
        WorkerRequest::SetInput {
            value: INPUT_HDMI_VALUE,
        },
    ]);

    assert_eq!(
        pending.pop_next_task(),
        Some(WorkerTask::WriteVcp {
            code: INPUT_CODE,
            value: INPUT_HDMI_VALUE,
            input_status: true,
        })
    );
    assert_eq!(pending.pop_next_task(), None);
}

#[test]
fn queued_snapshot_requests_coalesce_to_one_snapshot_task() {
    let mut pending = PendingWorkerRequests::from_requests(vec![
        WorkerRequest::ReadSnapshot,
        WorkerRequest::ReadSnapshot,
        WorkerRequest::WriteFeature {
            code: BRIGHTNESS_CODE,
            value: 62,
        },
    ]);

    assert_eq!(pending.pop_next_task(), Some(WorkerTask::ReadSnapshot));
    assert_eq!(
        pending.pop_next_task(),
        Some(WorkerTask::WriteVcp {
            code: BRIGHTNESS_CODE,
            value: 62,
            input_status: false,
        })
    );
    assert_eq!(pending.pop_next_task(), None);
}

#[test]
fn queued_windows_brightness_writes_coalesce_to_the_latest_percentage() {
    let mut pending = PendingWorkerRequests::from_requests(vec![
        WorkerRequest::SetSdrContentBrightness { percent: 42 },
        WorkerRequest::SetSdrContentBrightness { percent: 73 },
    ]);

    assert_eq!(
        pending.pop_next_task(),
        Some(WorkerTask::SetSdrContentBrightness { percent: 73 })
    );
    assert_eq!(pending.pop_next_task(), None);
}

#[test]
fn cancelling_picture_writes_preserves_input_writes() {
    let mut pending = PendingWorkerRequests::from_requests(vec![
        WorkerRequest::WriteFeature {
            code: BRIGHTNESS_CODE,
            value: 63,
        },
        WorkerRequest::SetSdrContentBrightness { percent: 48 },
        WorkerRequest::SetInput {
            value: INPUT_HDMI_VALUE,
        },
        WorkerRequest::CancelPictureWrites,
    ]);

    assert_eq!(
        pending.pop_next_task(),
        Some(WorkerTask::WriteVcp {
            code: INPUT_CODE,
            value: INPUT_HDMI_VALUE,
            input_status: true,
        })
    );
    assert_eq!(pending.pop_next_task(), None);
}

#[test]
fn active_hdr_picture_reads_only_windows_sdr_brightness() {
    let state = hdr_state(true, true, true, false);
    let calls = RefCell::new(Vec::<&str>::new());

    let (brightness, contrast, backend) = read_picture_features(
        Some(state),
        PictureReadMode::Full,
        || {
            calls.borrow_mut().push("windows-sdr");
            FeatureSnapshot {
                value: 58,
                maximum: 100,
                available: true,
            }
        },
        |code| {
            calls.borrow_mut().push(if code == BRIGHTNESS_CODE {
                "ddc-brightness"
            } else {
                "ddc-contrast"
            });
            FeatureSnapshot {
                value: 0,
                maximum: 100,
                available: true,
            }
        },
    );

    assert_eq!(*calls.borrow(), vec!["windows-sdr"]);
    assert_eq!(brightness.value, 58);
    assert_eq!(brightness.maximum, 100);
    assert!(!contrast.available);
    assert_eq!(backend, PictureBackend::WindowsSdr);
}

#[test]
fn deferred_inactive_hdr_snapshot_skips_ddc_picture_reads() {
    let state = hdr_state(true, false, false, false);
    let calls = RefCell::new(Vec::<&str>::new());

    let (brightness, contrast, backend) = read_picture_features(
        Some(state),
        PictureReadMode::DeferDdc,
        || {
            calls.borrow_mut().push("windows-sdr");
            FeatureSnapshot {
                value: 0,
                maximum: 100,
                available: true,
            }
        },
        |code| {
            calls.borrow_mut().push(if code == BRIGHTNESS_CODE {
                "ddc-brightness"
            } else {
                "ddc-contrast"
            });
            FeatureSnapshot {
                value: 50,
                maximum: 100,
                available: true,
            }
        },
    );

    assert!(calls.borrow().is_empty());
    assert!(!brightness.available);
    assert!(!contrast.available);
    assert_eq!(backend, PictureBackend::Ddc);
}

#[test]
fn enabled_but_inactive_hdr_reads_ddc_picture_controls() {
    let state = hdr_state(true, true, false, false);
    let calls = RefCell::new(Vec::<&str>::new());

    let (_, _, backend) = read_picture_features(
        Some(state),
        PictureReadMode::Full,
        || {
            calls.borrow_mut().push("windows-sdr");
            FeatureSnapshot {
                value: 0,
                maximum: 100,
                available: true,
            }
        },
        |code| {
            calls.borrow_mut().push(if code == BRIGHTNESS_CODE {
                "ddc-brightness"
            } else {
                "ddc-contrast"
            });
            FeatureSnapshot {
                value: 50,
                maximum: 100,
                available: true,
            }
        },
    );

    assert_eq!(*calls.borrow(), vec!["ddc-brightness", "ddc-contrast"]);
    assert_eq!(backend, PictureBackend::Ddc);
}

#[test]
fn unknown_hdr_state_skips_all_picture_reads() {
    let calls = RefCell::new(Vec::<&str>::new());

    let (brightness, contrast, backend) = read_picture_features(
        None,
        PictureReadMode::Full,
        || {
            calls.borrow_mut().push("windows-sdr");
            FeatureSnapshot {
                value: 0,
                maximum: 100,
                available: true,
            }
        },
        |code| {
            calls.borrow_mut().push(if code == BRIGHTNESS_CODE {
                "ddc-brightness"
            } else {
                "ddc-contrast"
            });
            FeatureSnapshot {
                value: 0,
                maximum: 100,
                available: true,
            }
        },
    );

    assert!(calls.borrow().is_empty());
    assert!(!brightness.available);
    assert!(!contrast.available);
    assert_eq!(backend, PictureBackend::Unavailable);
}

#[test]
fn ddc_picture_writes_fail_closed_when_hdr_state_is_active_or_unknown() {
    let active = hdr_state(true, true, true, false);
    let inactive = hdr_state(true, false, false, false);

    assert!(validate_ddc_picture_write(BRIGHTNESS_CODE, Some(active)).is_err());
    assert!(validate_ddc_picture_write(CONTRAST_CODE, Some(active)).is_err());
    assert!(validate_ddc_picture_write(BRIGHTNESS_CODE, None).is_err());
    assert!(validate_ddc_picture_write(BRIGHTNESS_CODE, Some(inactive)).is_ok());
    assert!(validate_ddc_picture_write(INPUT_CODE, None).is_ok());
}

#[test]
fn hdr_requests_are_dispatched_as_worker_tasks() {
    let mut pending = PendingWorkerRequests::from_requests(vec![WorkerRequest::SetHdr {
        enabled: true,
        use_cached_ddc_values: false,
    }]);

    assert_eq!(
        pending.pop_next_task(),
        Some(WorkerTask::SetHdr {
            enabled: true,
            use_cached_ddc_values: false,
        })
    );
}

#[test]
fn write_tasks_do_not_emit_snapshots() {
    let mut events: Vec<WorkerEvent> = Vec::new();
    let mut device = LoggedDevice::new(RecordingWorkerDevice::default());

    execute_worker_task(
        WorkerTask::WriteVcp {
            code: BRIGHTNESS_CODE,
            value: 64,
            input_status: false,
        },
        &mut device,
        &mut events,
        &mut WorkerRuntimeState::default(),
    );

    assert_eq!(device.device.calls, vec!["write:<none>:10:64"]);
    assert!(events.is_empty());
}

#[test]
fn select_monitor_updates_the_runtime_selection_used_by_writes() {
    let mut events: Vec<WorkerEvent> = Vec::new();
    let mut runtime = WorkerRuntimeState::default();
    let mut device = LoggedDevice::new(RecordingWorkerDevice::default());

    execute_worker_task(
        WorkerTask::SelectMonitor {
            key: "dell-u4025qw|u4025qw|1".into(),
        },
        &mut device,
        &mut events,
        &mut runtime,
    );
    execute_worker_task(
        WorkerTask::WriteVcp {
            code: BRIGHTNESS_CODE,
            value: 64,
            input_status: false,
        },
        &mut device,
        &mut events,
        &mut runtime,
    );

    assert_eq!(
        device.device.calls,
        vec![
            "snapshot:dell-u4025qw|u4025qw|1",
            "write:dell-u4025qw|u4025qw|1:10:64"
        ]
    );
}

#[test]
fn missing_selected_monitor_reports_unavailability_without_fallback_claim() {
    let mut events: Vec<WorkerEvent> = Vec::new();
    let mut runtime = WorkerRuntimeState {
        selected_monitor_key: Some("missing".into()),
        consecutive_ddc_failures: 0,
    };
    let mut device = LoggedDevice::new(RecordingWorkerDevice {
        missing_selected_monitor: true,
        ..Default::default()
    });

    execute_worker_task(
        WorkerTask::ReadSnapshot,
        &mut device,
        &mut events,
        &mut runtime,
    );

    assert!(matches!(events.remove(0), WorkerEvent::Snapshot(_)));
    assert_eq!(
        events.remove(0),
        WorkerEvent::Status("Selected monitor is unavailable".into())
    );
}

#[test]
fn repeated_ddc_failures_refresh_monitor_topology() {
    let mut events: Vec<WorkerEvent> = Vec::new();
    let mut runtime = WorkerRuntimeState::default();
    let mut device = LoggedDevice::new(RecordingWorkerDevice {
        ddc_failure_snapshots: true,
        ..Default::default()
    });

    execute_worker_task(
        WorkerTask::ReadSnapshot,
        &mut device,
        &mut events,
        &mut runtime,
    );
    execute_worker_task(
        WorkerTask::ReadSnapshot,
        &mut device,
        &mut events,
        &mut runtime,
    );

    assert_eq!(
        device.device.calls,
        vec![
            "snapshot:<none>",
            "snapshot:<none>",
            "refresh",
            "snapshot:<none>"
        ]
    );
}

#[test]
fn hdr_status_describes_the_selected_monitor_state() {
    assert_eq!(
        hdr_status_text(hdr_state(true, true, true, false)),
        "Windows HDR: On"
    );
    assert_eq!(
        hdr_status_text(hdr_state(true, false, false, false)),
        "Windows HDR: Off"
    );
    assert_eq!(
        hdr_status_text(hdr_state(true, true, false, false)),
        "Windows HDR: On (not active)"
    );
    assert_eq!(
        hdr_status_text(hdr_state(true, false, false, true)),
        "Windows HDR: blocked by policy"
    );
}

#[test]
fn hdr_selection_rejects_a_missing_explicit_monitor_without_fallback() {
    let choices = vec![MonitorChoice {
        key: "first-monitor".into(),
        title: "First monitor".into(),
    }];

    let error = strict_selected_monitor_index(&choices, Some("missing-monitor")).unwrap_err();

    assert_eq!(error, "Selected monitor is unavailable");
    assert_eq!(strict_selected_monitor_index(&choices, None).unwrap(), 0);
}

#[test]
fn hdr_task_emits_confirmed_snapshot_before_completion() {
    let mut events: Vec<WorkerEvent> = Vec::new();
    let mut runtime = WorkerRuntimeState {
        selected_monitor_key: Some("selected-monitor".into()),
        consecutive_ddc_failures: 0,
    };
    let mut device = LoggedDevice::new(RecordingWorkerDevice::default());

    execute_worker_task(
        WorkerTask::SetHdr {
            enabled: true,
            use_cached_ddc_values: false,
        },
        &mut device,
        &mut events,
        &mut runtime,
    );

    assert_eq!(
        device.device.calls,
        vec!["hdr:selected-monitor:true", "snapshot:selected-monitor"]
    );
    assert!(matches!(events.remove(0), WorkerEvent::Snapshot(_)));
    assert_eq!(
        events.remove(0),
        WorkerEvent::HdrUpdateFinished {
            enabled: true,
            error: None,
            used_cached_ddc_values: false,
        }
    );
}

#[test]
fn cached_hdr_off_task_completes_before_full_picture_refresh() {
    let mut events: Vec<WorkerEvent> = Vec::new();
    let mut runtime = WorkerRuntimeState {
        selected_monitor_key: Some("selected-monitor".into()),
        consecutive_ddc_failures: 0,
    };
    let mut device = LoggedDevice::new(RecordingWorkerDevice::default());

    execute_worker_task(
        WorkerTask::SetHdr {
            enabled: false,
            use_cached_ddc_values: true,
        },
        &mut device,
        &mut events,
        &mut runtime,
    );

    assert_eq!(
        device.device.calls,
        vec![
            "hdr:selected-monitor:false",
            "snapshot:selected-monitor:defer-ddc",
            "snapshot:selected-monitor",
        ]
    );
    assert!(matches!(events.remove(0), WorkerEvent::Snapshot(_)));
    assert_eq!(
        events.remove(0),
        WorkerEvent::HdrUpdateFinished {
            enabled: false,
            error: None,
            used_cached_ddc_values: true,
        }
    );
    assert!(matches!(events.remove(0), WorkerEvent::Snapshot(_)));
}

#[test]
fn failed_hdr_task_still_refreshes_confirmed_state_before_error_completion() {
    let mut events: Vec<WorkerEvent> = Vec::new();
    let mut runtime = WorkerRuntimeState {
        selected_monitor_key: Some("missing-monitor".into()),
        consecutive_ddc_failures: 0,
    };
    let mut device = LoggedDevice::new(RecordingWorkerDevice {
        hdr_error: Some("Selected monitor is unavailable".into()),
        ..Default::default()
    });

    execute_worker_task(
        WorkerTask::SetHdr {
            enabled: true,
            use_cached_ddc_values: false,
        },
        &mut device,
        &mut events,
        &mut runtime,
    );

    assert!(matches!(events.remove(0), WorkerEvent::Snapshot(_)));
    assert_eq!(
        events.remove(0),
        WorkerEvent::HdrUpdateFinished {
            enabled: true,
            error: Some("HDR update failed: Selected monitor is unavailable".into()),
            used_cached_ddc_values: false,
        }
    );
}

#[test]
fn failed_hdr_change_does_not_claim_cached_restoration() {
    let mut events: Vec<WorkerEvent> = Vec::new();
    let mut runtime = WorkerRuntimeState {
        selected_monitor_key: Some("selected-monitor".into()),
        consecutive_ddc_failures: 0,
    };
    let mut device = LoggedDevice::new(RecordingWorkerDevice {
        hdr_error: Some("Windows rejected the change".into()),
        ..Default::default()
    });

    execute_worker_task(
        WorkerTask::SetHdr {
            enabled: false,
            use_cached_ddc_values: true,
        },
        &mut device,
        &mut events,
        &mut runtime,
    );

    assert!(matches!(events.remove(0), WorkerEvent::Snapshot(_)));
    assert_eq!(
        events.remove(0),
        WorkerEvent::HdrUpdateFinished {
            enabled: false,
            error: Some("HDR update failed: Windows rejected the change".into()),
            used_cached_ddc_values: false,
        }
    );
    assert!(events.is_empty());
}

#[test]
fn sdr_brightness_task_emits_confirmed_snapshot_before_completion() {
    let mut events: Vec<WorkerEvent> = Vec::new();
    let mut runtime = WorkerRuntimeState {
        selected_monitor_key: Some("selected-monitor".into()),
        consecutive_ddc_failures: 0,
    };
    let mut device = LoggedDevice::new(RecordingWorkerDevice::default());

    execute_worker_task(
        WorkerTask::SetSdrContentBrightness { percent: 61 },
        &mut device,
        &mut events,
        &mut runtime,
    );

    assert_eq!(
        device.device.calls,
        vec![
            "sdr-brightness:selected-monitor:61",
            "snapshot:selected-monitor"
        ]
    );
    assert!(matches!(events.remove(0), WorkerEvent::Snapshot(_)));
    assert_eq!(
        events.remove(0),
        WorkerEvent::SdrContentBrightnessFinished {
            requested_percent: 61,
            error: None,
        }
    );
}

#[test]
fn failed_sdr_brightness_task_recovers_snapshot_before_error_completion() {
    let mut events: Vec<WorkerEvent> = Vec::new();
    let mut runtime = WorkerRuntimeState {
        selected_monitor_key: Some("selected-monitor".into()),
        consecutive_ddc_failures: 0,
    };
    let mut device = LoggedDevice::new(RecordingWorkerDevice {
        sdr_brightness_error: Some("HDR is no longer active".into()),
        ..Default::default()
    });

    execute_worker_task(
        WorkerTask::SetSdrContentBrightness { percent: 61 },
        &mut device,
        &mut events,
        &mut runtime,
    );

    assert!(matches!(events.remove(0), WorkerEvent::Snapshot(_)));
    assert_eq!(
        events.remove(0),
        WorkerEvent::SdrContentBrightnessFinished {
            requested_percent: 61,
            error: Some("SDR content brightness update failed: HDR is no longer active".into()),
        }
    );
}

struct FailingAutostartDevice {
    enabled: bool,
}

impl WorkerDevice for FailingAutostartDevice {
    fn refresh_monitors(&mut self) -> Result<(), String> {
        Ok(())
    }

    fn snapshot(
        &mut self,
        _selected_monitor_key: Option<&str>,
        _picture_read_mode: PictureReadMode,
    ) -> DeviceSnapshot {
        unreachable!("snapshot is not part of this test")
    }

    fn write_vcp(
        &mut self,
        _selected_monitor_key: Option<&str>,
        _code: u8,
        _value: u32,
    ) -> Result<(), String> {
        unreachable!("write_vcp is not part of this test")
    }

    fn set_hdr_enabled(
        &mut self,
        _selected_monitor_key: Option<&str>,
        _enabled: bool,
    ) -> Result<(), String> {
        unreachable!("set_hdr_enabled is not part of this test")
    }

    fn set_sdr_content_brightness(
        &mut self,
        _selected_monitor_key: Option<&str>,
        _percent: u32,
    ) -> Result<(), String> {
        unreachable!("set_sdr_content_brightness is not part of this test")
    }

    fn autostart_enabled(&self) -> bool {
        self.enabled
    }

    fn set_autostart_enabled(&mut self, _enabled: bool) -> Result<(), String> {
        Err("permission denied".into())
    }
}

#[test]
fn failed_autostart_set_re_emits_actual_state() {
    let mut events: Vec<WorkerEvent> = Vec::new();
    let mut device = LoggedDevice::new(FailingAutostartDevice { enabled: false });

    execute_worker_task(
        WorkerTask::SetAutostart {
            enabled: true,
            quiet: false,
        },
        &mut device,
        &mut events,
        &mut WorkerRuntimeState::default(),
    );

    assert_eq!(
        events.remove(0),
        WorkerEvent::Error("Autostart update failed: permission denied".into())
    );
    assert_eq!(
        events.remove(0),
        WorkerEvent::AutostartState {
            enabled: false,
            status: String::new(),
        }
    );
}

#[test]
fn two_consecutive_ddc_failures_ask_for_a_refresh() {
    assert_eq!(ddc_failure_step(0, true), (1, false));
    assert_eq!(ddc_failure_step(1, true), (0, true));
    assert_eq!(ddc_failure_step(1, false), (0, false));
}

#[test]
fn input_values_map_to_routes_by_their_low_byte() {
    assert_eq!(input_route_from_value(0x0F), InputRoute::DisplayPort);
    assert_eq!(input_route_from_value(0x1011), InputRoute::Hdmi);
    assert_eq!(input_route_from_value(0x19), InputRoute::UsbC);
    assert_eq!(input_route_from_value(0x01), InputRoute::Unknown);
}

#[test]
fn monitor_keys_are_lower_case_and_numbered() {
    assert_eq!(normalize_key_part("  Dell U4025QW "), "dell-u4025qw");
    assert_eq!(
        monitor_key("Dell U4025QW", Some("U4025QW"), 0),
        "dell-u4025qw|u4025qw|0"
    );
}

#[test]
fn pending_requests_report_emptiness_and_take_pushed_requests() {
    let mut pending = PendingWorkerRequests::new();
    assert!(pending.is_empty());
    pending.push(WorkerRequest::RefreshAutostart);
    assert!(!pending.is_empty());
    assert_eq!(pending.pop_next_task(), Some(WorkerTask::RefreshAutostart));
    assert!(pending.is_empty());
}

use dell_controller::ddc::DdcError;
use dell_controller::hdr::DisplayTargetId;
use dell_controller::profile::{MonitorId, PhysicalMonitor};
use dell_controller::worker::{
    set_hdr_for_monitor, set_sdr_content_brightness_for_monitor, write_feature, MonitorActions,
    MonitorDiagnostics, MonitorRecord,
};

struct FakeActions {
    hdr: Result<HdrState, DdcError>,
    write: Result<(), DdcError>,
    writes: RefCell<Vec<(usize, u8, u32)>>,
    sdr_writes: RefCell<Vec<u32>>,
}

impl FakeActions {
    fn new(active: bool) -> Self {
        FakeActions {
            hdr: Ok(hdr_state(true, active, active, false)),
            write: Ok(()),
            writes: RefCell::new(Vec::new()),
            sdr_writes: RefCell::new(Vec::new()),
        }
    }
}

impl MonitorActions for FakeActions {
    fn hdr_state(&self, _target: &DisplayTargetId) -> Result<HdrState, DdcError> {
        self.hdr.clone()
    }

    fn set_vcp(&self, monitor_index: usize, code: u8, value: u32) -> Result<(), DdcError> {
        self.writes.borrow_mut().push((monitor_index, code, value));
        self.write.clone()
    }

    fn set_hdr_enabled(&self, _target: &DisplayTargetId, enabled: bool) -> Result<HdrState, DdcError> {
        Ok(hdr_state(true, enabled, enabled, false))
    }

    fn set_sdr_content_brightness(&self, _target: &DisplayTargetId, percent: u32) -> Result<(), DdcError> {
        self.sdr_writes.borrow_mut().push(percent);
        Ok(())
    }
}

fn record(description: &str, model: &str, target: Option<&str>, mapping_error: Option<&str>) -> MonitorRecord {
    MonitorRecord {
        info: PhysicalMonitor {
            id: MonitorId("0".into()),
            description: description.into(),
            model: Some(model.into()),
        },
        capabilities: None,
        diagnostics: MonitorDiagnostics {
            display_mapping_error: mapping_error.map(String::from),
            ..Default::default()
        },
        display_target: target.map(DisplayTargetId::new),
        display_monitor: None,
    }
}

#[test]
fn device_writes_address_the_selected_monitor_and_guard_picture_writes() {
    let actions = FakeActions::new(false);
    assert_eq!(
        write_feature(&[], None, BRIGHTNESS_CODE, 50, &actions),
        Err("No monitor is selected".to_string())
    );

    let monitors = vec![
        record("Dell U4025QW", "U4025QW", None, Some("cloned source")),
        record("Dell P2422H", "P2422H", Some("MONITOR#DEL1"), None),
    ];
    assert_eq!(
        write_feature(&monitors, Some("dell-u4025qw|u4025qw|0"), BRIGHTNESS_CODE, 50, &actions),
        Err("Windows display mapping is unavailable: cloned source".to_string())
    );
    assert_eq!(
        write_feature(&monitors, Some("missing"), INPUT_CODE, 0x11, &actions),
        Err("Selected monitor is unavailable".to_string())
    );
    assert_eq!(
        write_feature(&monitors, Some("dell-u4025qw|u4025qw|0"), INPUT_CODE, 0x11, &actions),
        Ok(())
    );
    assert_eq!(
        write_feature(&monitors, Some("dell-p2422h|p2422h|0"), CONTRAST_CODE, 40, &actions),
        Ok(())
    );
    assert_eq!(
        *actions.writes.borrow(),
        vec![(0, INPUT_CODE, 0x11), (1, CONTRAST_CODE, 40)]
    );

    let active = FakeActions::new(true);
    assert_eq!(
        write_feature(&monitors, Some("dell-p2422h|p2422h|0"), BRIGHTNESS_CODE, 40, &active),
        Err("Windows HDR is active; DDC picture write canceled".to_string())
    );
    let failing = FakeActions {
        write: Err(DdcError::Permanent("busy".into())),
        ..FakeActions::new(false)
    };
    assert_eq!(
        write_feature(&monitors, None, INPUT_CODE, 0x0F, &failing),
        Err("Set failed: permanent DDC error: busy".to_string())
    );
    let unknown_hdr = FakeActions {
        hdr: Err(DdcError::Permanent("no path".into())),
        ..FakeActions::new(false)
    };
    assert_eq!(
        write_feature(&monitors, Some("dell-p2422h|p2422h|0"), BRIGHTNESS_CODE, 1, &unknown_hdr),
        Err("Windows HDR state is unavailable; DDC picture write canceled: permanent DDC error: no path".to_string())
    );
}

#[test]
fn hdr_and_sdr_changes_need_the_display_mapping() {
    let monitors = vec![
        record("Dell U4025QW", "U4025QW", None, None),
        record("Dell P2422H", "P2422H", Some("MONITOR#DEL1"), None),
    ];
    let actions = FakeActions::new(false);

    assert_eq!(
        set_hdr_for_monitor(&monitors, None, true, &actions),
        Err("HDR display mapping is unavailable".to_string())
    );
    assert_eq!(
        set_hdr_for_monitor(&monitors, Some("dell-p2422h|p2422h|0"), true, &actions),
        Ok(())
    );
    assert_eq!(
        set_sdr_content_brightness_for_monitor(&monitors, Some("dell-p2422h|p2422h|0"), 40, &actions),
        Err("Windows HDR is no longer active".to_string())
    );
    let active = FakeActions::new(true);
    assert_eq!(
        set_sdr_content_brightness_for_monitor(&monitors, Some("dell-p2422h|p2422h|0"), 40, &active),
        Ok(())
    );
    assert_eq!(*active.sdr_writes.borrow(), vec![40]);
}

struct ScriptedProbe {
    hdr: Option<dell_controller::hdr::HdrState>,
    brightness: u32,
    contrast: u32,
    input: u32,
    reads: std::cell::RefCell<Vec<String>>,
}

impl dell_controller::worker::MonitorProbe for ScriptedProbe {
    fn hdr_state(&self, index: usize) -> Option<dell_controller::hdr::HdrState> {
        self.reads.borrow_mut().push(format!("hdr:{index}"));
        self.hdr
    }

    fn sdr_content_brightness(&self, index: usize) -> Option<u32> {
        self.reads.borrow_mut().push(format!("sdr:{index}"));
        Some(30)
    }

    fn read_vcp(&self, index: usize, code: u8) -> Option<dell_controller::ddc::VcpFeature> {
        self.reads.borrow_mut().push(format!("vcp:{index}:{code:02X}"));
        let current = match code {
            0x10 => self.brightness,
            0x12 => self.contrast,
            _ => self.input,
        };
        Some(dell_controller::ddc::VcpFeature {
            code: dell_controller::ddc::VcpCode::new(code),
            current,
            maximum: 100,
        })
    }
}

#[test]
fn snapshot_reads_brightness_then_contrast_then_input_of_the_selected_monitor() {
    let monitors = vec![record("Dell U4025QW", "U4025QW", Some("\\\\?\\DISPLAY#DELA1A0"), None)];
    let probe = ScriptedProbe {
        hdr: Some(dell_controller::hdr::HdrState {
            supported: true,
            user_enabled: false,
            active: false,
            limited_by_policy: false,
        }),
        brightness: 40,
        contrast: 60,
        input: 0x0F,
        reads: std::cell::RefCell::new(Vec::new()),
    };
    let mut logged = dell_controller::worker::LoggedProbe::new(&probe);
    let device = dell_controller::worker::build_snapshot(&monitors, None, PictureReadMode::Full, &mut logged);

    assert_eq!(device.snapshot.brightness.value, 40);
    assert_eq!(device.snapshot.contrast.value, 60);
    assert_eq!(device.snapshot.picture_backend, PictureBackend::Ddc);
    assert_eq!(device.snapshot.selected_input, InputRoute::DisplayPort);
    assert!(!device.ddc_failure);
    assert_eq!(
        *probe.reads.borrow(),
        vec!["hdr:0", "vcp:0:10", "vcp:0:12", "vcp:0:60"]
    );
}

#[test]
fn snapshot_with_active_hdr_reads_windows_brightness_only() {
    let monitors = vec![record("Dell U4025QW", "U4025QW", Some("\\\\?\\DISPLAY#DELA1A0"), None)];
    let probe = ScriptedProbe {
        hdr: Some(dell_controller::hdr::HdrState {
            supported: true,
            user_enabled: true,
            active: true,
            limited_by_policy: false,
        }),
        brightness: 40,
        contrast: 60,
        input: 0x0F,
        reads: std::cell::RefCell::new(Vec::new()),
    };
    let mut logged = dell_controller::worker::LoggedProbe::new(&probe);
    let device = dell_controller::worker::build_snapshot(&monitors, None, PictureReadMode::Full, &mut logged);

    assert_eq!(device.snapshot.brightness.value, 30);
    assert!(!device.snapshot.contrast.available);
    assert_eq!(device.snapshot.picture_backend, PictureBackend::WindowsSdr);
    assert!(device.snapshot.hdr_active);
    assert_eq!(*probe.reads.borrow(), vec!["hdr:0", "sdr:0", "vcp:0:60"]);
}
