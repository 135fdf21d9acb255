use std::collections::VecDeque;

use dell_controller::ddc::DdcError;
use dell_controller::hdr::{
    hdr_state_from_raw, map_display_target, non_empty_wide_string, resolve_target_path, retry_topology_query,
    same_display_topology, set_hdr_enabled_with_api, hdr_state_with_api, ActiveDisplayPath,
    DisplayConfigApi, DisplayPathIdentity, LoggedDisplayConfig, DisplayRoute, DisplayTargetId, RawHdrState,
    TopologyQueryError, ADVANCED_COLOR_MODE_HDR, ADVANCED_COLOR_MODE_SDR, ADVANCED_COLOR_MODE_WCG,
};

fn topology_path(source_name: &str, monitor_device_path: &str) -> DisplayPathIdentity {
    DisplayPathIdentity {
        source_name: source_name.into(),
        monitor_device_path: monitor_device_path.into(),
    }
}

fn error_text(error: DdcError) -> String {
    error.message()
}

#[test]
fn unique_source_maps_to_its_target_device_path() {
    let physical_sources = vec![r"\\.\DISPLAY1".to_string()];
    let paths = vec![topology_path(r"\\.\DISPLAY1", "MONITOR#DELA227")];

    let target = map_display_target(r"\\.\DISPLAY1", &physical_sources, &paths).unwrap();

    assert_eq!(target.monitor_device_path(), "MONITOR#DELA227");
}

#[test]
fn cloned_source_mapping_is_rejected() {
    let physical_sources = vec![r"\\.\DISPLAY1".to_string()];
    let paths = vec![
        topology_path(r"\\.\DISPLAY1", "MONITOR#DELA227"),
        topology_path(r"\\.\DISPLAY1", "MONITOR#ACME0001"),
    ];

    let error = error_text(map_display_target(r"\\.\DISPLAY1", &physical_sources, &paths).unwrap_err());

    assert!(error.contains("multiple Windows targets"));
}

#[test]
fn multiple_physical_monitors_for_one_source_are_rejected() {
    let physical_sources = vec![r"\\.\DISPLAY1".to_string(), r"\\.\display1".to_string()];
    let paths = vec![topology_path(r"\\.\DISPLAY1", "MONITOR#DELA227")];

    let error = error_text(map_display_target(r"\\.\DISPLAY1", &physical_sources, &paths).unwrap_err());

    assert!(error.contains("multiple DDC monitors"));
}

#[test]
fn duplicate_target_path_is_rejected() {
    let physical_sources = vec![r"\\.\DISPLAY1".to_string()];
    let paths = vec![
        topology_path(r"\\.\DISPLAY1", "MONITOR#DELA227"),
        topology_path(r"\\.\DISPLAY2", "monitor#dela227"),
    ];

    let error = error_text(map_display_target(r"\\.\DISPLAY1", &physical_sources, &paths).unwrap_err());

    assert!(error.contains("not unique"));
}

#[test]
fn empty_display_source_identity_is_rejected() {
    let physical_sources = vec![String::new()];
    let paths = vec![topology_path("", "MONITOR#DELA227")];

    let error = error_text(map_display_target("", &physical_sources, &paths).unwrap_err());

    assert!(error.contains("empty Windows display source"));
}

#[test]
fn target_resolution_uses_device_path_after_topology_reordering() {
    let target = DisplayTargetId::new("MONITOR#DELA227");
    let reordered = vec![
        topology_path(r"\\.\DISPLAY2", "MONITOR#ACME0001"),
        topology_path(r"\\.\DISPLAY7", "monitor#dela227"),
    ];

    let resolved = resolve_target_path(&target, &reordered).unwrap();

    assert_eq!(resolved.source_name, r"\\.\DISPLAY7");
}

#[test]
fn topology_stability_ignores_path_order_but_detects_reassignment() {
    let before = vec![
        topology_path(r"\\.\DISPLAY1", "MONITOR#DELA227"),
        topology_path(r"\\.\DISPLAY2", "MONITOR#ACME0001"),
    ];
    let reordered = vec![before[1].clone(), before[0].clone()];
    let reassigned = vec![
        topology_path(r"\\.\DISPLAY1", "MONITOR#ACME0001"),
        topology_path(r"\\.\DISPLAY2", "MONITOR#DELA227"),
    ];

    assert!(same_display_topology(&before, &reordered));
    assert!(!same_display_topology(&before, &reassigned));
}

#[test]
fn topology_comparison_is_symmetric_on_a_concrete_pair() {
    let left = vec![topology_path("A", "X")];
    let right = vec![topology_path("A", "X"), topology_path("B", "Y")];

    assert_eq!(
        same_display_topology(&left, &right),
        same_display_topology(&right, &left)
    );
    assert!(!same_display_topology(&left, &right));
}

#[test]
fn stale_target_path_is_rejected() {
    let target = DisplayTargetId::new("MONITOR#DELA227");
    let paths = vec![topology_path(r"\\.\DISPLAY2", "MONITOR#ACME0001")];

    let error = error_text(resolve_target_path(&target, &paths).unwrap_err());

    assert!(error.contains("is not active"));
}

#[test]
fn topology_query_retries_after_insufficient_buffer() {
    let mut attempts = 0;

    let value = retry_topology_query(|| {
        attempts += 1;
        if attempts == 1 {
            Err(TopologyQueryError::InsufficientBuffer)
        } else {
            Ok(42)
        }
    })
    .unwrap();

    assert_eq!(value, 42);
    assert_eq!(attempts, 2);
}

#[test]
fn topology_query_stops_after_three_insufficient_buffers() {
    let mut attempts = 0;

    let error = error_text(
        retry_topology_query::<(), _>(|| {
            attempts += 1;
            Err(TopologyQueryError::InsufficientBuffer)
        })
        .unwrap_err(),
    );

    assert_eq!(attempts, 3);
    assert!(error.contains("changed during 3 query attempts"));
}

#[test]
fn topology_query_failure_is_reported_at_once() {
    let mut attempts = 0;

    let error = retry_topology_query::<(), _>(|| {
        attempts += 1;
        Err(TopologyQueryError::Failed("denied".to_string()))
    })
    .unwrap_err();

    assert_eq!(attempts, 1);
    assert_eq!(error, DdcError::Permanent("denied".to_string()));
}

#[test]
fn windows_11_flags_distinguish_hdr_from_other_advanced_color() {
    let wcg_only = hdr_state_from_raw(0b1100_0011, ADVANCED_COLOR_MODE_WCG);
    let hdr = hdr_state_from_raw(0b0011_0011, ADVANCED_COLOR_MODE_HDR);

    assert!(!wcg_only.supported);
    assert!(!wcg_only.user_enabled);
    assert!(!wcg_only.active);
    assert!(hdr.supported);
    assert!(hdr.user_enabled);
    assert!(hdr.active);
}

#[test]
fn windows_11_policy_flag_is_exposed() {
    let state = hdr_state_from_raw(0b0001_1001, ADVANCED_COLOR_MODE_SDR);

    assert!(state.supported);
    assert!(!state.user_enabled);
    assert!(!state.active);
    assert!(state.limited_by_policy);
}

fn active_path(target_id: u32) -> ActiveDisplayPath {
    ActiveDisplayPath {
        identity: topology_path(r"\\.\DISPLAY1", "MONITOR#DELA227"),
        route: DisplayRoute {
            adapter_id_low: 7,
            adapter_id_high: 0,
            target_id,
        },
    }
}

struct FakeDisplayConfigApi {
    topologies: VecDeque<Vec<ActiveDisplayPath>>,
    raw_states: VecDeque<RawHdrState>,
    read_routes: Vec<DisplayRoute>,
    writes: Vec<(DisplayRoute, bool)>,
}

impl FakeDisplayConfigApi {
    fn new(topologies: Vec<Vec<ActiveDisplayPath>>, raw_states: Vec<RawHdrState>) -> Self {
        Self {
            topologies: topologies.into(),
            raw_states: raw_states.into(),
            read_routes: Vec::new(),
            writes: Vec::new(),
        }
    }
}

impl DisplayConfigApi for FakeDisplayConfigApi {
    fn active_paths(&mut self) -> Result<Vec<ActiveDisplayPath>, DdcError> {
        if self.topologies.len() > 1 {
            Ok(self.topologies.pop_front().unwrap())
        } else {
            Ok(self.topologies.front().cloned().unwrap_or_default())
        }
    }

    fn hdr_state(&mut self, route: DisplayRoute) -> Result<RawHdrState, DdcError> {
        self.read_routes.push(route);
        self.raw_states
            .pop_front()
            .ok_or_else(|| DdcError::Permanent("missing fake HDR state".into()))
    }

    fn set_hdr_enabled(&mut self, route: DisplayRoute, enabled: bool) -> Result<(), DdcError> {
        self.writes.push((route, enabled));
        Ok(())
    }
}

fn raw_hdr_state(supported: bool, enabled: bool, limited_by_policy: bool) -> RawHdrState {
    let mut flags = 0;
    if supported {
        flags |= 1 << 4;
    }
    if enabled {
        flags |= (1 << 1) | (1 << 5);
    }
    if limited_by_policy {
        flags |= 1 << 3;
    }
    RawHdrState {
        flags,
        active_color_mode: if enabled {
            ADVANCED_COLOR_MODE_HDR
        } else {
            ADVANCED_COLOR_MODE_SDR
        },
    }
}

#[test]
fn hdr_write_re_resolves_target_and_confirms_the_result() {
    let target = DisplayTargetId::new("MONITOR#DELA227");
    let mut api = LoggedDisplayConfig::new(FakeDisplayConfigApi::new(
        vec![vec![active_path(3)], vec![active_path(9)]],
        vec![
            raw_hdr_state(true, false, false),
            raw_hdr_state(true, true, false),
        ],
    ));

    let confirmed = set_hdr_enabled_with_api(&mut api, &target, true).unwrap();

    assert!(confirmed.user_enabled);
    assert_eq!(api.api.writes, vec![(active_path(3).route, true)]);
    assert_eq!(
        api.api.read_routes,
        vec![active_path(3).route, active_path(9).route]
    );
}

#[test]
fn hdr_write_rejects_unsupported_targets() {
    let target = DisplayTargetId::new("MONITOR#DELA227");
    let mut api = LoggedDisplayConfig::new(FakeDisplayConfigApi::new(
        vec![vec![active_path(3)]],
        vec![raw_hdr_state(false, false, false)],
    ));

    let error = error_text(set_hdr_enabled_with_api(&mut api, &target, true).unwrap_err());

    assert!(error.contains("does not support HDR"));
    assert!(api.api.writes.is_empty());
}

#[test]
fn hdr_write_rejects_policy_limited_targets() {
    let target = DisplayTargetId::new("MONITOR#DELA227");
    let mut api = LoggedDisplayConfig::new(FakeDisplayConfigApi::new(
        vec![vec![active_path(3)]],
        vec![raw_hdr_state(true, false, true)],
    ));

    let error = error_text(set_hdr_enabled_with_api(&mut api, &target, true).unwrap_err());

    assert!(error.contains("blocked by Windows policy"));
    assert!(api.api.writes.is_empty());
}

#[test]
fn hdr_write_fails_when_windows_does_not_confirm_requested_state() {
    let target = DisplayTargetId::new("MONITOR#DELA227");
    let mut api = LoggedDisplayConfig::new(FakeDisplayConfigApi::new(
        vec![vec![active_path(3)]],
        vec![
            raw_hdr_state(true, false, false),
            raw_hdr_state(true, false, false),
        ],
    ));

    let error = error_text(set_hdr_enabled_with_api(&mut api, &target, true).unwrap_err());

    assert!(error.contains("did not confirm HDR enabled"));
}

#[test]
fn hdr_state_is_read_through_the_resolved_route() {
    let target = DisplayTargetId::new("MONITOR#DELA227");
    let mut api = LoggedDisplayConfig::new(FakeDisplayConfigApi::new(
        vec![vec![active_path(5)]],
        vec![raw_hdr_state(true, true, false)],
    ));

    let state = hdr_state_with_api(&mut api, &target).unwrap();

    assert!(state.supported && state.user_enabled && state.active);
    assert_eq!(api.api.read_routes, vec![active_path(5).route]);
}

#[test]
fn wide_string_stops_at_the_first_nul() {
    let units: Vec<u16> = "\\\\.\\DISPLAY1".encode_utf16().chain([0u16, 0x41, 0x42]).collect();
    assert_eq!(
        non_empty_wide_string(&units, "source name"),
        Ok("\\\\.\\DISPLAY1".to_string())
    );
}

#[test]
fn wide_string_without_nul_uses_every_unit() {
    assert_eq!(non_empty_wide_string(&[0x41, 0x42], "target name"), Ok("AB".to_string()));
}

#[test]
fn empty_wide_string_names_the_missing_field() {
    assert_eq!(
        non_empty_wide_string(&[0, 0x41], "monitor device path"),
        Err(DdcError::Permanent("active path has no monitor device path".to_string()))
    );
    assert!(non_empty_wide_string(&[], "source name").is_err());
}

#[test]
fn wide_string_decodes_pairs_and_replaces_lone_surrogates() {
    assert_eq!(
        non_empty_wide_string(&[0xD83D, 0xDE00, 0xD800, 0x41, 0xDC00, 0], "source name"),
        Ok("\u{1F600}\u{FFFD}A\u{FFFD}".to_string())
    );
}
