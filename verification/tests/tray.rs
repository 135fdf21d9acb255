use dell_controller::controller_types::UiAction;
use dell_controller::debug_ui::{
    bmp_file_bytes, debug_ui_output_path, launch_mode_from_args, LaunchMode, BMP_HEADERS_SIZE,
};
use dell_controller::monitor_text::{compact_input_label, monitor_heading, monitor_title};
use dell_controller::persistence::{
    join_path, PersistedWindowPosition, PersistenceStore, SETTINGS_FILE_NAME, STATE_FILE_NAME,
};
use dell_controller::shortcut_keys::{
    key_scan_argument, shortcut_key_label, single_character, us_label_from_scan_code,
    us_label_from_virtual_key, virtual_key_from_scan,
};
use dell_controller::tray_events::{TrayAction, TrayClickTracker, TrayEvent, DEFAULT_DOUBLE_CLICK_MS};
use dell_controller::tray_policy::{
    persisted_window_position_from_placement, should_execute_registered_shortcut,
    should_focus_existing_window, should_restore_window_position, snapshot_poll_due,
    snapshot_poll_interval_ms,
};
use dell_controller::value_controls::{
    adjusted_feature_value, key_feature_delta, parse_feature_value, wheel_feature_delta,
    WriteThrottle,
};

#[test]
fn launch_mode_defaults_to_normal() {
    assert_eq!(launch_mode_from_args(&[]), LaunchMode::Normal);
    assert_eq!(launch_mode_from_args(&["monitors", "--help"]), LaunchMode::Normal);
}

#[test]
fn launch_mode_recognizes_debug_ui_token() {
    assert_eq!(launch_mode_from_args(&["debug-ui"]), LaunchMode::DebugUi);
    assert_eq!(
        launch_mode_from_args(&["something", "debug-ui"]),
        LaunchMode::DebugUi
    );
}

#[test]
fn debug_ui_output_path_is_written_into_dot_tmp() {
    let path = debug_ui_output_path("D:/DEV/dell-controller", 1234);

    assert_eq!(
        path,
        "D:/DEV/dell-controller/.tmp/dell-controller-tray-ui-1234.bmp"
    );
}

#[test]
fn bitmap_file_is_headers_then_pixels() {
    let pixels = vec![1u8, 2, 3, 4];
    let bytes = bmp_file_bytes(1, 1, &pixels);

    assert_eq!(bytes.len(), BMP_HEADERS_SIZE as usize + 4);
    assert_eq!(&bytes[0..2], b"BM");
    assert_eq!(bytes[2], (BMP_HEADERS_SIZE + 4) as u8);
    assert_eq!(&bytes[BMP_HEADERS_SIZE as usize..], &pixels[..]);
}

#[test]
fn does_not_append_model_when_description_already_contains_it() {
    assert_eq!(
        monitor_title("Dell U4025QW (DP HDR)", Some("U4025QW")),
        "Dell U4025QW (DP HDR)"
    );
}

#[test]
fn appends_model_when_description_does_not_contain_it() {
    assert_eq!(
        monitor_title("Dell Display (DP HDR)", Some("U4025QW")),
        "Dell Display (DP HDR) (U4025QW)"
    );
}

#[test]
fn keeps_description_when_model_is_missing_or_blank() {
    assert_eq!(monitor_title("Dell Display", None), "Dell Display");
    assert_eq!(monitor_title("Dell Display", Some("   ")), "Dell Display");
}

#[test]
fn heading_uses_clean_dell_model_when_model_is_known() {
    assert_eq!(
        monitor_heading("Dell U4025QW (DP HDR)", Some("U4025QW")),
        "Dell U4025QW"
    );
}

#[test]
fn heading_falls_back_to_description_without_parenthetical_suffix() {
    assert_eq!(
        monitor_heading("Dell U4025QW (DP HDR)", None),
        "Dell U4025QW"
    );
}

#[test]
fn compact_input_label_matches_header_labels() {
    assert_eq!(compact_input_label("DisplayPort 1"), "DP");
    assert_eq!(compact_input_label("USB-C"), "TB");
    assert_eq!(compact_input_label("HDMI"), "HDMI");
    assert_eq!(compact_input_label("unknown"), "Input");
}

#[test]
fn first_tray_left_click_does_not_open_window() {
    let mut tracker = TrayClickTracker::default();

    assert_eq!(tracker.left_up_at(1_000), None);
}

#[test]
fn second_tray_left_click_inside_double_click_window_opens_window() {
    let mut tracker = TrayClickTracker::default();

    assert_eq!(tracker.left_up_at(1_000), None);
    assert_eq!(
        tracker.left_up_at(1_000 + DEFAULT_DOUBLE_CLICK_MS - 1),
        Some(TrayAction::OpenWindow)
    );
}

#[test]
fn slow_second_tray_left_click_starts_a_new_double_click_window() {
    let mut tracker = TrayClickTracker::default();

    assert_eq!(tracker.left_up_at(1_000), None);
    assert_eq!(
        tracker.left_up_at(1_000 + DEFAULT_DOUBLE_CLICK_MS + 1),
        None
    );
    assert_eq!(
        tracker.left_up_at(1_000 + DEFAULT_DOUBLE_CLICK_MS + 20),
        Some(TrayAction::OpenWindow)
    );
}

#[test]
fn a_completed_double_click_is_forgotten() {
    let mut tracker = TrayClickTracker::default();

    assert_eq!(tracker.left_up_at(1_000), None);
    assert_eq!(tracker.left_up_at(1_100), Some(TrayAction::OpenWindow));
    assert_eq!(tracker.left_up_at(1_200), None);
}

#[test]
fn wheel_delta_maps_to_single_steps() {
    assert_eq!(wheel_feature_delta(120), Some(1));
    assert_eq!(wheel_feature_delta(-120), Some(-1));
    assert_eq!(wheel_feature_delta(0), None);
}

#[test]
fn up_down_keys_map_to_single_steps() {
    assert_eq!(key_feature_delta(0x26), Some(1));
    assert_eq!(key_feature_delta(0x28), Some(-1));
    assert_eq!(key_feature_delta(0x25), None);
}

#[test]
fn adjusted_values_are_clamped_to_feature_range() {
    assert_eq!(adjusted_feature_value(50, 100, 1), 51);
    assert_eq!(adjusted_feature_value(0, 100, -1), 0);
    assert_eq!(adjusted_feature_value(100, 100, 1), 100);
}

#[test]
fn edited_values_parse_and_clamp() {
    assert_eq!(parse_feature_value("75", 100), Some(75));
    assert_eq!(parse_feature_value(" 125 ", 100), Some(100));
    assert_eq!(parse_feature_value("", 100), None);
    assert_eq!(parse_feature_value("nope", 100), None);
}

#[test]
fn first_live_update_sends_immediately() {
    let mut throttle = WriteThrottle::new(140);

    assert_eq!(throttle.schedule(1_000, 50), Some(50));
    assert!(!throttle.has_pending());
}

#[test]
fn repeated_updates_inside_the_window_coalesce_to_the_last_value() {
    let mut throttle = WriteThrottle::new(140);

    assert_eq!(throttle.schedule(1_000, 50), Some(50));
    assert_eq!(throttle.schedule(1_040, 51), None);
    assert_eq!(throttle.schedule(1_090, 53), None);
    assert!(throttle.has_pending());

    assert_eq!(throttle.tick(1_139), None);
    assert_eq!(throttle.tick(1_140), Some(53));
    assert!(!throttle.has_pending());
}

#[test]
fn force_send_flushes_immediately_and_clears_any_pending_value() {
    let mut throttle = WriteThrottle::new(140);

    assert_eq!(throttle.schedule(1_000, 50), Some(50));
    assert_eq!(throttle.schedule(1_040, 51), None);
    assert!(throttle.has_pending());

    assert_eq!(throttle.force(1_060, 52), 52);
    assert!(!throttle.has_pending());
    assert_eq!(throttle.tick(1_200), None);
}

#[test]
fn trailing_send_opens_a_new_leading_window() {
    let mut throttle = WriteThrottle::new(140);

    assert_eq!(throttle.schedule(1_000, 50), Some(50));
    assert_eq!(throttle.schedule(1_030, 51), None);
    assert_eq!(throttle.tick(1_140), Some(51));
    assert_eq!(throttle.schedule(1_141, 52), None);
    assert_eq!(throttle.tick(1_280), Some(52));
}

#[test]
fn reset_discards_pending_value_and_opens_a_new_leading_window() {
    let mut throttle = WriteThrottle::new(140);

    assert_eq!(throttle.schedule(1_000, 50), Some(50));
    assert_eq!(throttle.schedule(1_040, 51), None);
    assert!(throttle.has_pending());

    throttle.reset();

    assert!(!throttle.has_pending());
    assert_eq!(throttle.tick(1_200), None);
    assert_eq!(throttle.schedule(1_050, 52), Some(52));
}

#[test]
fn default_throttle_uses_the_default_interval() {
    let mut throttle = WriteThrottle::default();

    assert_eq!(throttle.schedule(0, 1), Some(1));
    assert_eq!(throttle.schedule(139, 2), None);
    assert_eq!(throttle.tick(140), Some(2));
}

#[test]
fn snapshot_poll_interval_tracks_window_activity() {
    assert_eq!(snapshot_poll_interval_ms(true), 1_000);
    assert_eq!(snapshot_poll_interval_ms(false), 30_000);
}

#[test]
fn snapshot_poll_due_uses_the_selected_interval() {
    assert!(snapshot_poll_due(Some(1_000), 2_000, true));
    assert!(!snapshot_poll_due(Some(1_000), 1_999, true));
    assert!(snapshot_poll_due(Some(1_000), 31_000, false));
    assert!(!snapshot_poll_due(Some(1_000), 30_999, false));
    assert!(snapshot_poll_due(None, 1_000, true));
}

#[test]
fn open_window_focuses_existing_windows_instead_of_reopening_them() {
    assert!(should_focus_existing_window(&UiAction::OpenWindow, true));
    assert!(!should_focus_existing_window(&UiAction::OpenWindow, false));
    assert!(!should_focus_existing_window(&UiAction::Refresh, true));
}

#[test]
fn shortcut_execution_is_blocked_only_for_the_active_settings_window() {
    assert!(!should_execute_registered_shortcut(true, true));
    assert!(should_execute_registered_shortcut(true, false));
    assert!(should_execute_registered_shortcut(false, true));
}

#[test]
fn persisted_window_position_uses_the_normal_window_placement() {
    assert_eq!(
        persisted_window_position_from_placement(true, 120, 340),
        Some(PersistedWindowPosition { x: 120, y: 340 })
    );
    assert_eq!(persisted_window_position_from_placement(false, 120, 340), None);
}

#[test]
fn minimized_sentinel_coordinates_are_not_restored() {
    assert!(!should_restore_window_position(PersistedWindowPosition {
        x: -32_000,
        y: -32_000,
    }));
    assert!(should_restore_window_position(PersistedWindowPosition {
        x: -1_920,
        y: 120,
    }));
}

#[test]
fn scan_code_mapping_uses_us_physical_labels() {
    assert_eq!(us_label_from_scan_code(0x10), Some("Q"));
    assert_eq!(us_label_from_scan_code(0x27), Some(";"));
    assert_eq!(us_label_from_scan_code(0x39), Some("Space"));
    assert_eq!(us_label_from_scan_code(0x00), None);
}

#[test]
fn virtual_keys_and_single_characters() {
    assert_eq!(us_label_from_virtual_key(0x41), Some("A".to_string()));
    assert_eq!(single_character("x"), Some('x'));
    assert_eq!(single_character("xy"), None);
    assert_eq!(single_character(""), None);
}

#[test]
fn store_paths_join_the_base_directory() {
    let store = PersistenceStore::new("C:/Users/me/AppData/Roaming/Dell Controller");

    assert_eq!(store.settings_path(), join_path(store.base_dir_text(), SETTINGS_FILE_NAME));
    assert_eq!(store.state_path(), join_path(store.base_dir_text(), STATE_FILE_NAME));
    assert_eq!(join_path("a", "b.toml"), "a/b.toml");
}

#[test]
fn typed_keys_are_labelled_by_their_us_position() {
    assert_eq!(shortcut_key_label("\u{0439}", Some((0x51, 0x10))), "Q");
    assert_eq!(shortcut_key_label("!", Some((0x31, 0x02))), "1");
    assert_eq!(shortcut_key_label(" ", Some((0x20, 0x39))), "Space");
    assert_eq!(shortcut_key_label("f5", None), "F5");
    assert_eq!(shortcut_key_label("x", None), "X");
    assert_eq!(virtual_key_from_scan(-1), None);
    assert_eq!(virtual_key_from_scan(0x0131), Some(0x31));
    assert_eq!(key_scan_argument('a'), Some(0x61));
    assert_eq!(key_scan_argument('\u{1F600}'), None);
}

use dell_controller::controller_types::{
    FeatureId, FeatureState, InputRoute, ShortcutFieldState, ShortcutTarget, UiPane, UiState,
};
use dell_controller::ui_bridge::{action_for_callback, ui_properties, UiCallback};

#[test]
fn bridge_maps_state_to_properties_and_callbacks_to_actions() {
    let state = UiState {
        active_pane: UiPane::Settings,
        monitor_title: "Dell U4025QW".into(),
        input_summary: "USB-C".into(),
        hdr_status: "Windows HDR: multiple displays, mixed".into(),
        brightness: FeatureState {
            value: 42,
            maximum: 120,
            text: "42".into(),
            enabled: true,
        },
        contrast: FeatureState {
            value: 77,
            maximum: 100,
            text: "77".into(),
            enabled: true,
        },
        selected_input: InputRoute::UsbC,
        input_enabled: true,
        autostart_enabled: true,
        status_text: "Monitor diagnostics: capabilities unavailable".into(),
        tb_shortcut: ShortcutFieldState {
            value: "Ctrl+Alt+T".into(),
            preview: "Ctrl+".into(),
            awaiting_final_key: true,
            error_text: "Pick one more key".into(),
        },
        ..UiState::default()
    };

    let window = ui_properties(&state);

    assert!(window.settings_open);
    assert_eq!(window.monitor_title, "Dell U4025QW");
    assert_eq!(window.input_summary, "USB-C");
    assert_eq!(window.hdr_status, "Windows HDR: multiple displays, mixed");
    assert_eq!(window.brightness_value, 42);
    assert_eq!(window.brightness_maximum, 120);
    assert!(window.brightness_enabled);
    assert_eq!(window.contrast_value, 77);
    assert_eq!(window.selected_input, 1);
    assert!(window.input_enabled);
    assert!(window.autostart_enabled);
    assert_eq!(window.tb_shortcut.value, "Ctrl+Alt+T");
    assert_eq!(window.tb_shortcut.preview, "Ctrl+");
    assert!(window.tb_shortcut.awaiting_final_key);
    assert_eq!(window.tb_shortcut.error_text, "Pick one more key");
    assert_eq!(
        window.status_text,
        "Monitor diagnostics: capabilities unavailable"
    );

    assert_eq!(action_for_callback(UiCallback::OpenSettings), UiAction::OpenSettings);
    assert_eq!(action_for_callback(UiCallback::ToggleAutostart), UiAction::ToggleAutostart);
    assert_eq!(
        action_for_callback(UiCallback::SelectInput(2)),
        UiAction::SetInput(InputRoute::DisplayPort)
    );
    assert_eq!(
        action_for_callback(UiCallback::BrightnessPreview(63)),
        UiAction::PreviewFeature {
            feature: FeatureId::Brightness,
            value: 63,
        }
    );
    assert_eq!(
        action_for_callback(UiCallback::CommitShortcut {
            target: ShortcutTarget::Hdmi,
            text: "Ctrl+Alt+H".into(),
        }),
        UiAction::CommitShortcut {
            target: ShortcutTarget::Hdmi,
            shortcut: "Ctrl+Alt+H".into(),
        }
    );
}

#[test]
fn out_of_range_window_numbers_are_clamped_or_unknown() {
    assert_eq!(
        action_for_callback(UiCallback::ContrastCommit(-5)),
        UiAction::CommitFeature {
            feature: FeatureId::Contrast,
            value: 0,
        }
    );
    assert_eq!(
        action_for_callback(UiCallback::SelectInput(9)),
        UiAction::SetInput(InputRoute::Unknown)
    );
    assert!(!ui_properties(&UiState::default()).settings_open);
}

#[test]
fn tray_events_map_to_actions() {
    let mut tracker = TrayClickTracker::default();

    assert_eq!(tracker.action_for_event(TrayEvent::OpenItem, 0), Some(UiAction::OpenWindow));
    assert_eq!(tracker.action_for_event(TrayEvent::RefreshItem, 0), Some(UiAction::Refresh));
    assert_eq!(
        tracker.action_for_event(TrayEvent::AutostartItem, 0),
        Some(UiAction::ToggleAutostart)
    );
    assert_eq!(tracker.action_for_event(TrayEvent::ExitItem, 0), Some(UiAction::Exit));
    assert_eq!(tracker.action_for_event(TrayEvent::OtherMenuItem, 0), None);
    assert_eq!(tracker.action_for_event(TrayEvent::LeftButtonUp, 1_000), None);
    assert_eq!(
        tracker.action_for_event(TrayEvent::LeftButtonUp, 1_200),
        Some(UiAction::OpenWindow)
    );
    assert_eq!(
        tracker.action_for_event(TrayEvent::LeftDoubleClick, 1_300),
        Some(UiAction::OpenWindow)
    );
    assert_eq!(tracker.action_for_event(TrayEvent::Other, 1_300), None);
}
