use dell_controller::capabilities::{CapabilityParseError, Capabilities};
use dell_controller::cli::{resolve_read, resolve_write, select_monitor, CliError};
use dell_controller::ddc::{DdcError, VcpCode, VcpValue};
use dell_controller::profiles::{profile_for_model, u4025qw_profile, ProfileCatalog};
use dell_controller::profile::{ControlDefinition, ControlKind};
use dell_controller::snapshot::{Snapshot, SnapshotDiff, Timestamp};

const AT: Timestamp = Timestamp { secs: 1_700_000_000, nanos: 0 };
use dell_controller::startup::{
    autostart_entry_enabled, command_executable_path, is_autostart_enabled,
    normalized_path_text, set_autostart_enabled, AutostartEntryState,
};

const U4025QW_CAPS: &str = "(prot(monitor)type(LCD)model(U4025QW)cmds(01 02 03 07 0C E3 F3)vcp(02 04 05 08 10 12 14(01 04 05 06 08 09 0B 0C) 16 18 1A 52 60(19 0F 11 ) 62 66(00F2) 67 68 87 AC AE B2 B6 C6 C8 C9 CA CC(02 0A 03 04 08 09 0D 06 ) D6(01 04 05) DC(00 03 05 ) DF E0 E1 E2(00 02 04 0C 0D 0F 10 11 13 0B 1A 1B 3D 14 27 23 24 3A ) E4(00 01) E5 E7(02 03) E8 E9(00 01 02 21 22 24 27 28 29 2A ) EA(FE FC ) F0(09 0A A1 31 32 34 36 ) EE EF(00 01 0F) F1 F2 FD)mswhql(1)asset_eep(40)mccs_ver(2.1))";

#[test]
fn resolves_safe_named_control_writes() {
    let profile = u4025qw_profile();

    let write = resolve_write(Some(&profile), "brightness", "70", false).expect("safe write");

    assert_eq!(write.code.get(), 0x10);
    assert_eq!(write.value, 70);
}

#[test]
fn blocks_unknown_raw_vcp_writes_unless_advanced_is_set() {
    let profile = u4025qw_profile();

    assert!(resolve_write(Some(&profile), "0xE5", "1", false).is_err());

    let write = resolve_write(Some(&profile), "0xE5", "1", true).expect("advanced write");
    assert_eq!(write.code.get(), 0xE5);
    assert_eq!(write.value, 1);
}

#[test]
fn unsafe_named_controls_and_bad_values_are_refused() {
    let profile = u4025qw_profile();

    assert_eq!(
        resolve_write(Some(&profile), "smart-hdr", "1", false),
        Err(CliError::UnsafeControl("smart-hdr".to_string()))
    );
    assert!(resolve_write(Some(&profile), "smart-hdr", "1", true).is_ok());
    assert_eq!(
        resolve_write(Some(&profile), "brightness", "lots", false),
        Err(CliError::InvalidValue("lots".to_string()))
    );
    assert_eq!(
        resolve_write(None, "0x10", "5", false),
        Err(CliError::RawWriteNeedsAdvanced)
    );
    assert_eq!(
        resolve_write(None, "brightness", "5", false),
        Err(CliError::UnknownControl("brightness".to_string()))
    );
    assert_eq!(resolve_read(Some(&profile), "contrast").map(|c| c.get()), Ok(0x12));
    assert_eq!(resolve_read(None, "0x60").map(|c| c.get()), Ok(0x60));
    assert!(CliError::RawWriteNeedsAdvanced.message().contains("--advanced"));
}

#[test]
fn monitor_selection_by_index_and_text() {
    assert_eq!(select_monitor(&[], "0"), Err(CliError::MonitorIndexNotFound(0)));
    assert_eq!(
        select_monitor(&[], "dell"),
        Err(CliError::MonitorNotFound("dell".to_string()))
    );
}

#[test]
fn u4025qw_profile_marks_known_safe_controls_and_vendor_controls() {
    let profile = u4025qw_profile();

    assert_eq!(profile.identity.model, "U4025QW");
    assert!(profile.can_write_control("brightness"));
    assert!(profile.can_write_control("contrast"));
    assert!(profile.can_write_control("input"));
    assert!(!profile.can_write_control("smart-hdr"));
    assert!(profile.control("hardware-kvm").is_some());
}

#[test]
fn builtin_catalog_finds_the_profile_by_model() {
    let catalog = ProfileCatalog::with_builtin();

    assert!(catalog.for_model("U4025QW").is_some());
    assert!(catalog.for_model("P2422H").is_none());
    assert!(profile_for_model(Some("U4025QW")).is_some());
    assert!(profile_for_model(None).is_none());
}

#[test]
fn parses_model_commands_mccs_version_and_vcp_values() {
    let caps = Capabilities::parse(U4025QW_CAPS).expect("valid capabilities string");

    assert_eq!(caps.model.as_deref(), Some("U4025QW"));
    assert_eq!(caps.mccs_version.as_deref(), Some("2.1"));
    assert!(caps.commands.contains(&0xE3));
    assert!(caps.supports_vcp(0x10));
    assert_eq!(caps.vcp_values(0x60), Some(&[0x19, 0x0F, 0x11][..]));
    assert_eq!(
        caps.vcp_values(0xE2),
        Some(
            &[
                0x00, 0x02, 0x04, 0x0C, 0x0D, 0x0F, 0x10, 0x11, 0x13, 0x0B, 0x1A, 0x1B, 0x3D, 0x14,
                0x27, 0x23, 0x24, 0x3A
            ][..]
        )
    );
}

#[test]
fn rejects_unbalanced_capabilities_strings() {
    let err = Capabilities::parse("(model(U4025QW)vcp(10 12)").unwrap_err();

    assert!(err.message().contains("unbalanced"));
}

#[test]
fn capability_errors_name_their_cause() {
    assert_eq!(
        Capabilities::parse("model(U4025QW)").unwrap_err(),
        CapabilityParseError::ExpectedRootGroup
    );
    assert_eq!(
        Capabilities::parse("(vcp(10)) x").unwrap_err(),
        CapabilityParseError::TrailingTokens
    );
    assert_eq!(
        Capabilities::parse("(vcp(1G))").unwrap_err(),
        CapabilityParseError::InvalidHex("1G".to_string())
    );
    assert_eq!(
        CapabilityParseError::InvalidHex("1G".to_string()).message(),
        "invalid hex token `1G`"
    );
    let caps = Capabilities::parse("(vcp(12 10 60(0F)))").unwrap();
    assert_eq!(caps.vcp_codes(), vec![0x10, 0x12, 0x60]);
    assert!(!caps.supports_vcp(0x14));
    assert_eq!(caps.vcp_values(0x14), None);
    assert_eq!(caps.model, None);
}

#[test]
fn diffs_changed_added_and_removed_vcp_values() {
    let before = Snapshot::from_pairs("Dell U4025QW", &[(0x10, 75), (0x12, 80), (0x60, 0x0F)], AT);
    let after = Snapshot::from_pairs("Dell U4025QW", &[(0x10, 70), (0x60, 0x0F), (0xE2, 0x11)], AT);

    let diff = SnapshotDiff::between(&before, &after);

    assert_eq!(diff.changed_value(0x10), Some((75, 70)));
    assert_eq!(diff.removed_value(0x12), Some(80));
    assert_eq!(diff.added_value(0xE2), Some(0x11));
    assert!(!diff.has_change(0x60));
}

#[test]
fn a_snapshot_differs_from_itself_nowhere() {
    let snapshot = Snapshot::from_pairs("Dell U4025QW", &[(0x10, 75), (0x12, 80)], AT);

    let diff = SnapshotDiff::between(&snapshot, &snapshot);

    assert!(diff.changed.is_empty() && diff.added.is_empty() && diff.removed.is_empty());
    assert_eq!(snapshot.value(0x12), Some(80));
    assert_eq!(snapshot.value(0x14), None);
}

#[test]
fn vcp_codes_and_values_parse_in_decimal_and_hex() {
    assert_eq!(VcpCode::parse_str("0x10").map(|c| c.get()), Ok(0x10));
    assert_eq!(VcpCode::parse_str("16").map(|c| c.get()), Ok(16));
    assert!(matches!(VcpCode::parse_str("0x100"), Err(DdcError::InvalidVcpCode(_))));
    assert_eq!(VcpValue::parse_str("0x0F").map(|v| v.get()), Ok(15));
    assert!(matches!(VcpValue::parse_str("x"), Err(DdcError::InvalidVcpValue(_))));
    assert_eq!(
        DdcError::Permanent("gone".to_string()).message(),
        "permanent DDC error: gone"
    );
}

#[test]
fn autostart_entry_matching_current_exe_is_enabled() {
    assert_eq!(
        autostart_entry_enabled(
            Some(r#""C:\Tools\Dell Controller\dell-controller-tray.exe""#),
            r#"C:\Tools\Dell Controller\dell-controller-tray.exe"#,
        ),
        AutostartEntryState::Enabled
    );
}

#[test]
fn stale_autostart_entry_is_not_enabled() {
    assert_eq!(
        autostart_entry_enabled(
            Some(r#""C:\Old\dell-controller-tray.exe""#),
            r#"C:\Tools\Dell Controller\dell-controller-tray.exe"#,
        ),
        AutostartEntryState::Stale
    );
}

#[test]
fn missing_autostart_entry_is_disabled() {
    assert_eq!(
        autostart_entry_enabled(
            None,
            r#"C:\Tools\Dell Controller\dell-controller-tray.exe"#,
        ),
        AutostartEntryState::Disabled
    );
}

#[test]
fn autostart_paths_compare_case_and_slash_insensitively() {
    assert_eq!(
        command_executable_path(r#""C:\A B\x.exe" --flag"#),
        Some(r#"C:\A B\x.exe"#.to_string())
    );
    assert_eq!(normalized_path_text("C:/Tools/X.EXE"), r"c:\tools\x.exe");
    assert_eq!(
        autostart_entry_enabled(Some(r#""c:/tools/x.exe""#), r"C:\Tools\X.exe"),
        AutostartEntryState::Enabled
    );
    assert_eq!(is_autostart_enabled(), Ok(false));
    assert!(set_autostart_enabled(true).is_err());
}

use dell_controller::capabilities::Capabilities as Caps;
use dell_controller::cli::{
    caps_lines, check_probe_mode, diff_lines, feature_line, monitor_list_line, probe_error_line,
    write_confirmation, ResolvedWrite,
};
use dell_controller::ddc::VcpFeature;
use dell_controller::profile::{MonitorId, PhysicalMonitor};
use dell_controller::worker::{MonitorDiagnostics, MonitorRecord};

fn record(description: &str, model: Option<&str>, caps: Option<Caps>) -> MonitorRecord {
    MonitorRecord {
        info: PhysicalMonitor {
            id: MonitorId("0".into()),
            description: description.into(),
            model: model.map(String::from),
        },
        capabilities: caps,
        diagnostics: MonitorDiagnostics::default(),
        display_target: None,
        display_monitor: None,
    }
}

#[test]
fn command_output_lines_match_the_printed_format() {
    let feature = VcpFeature {
        code: VcpCode::new(0x10),
        current: 50,
        maximum: 100,
    };
    assert_eq!(feature_line(&feature), "0x10 current=50 max=100");
    assert_eq!(
        write_confirmation(&ResolvedWrite {
            code: VcpCode::new(0xE5),
            value: 1
        }),
        "set 0xE5 to 1"
    );
    assert_eq!(
        probe_error_line(0x14, &DdcError::Transient("busy".into())),
        "0x14 error=transient DDC error: busy"
    );
    assert!(check_probe_mode(true).is_ok());
    assert!(check_probe_mode(false)
        .unwrap_err()
        .contains("use set --advanced"));
}

#[test]
fn diff_output_lists_changes_or_says_there_are_none() {
    let before = Snapshot::from_pairs("m", &[(0x10, 75), (0x12, 80)], AT);
    let after = Snapshot::from_pairs("m", &[(0x10, 70), (0xE2, 0x11)], AT);

    assert_eq!(
        diff_lines(&SnapshotDiff::between(&before, &after)),
        vec![
            "changed 0x10: 75 -> 70".to_string(),
            "added 0xE2: 17".to_string(),
            "removed 0x12: 80".to_string(),
        ]
    );
    assert_eq!(
        diff_lines(&SnapshotDiff::between(&before, &before)),
        vec!["no changes".to_string()]
    );
}

#[test]
fn monitor_and_capability_listings() {
    let caps = Caps::parse("(model(U4025QW)vcp(60 10 12)mccs_ver(2.1))").unwrap();
    assert_eq!(
        caps_lines(&caps),
        vec![
            "model=U4025QW".to_string(),
            "mccs=2.1".to_string(),
            "vcp=0x10 0x12 0x60".to_string(),
        ]
    );
    assert_eq!(
        monitor_list_line(0, &record("Dell U4025QW", None, Some(caps))),
        "0: Dell U4025QW model=U4025QW ddc=true"
    );
    assert_eq!(
        monitor_list_line(3, &record("Generic PnP", None, None)),
        "3: Generic PnP model=unknown ddc=false"
    );
    let empty = Caps::parse("(vcp())").unwrap();
    assert_eq!(caps_lines(&empty)[2], "vcp=");
    assert_eq!(caps_lines(&empty)[0], "model=unknown");
}

#[test]
fn snapshot_keeps_the_time_it_was_given() {
    let at = Timestamp { secs: 42, nanos: 7 };
    let snapshot = Snapshot::from_pairs("m", &[(0x10, 1), (0x10, 2)], at);
    assert_eq!(snapshot.captured_at, at);
    assert_eq!(snapshot.value(0x10), Some(2));
}

#[test]
fn value_labels_replace_in_place_and_add_at_the_end() {
    let mut control = ControlDefinition {
        name: "input".into(),
        label: "Input Source".into(),
        vcp: VcpCode::new(0x60),
        kind: ControlKind::Enum,
        safe_write: true,
        values: Vec::new(),
    };
    control.set_value_label(VcpValue::new(0x0F), "DP".into());
    control.set_value_label(VcpValue::new(0x11), "HDMI".into());
    control.set_value_label(VcpValue::new(0x0F), "DisplayPort".into());
    assert_eq!(
        control.values,
        vec![
            (VcpValue::new(0x0F), "DisplayPort".to_string()),
            (VcpValue::new(0x11), "HDMI".to_string())
        ]
    );
    assert_eq!(control.value_label(0x0F), Some("DisplayPort"));
}

#[test]
fn vcp_values_keep_written_order_and_the_last_listing_wins() {
    let caps = Capabilities::parse("(vcp(60(19 0F 11) E2 10))").unwrap();
    assert_eq!(caps.vcp_values(0x60), Some(&[0x19, 0x0F, 0x11][..]));
    assert_eq!(caps.vcp_values(0xE2), Some(&[][..]));
    assert!(caps.supports_vcp(0x10));
    assert_eq!(caps.vcp_values(0x12), None);

    let relisted = Capabilities::parse("(vcp(60(19 0F) 60(11)))").unwrap();
    assert_eq!(relisted.vcp_values(0x60), Some(&[0x11][..]));
}
