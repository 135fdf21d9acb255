use std::cell::RefCell;
use std::collections::HashSet;

use dell_controller::controller_types::ShortcutTarget;
use dell_controller::hotkeys::{
    format_registration_error, map_hotkey_parse_error, normalize_shortcut_value,
    parse_display_shortcut, shortcut_parser_text_of, HotKeyParseFailure, HotKeyRegistrar,
    RegistrationError, ShortcutHotkeys, ShortcutKey,
};
use global_hotkey::hotkey::{Code, HotKey, Modifiers};

#[derive(Default)]
struct FakeRegistrar {
    active: RefCell<HashSet<u32>>,
    fail_on_register: RefCell<HashSet<u32>>,
    fail_on_unregister: RefCell<HashSet<u32>>,
}

impl FakeRegistrar {
    fn with_register_failure(hotkey: HotKey) -> Self {
        let registrar = Self::default();
        registrar.fail_on_register.borrow_mut().insert(hotkey.id());
        registrar
    }
}

impl HotKeyRegistrar for FakeRegistrar {
    fn register(&self, hotkey: &ShortcutKey) -> Result<(), RegistrationError> {
        if self.fail_on_register.borrow().contains(&hotkey.id) {
            return Err(RegistrationError::AlreadyRegistered);
        }
        self.active.borrow_mut().insert(hotkey.id);
        Ok(())
    }

    fn unregister(&self, hotkey: &ShortcutKey) -> Result<(), RegistrationError> {
        if self.fail_on_unregister.borrow().contains(&hotkey.id) {
            return Err(RegistrationError::Other(format!(
                "Failed to unregister hotkey: {}",
                hotkey.parser_text
            )));
        }
        self.active.borrow_mut().remove(&hotkey.id);
        Ok(())
    }
}

#[test]
fn parsing_display_shortcuts_maps_windows_labels_to_hotkeys() {
    let hotkey = parse_display_shortcut("Ctrl+Alt+Win+Q").expect("shortcut should parse");

    let expected = HotKey::new(
        Some(Modifiers::CONTROL | Modifiers::ALT | Modifiers::SUPER),
        Code::KeyQ,
    );
    assert_eq!(hotkey.id, expected.id());
    assert_eq!(hotkey.parser_text, "ctrl+alt+super+Q");
}

#[test]
fn parsing_ctrl_alt_pause_maps_to_the_pause_key() {
    let hotkey = parse_display_shortcut("Ctrl+Alt+Pause").expect("shortcut should parse");

    let expected = HotKey::new(Some(Modifiers::CONTROL | Modifiers::ALT), Code::Pause);
    assert_eq!(hotkey.id, expected.id());
}

#[test]
fn shortcuts_without_modifiers_or_with_unknown_ones_are_refused() {
    let needs_modifier = "Shortcut must include at least one modifier.";
    assert_eq!(parse_display_shortcut("None"), Err(needs_modifier.to_string()));
    assert_eq!(parse_display_shortcut("Q"), Err(needs_modifier.to_string()));
    assert_eq!(
        parse_display_shortcut("Hyper+Q"),
        Err("Unsupported modifier \"Hyper\".".to_string())
    );
    assert_eq!(
        parse_display_shortcut("Ctrl+Alt+NotAKey"),
        Err("\"NotAKey\" is not supported for global shortcuts.".to_string())
    );
    assert_eq!(
        shortcut_parser_text_of(" Ctrl + Shift + F5 "),
        Ok("ctrl+shift+F5".to_string())
    );
    assert_eq!(normalize_shortcut_value(""), "None");
    assert_eq!(normalize_shortcut_value("Ctrl+Q"), "Ctrl+Q");
}

#[test]
fn parse_and_registration_errors_have_user_messages() {
    assert_eq!(
        map_hotkey_parse_error(HotKeyParseFailure::EmptyToken("ctrl++".into())),
        "Shortcut must include at least one modifier."
    );
    assert_eq!(
        format_registration_error(RegistrationError::AlreadyRegistered),
        "That shortcut is already in use by another application."
    );
    assert_eq!(
        format_registration_error(RegistrationError::FailedToRegister("busy".into())),
        "Failed to register shortcut: busy"
    );
}

#[test]
fn registering_a_conflicting_shortcut_moves_it_to_the_new_target() {
    let registrar = FakeRegistrar::default();
    let mut hotkeys = ShortcutHotkeys::with_registrar(registrar);

    hotkeys
        .register_shortcut(ShortcutTarget::DisplayPort, "Ctrl+Alt+D")
        .expect("first registration should work");
    hotkeys
        .register_shortcut(ShortcutTarget::Hdmi, "Ctrl+Alt+H")
        .expect("second registration should work");

    let outcome = hotkeys
        .register_shortcut(ShortcutTarget::UsbC, "Ctrl+Alt+H")
        .expect("conflicting registration should move the binding");

    assert_eq!(outcome.displaced_target, Some(ShortcutTarget::Hdmi));
    assert_eq!(
        hotkeys.registered_shortcut_value(ShortcutTarget::UsbC),
        Some("Ctrl+Alt+H")
    );
    assert_eq!(
        hotkeys.registered_shortcut_value(ShortcutTarget::Hdmi),
        None
    );
}

#[test]
fn failed_registration_keeps_the_previous_binding() {
    let failing_hotkey = HotKey::new(Some(Modifiers::CONTROL | Modifiers::ALT), Code::KeyQ);
    let registrar = FakeRegistrar::with_register_failure(failing_hotkey);
    let mut hotkeys = ShortcutHotkeys::with_registrar(registrar);

    hotkeys
        .register_shortcut(ShortcutTarget::DisplayPort, "Ctrl+Alt+D")
        .expect("initial registration should work");
    let error = hotkeys
        .register_shortcut(ShortcutTarget::Hdmi, "Ctrl+Alt+Q")
        .expect_err("registration should fail");

    assert_eq!(
        error,
        "That shortcut is already in use by another application."
    );
    assert_eq!(
        hotkeys.registered_shortcut_value(ShortcutTarget::DisplayPort),
        Some("Ctrl+Alt+D")
    );
    assert_eq!(
        hotkeys.registered_shortcut_value(ShortcutTarget::Hdmi),
        None
    );
}

#[test]
fn event_ids_find_their_target_and_clearing_unbinds() {
    let mut hotkeys = ShortcutHotkeys::with_registrar(FakeRegistrar::default());

    hotkeys
        .register_shortcut(ShortcutTarget::UsbC, "Ctrl+Alt+T")
        .unwrap();
    let id = HotKey::new(Some(Modifiers::CONTROL | Modifiers::ALT), Code::KeyT).id();
    assert_eq!(hotkeys.target_for_event_id(id), Some(ShortcutTarget::UsbC));

    assert_eq!(
        hotkeys.register_shortcut(ShortcutTarget::UsbC, "Ctrl+Alt+T"),
        Ok(dell_controller::hotkeys::AssignmentOutcome { displaced_target: None })
    );
    assert_eq!(hotkeys.clear_shortcut(ShortcutTarget::UsbC), Ok(()));
    assert_eq!(hotkeys.target_for_event_id(id), None);
    assert_eq!(hotkeys.registered_shortcut_value(ShortcutTarget::UsbC), None);
    assert_eq!(hotkeys.clear_shortcut(ShortcutTarget::Hdmi), Ok(()));
}

#[test]
fn refused_unregistration_of_the_old_hotkey_keeps_every_binding() {
    let registrar = FakeRegistrar::default();
    let old_id = HotKey::new(Some(Modifiers::CONTROL | Modifiers::ALT), Code::KeyD).id();
    registrar.fail_on_unregister.borrow_mut().insert(old_id);
    let mut hotkeys = ShortcutHotkeys::with_registrar(registrar);

    hotkeys
        .register_shortcut(ShortcutTarget::DisplayPort, "Ctrl+Alt+D")
        .unwrap();
    assert!(hotkeys
        .register_shortcut(ShortcutTarget::DisplayPort, "Ctrl+Alt+E")
        .is_err());
    assert_eq!(
        hotkeys.registered_shortcut_value(ShortcutTarget::DisplayPort),
        Some("Ctrl+Alt+D")
    );
    assert!(hotkeys.clear_shortcut(ShortcutTarget::DisplayPort).is_err());
}

use dell_controller::app_controller::AppController;
use dell_controller::persistence::PersistedSettings;
use dell_controller::shortcut_commands::{clear_shortcut, commit_shortcut, register_saved_shortcuts};

#[test]
fn committed_shortcuts_show_their_binding_in_the_settings() {
    let mut controller = AppController::default();
    let mut hotkeys = ShortcutHotkeys::with_registrar(FakeRegistrar::default());

    commit_shortcut(&mut controller, &mut hotkeys, ShortcutTarget::Hdmi, "Ctrl+Alt+H".into());
    assert_eq!(controller.shortcut_value(ShortcutTarget::Hdmi), "Ctrl+Alt+H");
    assert_eq!(
        hotkeys.registered_shortcut_value(ShortcutTarget::Hdmi),
        Some("Ctrl+Alt+H")
    );

    commit_shortcut(&mut controller, &mut hotkeys, ShortcutTarget::UsbC, "Ctrl+Alt+H".into());
    assert_eq!(controller.shortcut_value(ShortcutTarget::UsbC), "Ctrl+Alt+H");
    assert_eq!(controller.shortcut_value(ShortcutTarget::Hdmi), "None");
    assert_eq!(hotkeys.registered_shortcut_value(ShortcutTarget::Hdmi), None);

    commit_shortcut(&mut controller, &mut hotkeys, ShortcutTarget::DisplayPort, "Q".into());
    assert_eq!(controller.shortcut_value(ShortcutTarget::DisplayPort), "None");
    assert_eq!(
        controller.ui_state().dp_shortcut.error_text,
        "Shortcut must include at least one modifier."
    );

    clear_shortcut(&mut controller, &mut hotkeys, ShortcutTarget::UsbC);
    assert_eq!(controller.shortcut_value(ShortcutTarget::UsbC), "None");
    assert_eq!(hotkeys.registered_shortcut_value(ShortcutTarget::UsbC), None);
}

#[test]
fn a_refused_registration_keeps_the_previous_shortcut_with_the_reason() {
    let failing_hotkey = HotKey::new(Some(Modifiers::CONTROL | Modifiers::ALT), Code::KeyQ);
    let mut controller = AppController::default();
    let mut hotkeys =
        ShortcutHotkeys::with_registrar(FakeRegistrar::with_register_failure(failing_hotkey));

    commit_shortcut(&mut controller, &mut hotkeys, ShortcutTarget::Hdmi, "Ctrl+Alt+H".into());
    commit_shortcut(&mut controller, &mut hotkeys, ShortcutTarget::Hdmi, "Ctrl+Alt+Q".into());

    assert_eq!(controller.shortcut_value(ShortcutTarget::Hdmi), "Ctrl+Alt+H");
    assert_eq!(
        controller.ui_state().hdmi_shortcut.error_text,
        "That shortcut is already in use by another application."
    );
}

#[test]
fn saved_shortcuts_are_bound_at_start_up() {
    let failing_hotkey = HotKey::new(Some(Modifiers::CONTROL | Modifiers::ALT), Code::KeyQ);
    let mut controller = AppController::default();
    let mut hotkeys =
        ShortcutHotkeys::with_registrar(FakeRegistrar::with_register_failure(failing_hotkey));
    let settings = PersistedSettings {
        autostart_enabled: false,
        selected_monitor_key: String::new(),
        tb_shortcut: "Ctrl+Alt+T".into(),
        dp_shortcut: "None".into(),
        hdmi_shortcut: "Ctrl+Alt+Q".into(),
    };

    register_saved_shortcuts(&mut controller, &mut hotkeys, &settings);

    assert_eq!(controller.shortcut_value(ShortcutTarget::UsbC), "Ctrl+Alt+T");
    assert_eq!(hotkeys.registered_shortcut_value(ShortcutTarget::DisplayPort), None);
    assert_eq!(controller.shortcut_value(ShortcutTarget::Hdmi), "None");
    assert_eq!(
        controller.ui_state().hdmi_shortcut.error_text,
        "That shortcut is already in use by another application."
    );
}

#[derive(Default)]
struct RecordingRegistrar {
    calls: RefCell<Vec<String>>,
    fail_on_register: RefCell<HashSet<u32>>,
}

impl HotKeyRegistrar for RecordingRegistrar {
    fn register(&self, hotkey: &ShortcutKey) -> Result<(), RegistrationError> {
        self.calls.borrow_mut().push(format!("register {}", hotkey.parser_text));
        if self.fail_on_register.borrow().contains(&hotkey.id) {
            return Err(RegistrationError::AlreadyRegistered);
        }
        Ok(())
    }

    fn unregister(&self, hotkey: &ShortcutKey) -> Result<(), RegistrationError> {
        self.calls.borrow_mut().push(format!("unregister {}", hotkey.parser_text));
        Ok(())
    }
}

#[test]
fn moving_a_hotkey_releases_it_first_and_replacing_one_releases_the_old_key_last() {
    let mut hotkeys = ShortcutHotkeys::with_registrar(RecordingRegistrar::default());
    hotkeys.register_shortcut(ShortcutTarget::Hdmi, "Ctrl+Alt+H").unwrap();
    hotkeys.register_shortcut(ShortcutTarget::UsbC, "Ctrl+Alt+U").unwrap();
    let outcome = hotkeys.register_shortcut(ShortcutTarget::UsbC, "Ctrl+Alt+H").unwrap();

    assert_eq!(outcome.displaced_target, Some(ShortcutTarget::Hdmi));
    assert_eq!(
        *hotkeys.registrar().calls.borrow(),
        vec![
            "register ctrl+alt+H",
            "register ctrl+alt+U",
            "unregister ctrl+alt+H",
            "register ctrl+alt+H",
            "unregister ctrl+alt+U",
        ]
    );
}
