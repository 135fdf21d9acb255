//! Verified core of a Dell monitor controller: DDC/CI capability parsing,
//! monitor profiles, snapshot diffs, Windows HDR target mapping, and the
//! state machines behind the tray application.
pub mod text;
pub mod ddc;
pub mod capabilities;
pub mod profile;
pub mod profiles;
pub mod counting;
pub mod hdr;
pub mod snapshot;
pub mod startup;
pub mod monitor_text;
pub mod value_controls;
pub mod tray_events;
pub mod persistence;
pub mod controller_types;
pub mod app_controller;
pub mod controller_laws;
pub mod worker;
pub mod cli;
pub mod shortcut_keys;
pub mod debug_ui;
pub mod tray_policy;
pub mod ui_layout;
pub mod advanced_color;
pub mod hotkeys;
pub mod ui_bridge;
pub mod shortcut_commands;
