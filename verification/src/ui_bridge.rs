//! What the window shows of the controller's state, and which action each
//! callback of the window stands for.
use vstd::prelude::*;

use crate::controller_types::{FeatureId, InputRoute, ShortcutTarget, UiAction, UiPane, UiState};

verus! {

/// The input choice as the window numbers it: none, USB-C, DisplayPort, HDMI.
pub open spec fn ui_index_of(route: InputRoute) -> i32 {
    match route {
        InputRoute::Unknown => 0,
        InputRoute::UsbC => 1,
        InputRoute::DisplayPort => 2,
        InputRoute::Hdmi => 3,
    }
}

pub fn input_route_to_ui_index(route: InputRoute) -> (r: i32)
    ensures
        r == ui_index_of(route),
{
    match route {
        InputRoute::Unknown => 0,
        InputRoute::UsbC => 1,
        InputRoute::DisplayPort => 2,
        InputRoute::Hdmi => 3,
    }
}

/// The input a choice of the window names; any other number names none.
pub open spec fn route_of_ui_index(index: i32) -> InputRoute {
    if index == 1 {
        InputRoute::UsbC
    } else if index == 2 {
        InputRoute::DisplayPort
    } else if index == 3 {
        InputRoute::Hdmi
    } else {
        InputRoute::Unknown
    }
}

pub fn ui_index_to_input_route(index: i32) -> (r: InputRoute)
    ensures
        r == route_of_ui_index(index),
{
    if index == 1 {
        InputRoute::UsbC
    } else if index == 2 {
        InputRoute::DisplayPort
    } else if index == 3 {
        InputRoute::Hdmi
    } else {
        InputRoute::Unknown
    }
}

/// Numbering an input and reading the number back gives the input again.
pub proof fn law_ui_index_round_trip(route: InputRoute)
    ensures
        route_of_ui_index(ui_index_of(route)) == route,
{
}

/// A slider position as a value: negative positions count as zero.
pub fn slider_value(position: i32) -> (r: u32)
    ensures
        r == (if position < 0 {
            0
        } else {
            position as int
        }),
{
    if position < 0 {
        0
    } else {
        position as u32
    }
}

/// The callbacks of the window.
#[derive(Debug, Clone, PartialEq, Eq)]
pub enum UiCallback {
    OpenSettings,
    CloseSettings,
    ToggleAutostart,
    DeactivateShortcutCapture(ShortcutTarget),
    PreviewShortcut { target: ShortcutTarget, text: String },
    CommitShortcut { target: ShortcutTarget, text: String },
    ClearShortcut(ShortcutTarget),
    BrightnessPreview(i32),
    BrightnessCommit(i32),
    ContrastPreview(i32),
    ContrastCommit(i32),
    SelectInput(i32),
}

pub open spec fn slider_value_of(position: i32) -> u32 {
    if position < 0 {
        0
    } else {
        position as u32
    }
}

/// The action a callback of the window stands for.
pub open spec fn action_of(callback: UiCallback) -> UiAction {
    match callback {
        UiCallback::OpenSettings => UiAction::OpenSettings,
        UiCallback::CloseSettings => UiAction::CloseSettings,
        UiCallback::ToggleAutostart => UiAction::ToggleAutostart,
        UiCallback::DeactivateShortcutCapture(t) => UiAction::DeactivateShortcutCapture(t),
        UiCallback::PreviewShortcut { target, text } => UiAction::PreviewShortcut {
            target,
            preview: text,
        },
        UiCallback::CommitShortcut { target, text } => UiAction::CommitShortcut {
            target,
            shortcut: text,
        },
        UiCallback::ClearShortcut(t) => UiAction::ClearShortcut(t),
        UiCallback::BrightnessPreview(p) => UiAction::PreviewFeature {
            feature: FeatureId::Brightness,
            value: slider_value_of(p),
        },
        UiCallback::BrightnessCommit(p) => UiAction::CommitFeature {
            feature: FeatureId::Brightness,
            value: slider_value_of(p),
        },
        UiCallback::ContrastPreview(p) => UiAction::PreviewFeature {
            feature: FeatureId::Contrast,
            value: slider_value_of(p),
        },
        UiCallback::ContrastCommit(p) => UiAction::CommitFeature {
            feature: FeatureId::Contrast,
            value: slider_value_of(p),
        },
        UiCallback::SelectInput(i) => UiAction::SetInput(route_of_ui_index(i)),
    }
}

pub fn action_for_callback(callback: UiCallback) -> (r: UiAction)
    ensures
        r == action_of(callback),
{
    match callback {
        UiCallback::OpenSettings => UiAction::OpenSettings,
        UiCallback::CloseSettings => UiAction::CloseSettings,
        UiCallback::ToggleAutostart => UiAction::ToggleAutostart,
        UiCallback::DeactivateShortcutCapture(t) => UiAction::DeactivateShortcutCapture(t),
        UiCallback::PreviewShortcut { target, text } => UiAction::PreviewShortcut {
            target,
            preview: text,
        },
        UiCallback::CommitShortcut { target, text } => UiAction::CommitShortcut {
            target,
            shortcut: text,
        },
        UiCallback::ClearShortcut(t) => UiAction::ClearShortcut(t),
        UiCallback::BrightnessPreview(p) => UiAction::PreviewFeature {
            feature: FeatureId::Brightness,
            value: slider_value(p),
        },
        UiCallback::BrightnessCommit(p) => UiAction::CommitFeature {
            feature: FeatureId::Brightness,
            value: slider_value(p),
        },
        UiCallback::ContrastPreview(p) => UiAction::PreviewFeature {
            feature: FeatureId::Contrast,
            value: slider_value(p),
        },
        UiCallback::ContrastCommit(p) => UiAction::CommitFeature {
            feature: FeatureId::Contrast,
            value: slider_value(p),
        },
        UiCallback::SelectInput(i) => UiAction::SetInput(ui_index_to_input_route(i)),
    }
}

/// A shortcut field as the window shows it.
#[derive(Debug, Clone, PartialEq, Eq)]
pub struct ShortcutProperties {
    pub value: String,
    pub preview: String,
    pub awaiting_final_key: bool,
    pub error_text: String,
}

/// The properties of the window.
#[derive(Debug, Clone, PartialEq, Eq)]
pub struct UiProperties {
    pub settings_open: bool,
    pub monitor_title: String,
    pub input_summary: String,
    pub hdr_status: String,
    pub brightness_value: i32,
    pub brightness_maximum: i32,
    pub brightness_enabled: bool,
    pub contrast_value: i32,
    pub contrast_maximum: i32,
    pub contrast_enabled: bool,
    pub selected_input: i32,
    pub input_enabled: bool,
    pub autostart_enabled: bool,
    pub tb_shortcut: ShortcutProperties,
    pub dp_shortcut: ShortcutProperties,
    pub hdmi_shortcut: ShortcutProperties,
    pub status_text: String,
}

fn shortcut_properties(field: &crate::controller_types::ShortcutFieldState) -> (r:
    ShortcutProperties)
    ensures
        r.value == field.value,
        r.preview == field.preview,
        r.awaiting_final_key == field.awaiting_final_key,
        r.error_text == field.error_text,
{
    ShortcutProperties {
        value: field.value.clone(),
        preview: field.preview.clone(),
        awaiting_final_key: field.awaiting_final_key,
        error_text: field.error_text.clone(),
    }
}

/// What the window shows of the state: the settings page when it is the
/// active pane, the texts as they are, the values and maxima as window
/// numbers, the selected input by its number.
pub fn ui_properties(state: &UiState) -> (p: UiProperties)
    ensures
        p.settings_open == (state.active_pane == UiPane::Settings),
        p.monitor_title == state.monitor_title,
        p.input_summary == state.input_summary,
        p.hdr_status == state.hdr_status,
        p.brightness_value == state.brightness.value as i32,
        p.brightness_maximum == state.brightness.maximum as i32,
        p.brightness_enabled == state.brightness.enabled,
        p.contrast_value == state.contrast.value as i32,
        p.contrast_maximum == state.contrast.maximum as i32,
        p.contrast_enabled == state.contrast.enabled,
        p.selected_input == ui_index_of(state.selected_input),
        p.input_enabled == state.input_enabled,
        p.autostart_enabled == state.autostart_enabled,
        p.tb_shortcut.value == state.tb_shortcut.value && p.tb_shortcut.preview
            == state.tb_shortcut.preview && p.tb_shortcut.awaiting_final_key
            == state.tb_shortcut.awaiting_final_key && p.tb_shortcut.error_text
            == state.tb_shortcut.error_text,
        p.dp_shortcut.value == state.dp_shortcut.value && p.dp_shortcut.preview
            == state.dp_shortcut.preview && p.dp_shortcut.awaiting_final_key
            == state.dp_shortcut.awaiting_final_key && p.dp_shortcut.error_text
            == state.dp_shortcut.error_text,
        p.hdmi_shortcut.value == state.hdmi_shortcut.value && p.hdmi_shortcut.preview
            == state.hdmi_shortcut.preview && p.hdmi_shortcut.awaiting_final_key
            == state.hdmi_shortcut.awaiting_final_key && p.hdmi_shortcut.error_text
            == state.hdmi_shortcut.error_text,
        p.status_text == state.status_text,
{
    UiProperties {
        settings_open: match state.active_pane {
            UiPane::Settings => true,
            _ => false,
        },
        monitor_title: state.monitor_title.clone(),
        input_summary: state.input_summary.clone(),
        hdr_status: state.hdr_status.clone(),
        brightness_value: state.brightness.value as i32,
        brightness_maximum: state.brightness.maximum as i32,
        brightness_enabled: state.brightness.enabled,
        contrast_value: state.contrast.value as i32,
        contrast_maximum: state.contrast.maximum as i32,
        contrast_enabled: state.contrast.enabled,
        selected_input: input_route_to_ui_index(state.selected_input),
        input_enabled: state.input_enabled,
        autostart_enabled: state.autostart_enabled,
        tb_shortcut: shortcut_properties(&state.tb_shortcut),
        dp_shortcut: shortcut_properties(&state.dp_shortcut),
        hdmi_shortcut: shortcut_properties(&state.hdmi_shortcut),
        status_text: state.status_text.clone(),
    }
}

/// The feature a slider callback belongs to.
pub open spec fn slider_feature(callback: UiCallback) -> Option<FeatureId> {
    match callback {
        UiCallback::BrightnessPreview(_) | UiCallback::BrightnessCommit(_) => Some(FeatureId::Brightness),
        UiCallback::ContrastPreview(_) | UiCallback::ContrastCommit(_) => Some(FeatureId::Contrast),
        _ => None,
    }
}

/// Whether a slider callback is the release of the slider.
pub open spec fn slider_released(callback: UiCallback) -> bool {
    callback is BrightnessCommit || callback is ContrastCommit
}

/// The position a slider callback carries.
pub open spec fn slider_position(callback: UiCallback) -> int {
    match callback {
        UiCallback::BrightnessPreview(p) => p as int,
        UiCallback::BrightnessCommit(p) => p as int,
        UiCallback::ContrastPreview(p) => p as int,
        UiCallback::ContrastCommit(p) => p as int,
        _ => 0,
    }
}

/// Each slider acts on its own feature: a brightness callback yields an
/// action on brightness and a contrast callback one on contrast; moving the
/// slider previews and releasing it commits; the value is the slider's
/// position, with a negative position taken as zero.
pub proof fn law_sliders_act_on_their_own_feature(callback: UiCallback)
    requires
        slider_feature(callback) is Some,
    ensures
        match action_of(callback) {
            UiAction::PreviewFeature { feature, value } => Some(feature) == slider_feature(callback)
                && !slider_released(callback) && value as int == (if slider_position(callback) < 0 {
                0
            } else {
                slider_position(callback)
            }),
            UiAction::CommitFeature { feature, value } => Some(feature) == slider_feature(callback)
                && slider_released(callback) && value as int == (if slider_position(callback) < 0 {
                0
            } else {
                slider_position(callback)
            }),
            _ => false,
        },
{
}

} // verus!
