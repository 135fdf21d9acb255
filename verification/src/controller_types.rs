//! The vocabulary shared by the tray controller and its worker: user actions,
//! worker requests and events, monitor snapshots and the state of the UI.
use vstd::prelude::*;

use crate::hdr::DisplayMonitorHandle;

verus! {

pub const BRIGHTNESS_CODE: u8 = 0x10;

pub const CONTRAST_CODE: u8 = 0x12;

pub const INPUT_CODE: u8 = 0x60;

pub const INPUT_DP_VALUE: u32 = 0x0F;

pub const INPUT_USB_C_VALUE: u32 = 0x19;

pub const INPUT_HDMI_VALUE: u32 = 0x11;

/// The input a monitor shows, as far as the tray knows it.
#[derive(Clone, Copy, Debug, Eq, PartialEq, Structural)]
pub enum InputRoute {
    Unknown,
    UsbC,
    DisplayPort,
    Hdmi,
}

impl Default for InputRoute {
    fn default() -> (r: Self)
        ensures
            r == InputRoute::Unknown,
    {
        InputRoute::Unknown
    }
}

/// The VCP value that selects an input.
pub open spec fn input_route_value(r: InputRoute) -> Option<u32> {
    match r {
        InputRoute::Unknown => None,
        InputRoute::UsbC => Some(INPUT_USB_C_VALUE),
        InputRoute::DisplayPort => Some(INPUT_DP_VALUE),
        InputRoute::Hdmi => Some(INPUT_HDMI_VALUE),
    }
}

impl InputRoute {
    pub fn to_vcp_value(self) -> (r: Option<u32>)
        ensures
            r == input_route_value(self),
    {
        match self {
            InputRoute::Unknown => None,
            InputRoute::UsbC => Some(INPUT_USB_C_VALUE),
            InputRoute::DisplayPort => Some(INPUT_DP_VALUE),
            InputRoute::Hdmi => Some(INPUT_HDMI_VALUE),
        }
    }
}

/// The inputs that have a global shortcut.
#[derive(Clone, Copy, Debug, Eq, Hash, PartialEq, Structural)]
pub enum ShortcutTarget {
    UsbC,
    DisplayPort,
    Hdmi,
}

impl ShortcutTarget {
    /// Every shortcut target, in the order the settings show them.
    pub fn all() -> (r: [ShortcutTarget; 3])
        ensures
            r@ == seq![ShortcutTarget::UsbC, ShortcutTarget::DisplayPort, ShortcutTarget::Hdmi],
    {
        [ShortcutTarget::UsbC, ShortcutTarget::DisplayPort, ShortcutTarget::Hdmi]
    }

    pub fn input_route(self) -> (r: InputRoute)
        ensures
            r == match self {
                ShortcutTarget::UsbC => InputRoute::UsbC,
                ShortcutTarget::DisplayPort => InputRoute::DisplayPort,
                ShortcutTarget::Hdmi => InputRoute::Hdmi,
            },
    {
        match self {
            ShortcutTarget::UsbC => InputRoute::UsbC,
            ShortcutTarget::DisplayPort => InputRoute::DisplayPort,
            ShortcutTarget::Hdmi => InputRoute::Hdmi,
        }
    }
}

/// The page of the settings window.
#[derive(Clone, Copy, Debug, Eq, PartialEq, Structural)]
pub enum UiPane {
    Main,
    Settings,
}

impl Default for UiPane {
    fn default() -> (r: Self)
        ensures
            r == UiPane::Main,
    {
        UiPane::Main
    }
}

/// The picture controls.
#[derive(Clone, Copy, Debug, Eq, PartialEq, Structural)]
pub enum FeatureId {
    Brightness,
    Contrast,
}

pub open spec fn feature_code(f: FeatureId) -> u8 {
    match f {
        FeatureId::Brightness => BRIGHTNESS_CODE,
        FeatureId::Contrast => CONTRAST_CODE,
    }
}

impl FeatureId {
    pub fn to_vcp_code(self) -> (r: u8)
        ensures
            r == feature_code(self),
    {
        match self {
            FeatureId::Brightness => BRIGHTNESS_CODE,
            FeatureId::Contrast => CONTRAST_CODE,
        }
    }
}

/// Who serves the picture controls: the monitor over DDC/CI, Windows' SDR
/// content brightness while HDR is active, or nobody.
#[derive(Clone, Copy, Debug, Eq, PartialEq, Structural)]
pub enum PictureBackend {
    Ddc,
    WindowsSdr,
    Unavailable,
}

/// What the user did in the window or the tray.
#[derive(Clone, Debug, Eq, PartialEq)]
pub enum UiAction {
    OpenWindow,
    OpenSettings,
    CloseSettings,
    HideWindow,
    Exit,
    Refresh,
    ToggleAutostart,
    ToggleHdr(bool),
    DeactivateShortcutCapture(ShortcutTarget),
    PreviewShortcut { target: ShortcutTarget, preview: String },
    CommitShortcut { target: ShortcutTarget, shortcut: String },
    ClearShortcut(ShortcutTarget),
    PersistWindowState,
    SelectMonitor(String),
    PreviewFeature { feature: FeatureId, value: u32 },
    CommitFeature { feature: FeatureId, value: u32 },
    SetInput(InputRoute),
}

/// Work for the worker thread.
#[derive(Clone, Debug, Eq, PartialEq)]
pub enum WorkerRequest {
    RefreshAll,
    ReadSnapshot,
    RefreshAutostart,
    SelectMonitor { key: String },
    SetAutostart { enabled: bool, quiet: bool },
    SetHdr { enabled: bool, use_cached_ddc_values: bool },
    SetSdrContentBrightness { percent: u32 },
    /// Drops the queued brightness and contrast writes.
    CancelPictureWrites,
    WriteFeature { code: u8, value: u32 },
    SetInput { value: u32 },
}

/// A worker request with its texts as character sequences.
pub enum RequestView {
    RefreshAll,
    ReadSnapshot,
    RefreshAutostart,
    SelectMonitor { key: Seq<char> },
    SetAutostart { enabled: bool, quiet: bool },
    SetHdr { enabled: bool, use_cached_ddc_values: bool },
    SetSdrContentBrightness { percent: u32 },
    CancelPictureWrites,
    WriteFeature { code: u8, value: u32 },
    SetInput { value: u32 },
}

impl View for WorkerRequest {
    type V = RequestView;

    open spec fn view(&self) -> RequestView {
        match *self {
            WorkerRequest::RefreshAll => RequestView::RefreshAll,
            WorkerRequest::ReadSnapshot => RequestView::ReadSnapshot,
            WorkerRequest::RefreshAutostart => RequestView::RefreshAutostart,
            WorkerRequest::SelectMonitor { key } => RequestView::SelectMonitor { key: key@ },
            WorkerRequest::SetAutostart { enabled, quiet } => RequestView::SetAutostart {
                enabled,
                quiet,
            },
            WorkerRequest::SetHdr { enabled, use_cached_ddc_values } => RequestView::SetHdr {
                enabled,
                use_cached_ddc_values,
            },
            WorkerRequest::SetSdrContentBrightness { percent } =>
                RequestView::SetSdrContentBrightness { percent },
            WorkerRequest::CancelPictureWrites => RequestView::CancelPictureWrites,
            WorkerRequest::WriteFeature { code, value } => RequestView::WriteFeature {
                code,
                value,
            },
            WorkerRequest::SetInput { value } => RequestView::SetInput { value },
        }
    }
}

/// One monitor the user can pick.
#[derive(Clone, Debug, Eq, PartialEq)]
pub struct MonitorChoice {
    pub key: String,
    pub title: String,
}

/// A picture value as read from the monitor or from Windows.
#[derive(Clone, Copy, Debug, Eq, PartialEq, Structural)]
pub struct FeatureSnapshot {
    pub value: u32,
    pub maximum: u32,
    pub available: bool,
}

/// What the worker read about the selected monitor.
#[derive(Clone, Debug, Eq, PartialEq)]
pub struct MonitorSnapshot {
    pub monitor_title: String,
    pub input_summary: String,
    pub hdr_status: String,
    pub hdr_enabled: bool,
    pub hdr_available: bool,
    pub hdr_active: bool,
    pub picture_backend: PictureBackend,
    pub advanced_color_monitor: Option<DisplayMonitorHandle>,
    pub diagnostic_status: String,
    pub monitor_choices: Vec<MonitorChoice>,
    pub selected_monitor_key: String,
    pub brightness: FeatureSnapshot,
    pub contrast: FeatureSnapshot,
    pub selected_input: InputRoute,
    pub input_enabled: bool,
    pub has_monitor: bool,
}

/// What the worker reports back.
#[derive(Clone, Debug, Eq, PartialEq)]
pub enum WorkerEvent {
    Snapshot(MonitorSnapshot),
    AutostartState { enabled: bool, status: String },
    HdrUpdateFinished { enabled: bool, error: Option<String>, used_cached_ddc_values: bool },
    SdrContentBrightnessFinished { requested_percent: u32, error: Option<String> },
    Status(String),
    Error(String),
}

/// A picture control as shown.
#[derive(Clone, Debug, Eq, PartialEq)]
pub struct FeatureState {
    pub value: u32,
    pub maximum: u32,
    pub text: String,
    pub enabled: bool,
}

/// A picture control with its text as a character sequence.
pub struct FeatureView {
    pub value: u32,
    pub maximum: u32,
    pub text: Seq<char>,
    pub enabled: bool,
}

impl View for FeatureState {
    type V = FeatureView;

    open spec fn view(&self) -> FeatureView {
        FeatureView {
            value: self.value,
            maximum: self.maximum,
            text: self.text@,
            enabled: self.enabled,
        }
    }
}

/// A picture control with no value: "n/a" out of 100, disabled.
pub open spec fn feature_default() -> FeatureView {
    FeatureView { value: 0, maximum: 100, text: "n/a"@, enabled: false }
}

impl Default for FeatureState {
    fn default() -> (r: Self)
        ensures
            r@ == feature_default(),
    {
        FeatureState { value: 0, maximum: 100, text: String::from_str("n/a"), enabled: false }
    }
}

/// The field of one input shortcut in the settings.
#[derive(Clone, Debug, Eq, PartialEq)]
pub struct ShortcutFieldState {
    pub value: String,
    pub preview: String,
    pub awaiting_final_key: bool,
    pub error_text: String,
}

pub struct ShortcutView {
    pub value: Seq<char>,
    pub preview: Seq<char>,
    pub awaiting_final_key: bool,
    pub error_text: Seq<char>,
}

impl View for ShortcutFieldState {
    type V = ShortcutView;

    open spec fn view(&self) -> ShortcutView {
        ShortcutView {
            value: self.value@,
            preview: self.preview@,
            awaiting_final_key: self.awaiting_final_key,
            error_text: self.error_text@,
        }
    }
}

/// A shortcut field with no shortcut: "None", nothing being captured.
pub open spec fn shortcut_default() -> ShortcutView {
    ShortcutView {
        value: "None"@,
        preview: Seq::empty(),
        awaiting_final_key: false,
        error_text: Seq::empty(),
    }
}

impl Default for ShortcutFieldState {
    fn default() -> (r: Self)
        ensures
            r@ == shortcut_default(),
    {
        ShortcutFieldState {
            value: String::from_str("None"),
            preview: String::new(),
            awaiting_final_key: false,
            error_text: String::new(),
        }
    }
}

/// Everything the window shows.
#[derive(Clone, Debug, Eq, PartialEq)]
pub struct UiState {
    pub active_pane: UiPane,
    pub monitor_title: String,
    pub input_summary: String,
    pub hdr_status: String,
    pub hdr_enabled: bool,
    pub hdr_toggle_enabled: bool,
    /// An HDR change was requested and has not finished.
    pub hdr_pending: bool,
    pub brightness: FeatureState,
    pub contrast: FeatureState,
    pub selected_input: InputRoute,
    pub input_enabled: bool,
    pub no_monitor: bool,
    pub monitor_choices: Vec<MonitorChoice>,
    pub selected_monitor_key: String,
    pub status_text: String,
    pub autostart_enabled: bool,
    pub tb_shortcut: ShortcutFieldState,
    pub dp_shortcut: ShortcutFieldState,
    pub hdmi_shortcut: ShortcutFieldState,
}

/// A monitor choice as a pair of character sequences.
pub struct ChoiceView {
    pub key: Seq<char>,
    pub title: Seq<char>,
}

pub open spec fn choice_view(c: MonitorChoice) -> ChoiceView {
    ChoiceView { key: c.key@, title: c.title@ }
}

pub open spec fn choices_view(s: Seq<MonitorChoice>) -> Seq<ChoiceView> {
    s.map_values(|c: MonitorChoice| choice_view(c))
}

/// The window's state with its texts as character sequences.
pub struct UiView {
    pub active_pane: UiPane,
    pub monitor_title: Seq<char>,
    pub input_summary: Seq<char>,
    pub hdr_status: Seq<char>,
    pub hdr_enabled: bool,
    pub hdr_toggle_enabled: bool,
    pub hdr_pending: bool,
    pub brightness: FeatureView,
    pub contrast: FeatureView,
    pub selected_input: InputRoute,
    pub input_enabled: bool,
    pub no_monitor: bool,
    pub monitor_choices: Seq<ChoiceView>,
    pub selected_monitor_key: Seq<char>,
    pub status_text: Seq<char>,
    pub autostart_enabled: bool,
    pub tb_shortcut: ShortcutView,
    pub dp_shortcut: ShortcutView,
    pub hdmi_shortcut: ShortcutView,
}

impl View for UiState {
    type V = UiView;

    open spec fn view(&self) -> UiView {
        UiView {
            active_pane: self.active_pane,
            monitor_title: self.monitor_title@,
            input_summary: self.input_summary@,
            hdr_status: self.hdr_status@,
            hdr_enabled: self.hdr_enabled,
            hdr_toggle_enabled: self.hdr_toggle_enabled,
            hdr_pending: self.hdr_pending,
            brightness: self.brightness@,
            contrast: self.contrast@,
            selected_input: self.selected_input,
            input_enabled: self.input_enabled,
            no_monitor: self.no_monitor,
            monitor_choices: choices_view(self.monitor_choices@),
            selected_monitor_key: self.selected_monitor_key@,
            status_text: self.status_text@,
            autostart_enabled: self.autostart_enabled,
            tb_shortcut: self.tb_shortcut@,
            dp_shortcut: self.dp_shortcut@,
            hdmi_shortcut: self.hdmi_shortcut@,
        }
    }
}

/// The window before anything is known: no monitor, nothing enabled.
pub open spec fn ui_default() -> UiView {
    UiView {
        active_pane: UiPane::Main,
        monitor_title: "No DDC/CI monitor detected"@,
        input_summary: "Input"@,
        hdr_status: "Windows HDR: unavailable"@,
        hdr_enabled: false,
        hdr_toggle_enabled: false,
        hdr_pending: false,
        brightness: feature_default(),
        contrast: feature_default(),
        selected_input: InputRoute::Unknown,
        input_enabled: false,
        no_monitor: true,
        monitor_choices: Seq::empty(),
        selected_monitor_key: Seq::empty(),
        status_text: "Ready"@,
        autostart_enabled: false,
        tb_shortcut: shortcut_default(),
        dp_shortcut: shortcut_default(),
        hdmi_shortcut: shortcut_default(),
    }
}

impl Default for UiState {
    fn default() -> (r: Self)
        ensures
            r@ == ui_default(),
    {
        let r = UiState {
            active_pane: UiPane::Main,
            monitor_title: String::from_str("No DDC/CI monitor detected"),
            input_summary: String::from_str("Input"),
            hdr_status: String::from_str("Windows HDR: unavailable"),
            hdr_enabled: false,
            hdr_toggle_enabled: false,
            hdr_pending: false,
            brightness: FeatureState::default(),
            contrast: FeatureState::default(),
            selected_input: InputRoute::Unknown,
            input_enabled: false,
            no_monitor: true,
            monitor_choices: Vec::new(),
            selected_monitor_key: String::new(),
            status_text: String::from_str("Ready"),
            autostart_enabled: false,
            tb_shortcut: ShortcutFieldState::default(),
            dp_shortcut: ShortcutFieldState::default(),
            hdmi_shortcut: ShortcutFieldState::default(),
        };
        assert(r@.monitor_choices =~= Seq::<ChoiceView>::empty());
        r
    }
}

/// What the application shell should do.
#[derive(Clone, Debug, Eq, PartialEq)]
pub enum ControllerEffect {
    ShowWindow,
    HideWindow,
    Quit,
    Worker(WorkerRequest),
}

pub enum EffectView {
    ShowWindow,
    HideWindow,
    Quit,
    Worker(RequestView),
}

impl View for ControllerEffect {
    type V = EffectView;

    open spec fn view(&self) -> EffectView {
        match *self {
            ControllerEffect::ShowWindow => EffectView::ShowWindow,
            ControllerEffect::HideWindow => EffectView::HideWindow,
            ControllerEffect::Quit => EffectView::Quit,
            ControllerEffect::Worker(r) => EffectView::Worker(r@),
        }
    }
}

/// A list of effects as views.
pub open spec fn effects_view(s: Seq<ControllerEffect>) -> Seq<EffectView> {
    s.map_values(|e: ControllerEffect| e@)
}

/// A copy of a monitor choice.
pub fn copy_choice(c: &MonitorChoice) -> (r: MonitorChoice)
    ensures
        r == *c,
{
    MonitorChoice { key: c.key.clone(), title: c.title.clone() }
}

/// A copy of a list of monitor choices.
pub fn copy_choices(s: &Vec<MonitorChoice>) -> (r: Vec<MonitorChoice>)
    ensures
        r@ == s@,
{
    let mut r: Vec<MonitorChoice> = Vec::new();
    let mut i: usize = 0;
    while i < s.len()
        invariant
            i <= s.len(),
            r@ == s@.subrange(0, i as int),
        decreases s.len() - i,
    {
        r.push(copy_choice(&s[i]));
        i = i + 1;
        assert(r@ =~= s@.subrange(0, i as int));
    }
    assert(s@.subrange(0, i as int) =~= s@);
    r
}

pub fn copy_feature(f: &FeatureState) -> (r: FeatureState)
    ensures
        r == *f,
{
    FeatureState { value: f.value, maximum: f.maximum, text: f.text.clone(), enabled: f.enabled }
}

pub fn copy_shortcut(s: &ShortcutFieldState) -> (r: ShortcutFieldState)
    ensures
        r == *s,
{
    ShortcutFieldState {
        value: s.value.clone(),
        preview: s.preview.clone(),
        awaiting_final_key: s.awaiting_final_key,
        error_text: s.error_text.clone(),
    }
}

/// A copy of the window's state.
pub fn copy_ui_state(s: &UiState) -> (r: UiState)
    ensures
        r@ == s@,
{
    UiState {
        active_pane: s.active_pane,
        monitor_title: s.monitor_title.clone(),
        input_summary: s.input_summary.clone(),
        hdr_status: s.hdr_status.clone(),
        hdr_enabled: s.hdr_enabled,
        hdr_toggle_enabled: s.hdr_toggle_enabled,
        hdr_pending: s.hdr_pending,
        brightness: copy_feature(&s.brightness),
        contrast: copy_feature(&s.contrast),
        selected_input: s.selected_input,
        input_enabled: s.input_enabled,
        no_monitor: s.no_monitor,
        monitor_choices: copy_choices(&s.monitor_choices),
        selected_monitor_key: s.selected_monitor_key.clone(),
        status_text: s.status_text.clone(),
        autostart_enabled: s.autostart_enabled,
        tb_shortcut: copy_shortcut(&s.tb_shortcut),
        dp_shortcut: copy_shortcut(&s.dp_shortcut),
        hdmi_shortcut: copy_shortcut(&s.hdmi_shortcut),
    }
}

} // verus!
