//! The settings and window state that outlive a run, and where they are kept.
use vstd::prelude::*;

use crate::text::concat3;

verus! {

/// User settings kept between runs.
#[derive(Clone, Debug, Eq, PartialEq)]
pub struct PersistedSettings {
    pub autostart_enabled: bool,
    pub selected_monitor_key: String,
    pub tb_shortcut: String,
    pub dp_shortcut: String,
    pub hdmi_shortcut: String,
}

impl Default for PersistedSettings {
    fn default() -> (s: Self)
        ensures
            !s.autostart_enabled,
            s.selected_monitor_key@.len() == 0,
            s.tb_shortcut@.len() == 0,
            s.dp_shortcut@.len() == 0,
            s.hdmi_shortcut@.len() == 0,
    {
        PersistedSettings {
            autostart_enabled: false,
            selected_monitor_key: String::new(),
            tb_shortcut: String::new(),
            dp_shortcut: String::new(),
            hdmi_shortcut: String::new(),
        }
    }
}

/// The position of the settings window's top-left corner.
#[derive(Clone, Copy, Debug, Eq, PartialEq, Structural)]
pub struct PersistedWindowPosition {
    pub x: i32,
    pub y: i32,
}

/// Window state kept between runs.
#[derive(Clone, Copy, Debug, Eq, PartialEq, Structural)]
pub struct PersistedAppState {
    pub window_position: Option<PersistedWindowPosition>,
}

impl Default for PersistedAppState {
    fn default() -> (s: Self)
        ensures
            s.window_position is None,
    {
        PersistedAppState { window_position: None }
    }
}

pub const SETTINGS_FILE_NAME: &'static str = "settings.toml";

pub const STATE_FILE_NAME: &'static str = "state.toml";

pub const APP_DIR_NAME: &'static str = "Dell Controller";

/// The directory that holds the settings and state files.
#[derive(Clone, Debug)]
pub struct PersistenceStore {
    base_dir: String,
}

/// A file name under a directory, joined as `Path::join` joins a relative
/// name on this platform.
pub open spec fn joined(dir: Seq<char>, name: Seq<char>) -> Seq<char> {
    if dir.len() == 0 || dir.last() == '/' {
        dir + name
    } else {
        dir + "/"@ + name
    }
}

/// Joins a relative name to a directory.
pub fn join_path(dir: &str, name: &str) -> (r: String)
    ensures
        r@ == joined(dir@, name@),
{
    let chars = crate::text::chars_of(dir);
    if chars.len() == 0 || chars[chars.len() - 1] == '/' {
        crate::text::concat2(dir, name)
    } else {
        concat3(dir, "/", name)
    }
}

impl PersistenceStore {
    pub fn new(base_dir: &str) -> (s: Self)
        ensures
            s.base_dir() == base_dir@,
    {
        PersistenceStore { base_dir: String::from_str(base_dir) }
    }

    /// The directory of the store.
    pub closed spec fn base_dir(&self) -> Seq<char> {
        self.base_dir@
    }

    pub fn base_dir_text(&self) -> (r: &str)
        ensures
            r@ == self.base_dir(),
    {
        self.base_dir.as_str()
    }

    /// Where the settings are kept.
    pub fn settings_path(&self) -> (r: String)
        ensures
            r@ == joined(self.base_dir(), SETTINGS_FILE_NAME@),
    {
        join_path(self.base_dir.as_str(), SETTINGS_FILE_NAME)
    }

    /// Where the window state is kept.
    pub fn state_path(&self) -> (r: String)
        ensures
            r@ == joined(self.base_dir(), STATE_FILE_NAME@),
    {
        join_path(self.base_dir.as_str(), STATE_FILE_NAME)
    }
}

} // verus!
