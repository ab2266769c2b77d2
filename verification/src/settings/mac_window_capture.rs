//! Window capture on macOS.

use vstd::prelude::*;

verus! {

/// Type id of the window capture source.
pub const ID: &'static str = "window_capture";

/// Class of the window capture source.
pub const TYPE: &'static str = "OBS_SOURCE_TYPE_INPUT";

/// Settings of a window capture source. The screen capture source has
/// taken its place.
#[derive(Debug, Clone, Copy, PartialEq, Eq, Structural)]
pub struct Setting {
    pub show_shadow: bool,
    /// Id of the window captured; zero is no window.
    pub window: u32,
    pub show_empty_names: bool,
}

impl Default for Setting {
    /// The settings the plugin starts from: no window, nothing shown.
    fn default() -> (r: Self)
        ensures
            r == (Setting { show_shadow: false, window: 0, show_empty_names: false }),
    {
        Setting { show_shadow: false, window: 0, show_empty_names: false }
    }
}

} // verus!
