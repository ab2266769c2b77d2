//! Display capture on macOS.

use vstd::prelude::*;

use crate::settings::mac_screen_capture::RawSetting;

verus! {

/// Type id of the display capture source.
pub const ID: &'static str = "display_capture";

/// Class of the display capture source.
pub const TYPE: &'static str = "OBS_SOURCE_TYPE_INPUT";

/// What part of the display is captured.
#[derive(Debug, Clone, Copy, PartialEq, Eq, PartialOrd, Ord, Structural)]
pub enum CropMode {
    NoCrop,
    Manual,
    ToWindow,
    ToWindowAndManual,
    Invalid,
}

impl CropMode {
    /// The number the plugin knows this mode by.
    pub open spec fn spec_code(self) -> u8 {
        match self {
            CropMode::NoCrop => 0u8,
            CropMode::Manual => 1u8,
            CropMode::ToWindow => 2u8,
            CropMode::ToWindowAndManual => 3u8,
            CropMode::Invalid => 4u8,
        }
    }

    /// The number the plugin knows this mode by.
    #[verifier::when_used_as_spec(spec_code)]
    pub fn code(self) -> (r: u8)
        ensures
            r == self.spec_code(),
    {
        match self {
            CropMode::NoCrop => 0,
            CropMode::Manual => 1,
            CropMode::ToWindow => 2,
            CropMode::ToWindowAndManual => 3,
            CropMode::Invalid => 4,
        }
    }

    /// The mode the plugin knows by `code`, if there is one.
    pub fn from_code(code: u8) -> (r: Option<Self>)
        ensures
            match r {
                Some(p) => p.spec_code() == code,
                None => code > 4,
            },
    {
        match code {
            0 => Some(CropMode::NoCrop),
            1 => Some(CropMode::Manual),
            2 => Some(CropMode::ToWindow),
            3 => Some(CropMode::ToWindowAndManual),
            4 => Some(CropMode::Invalid),
            _ => None,
        }
    }
}

impl Default for CropMode {
    fn default() -> (r: Self)
        ensures
            r == CropMode::NoCrop,
    {
        CropMode::NoCrop
    }
}

/// Settings of a display capture source. The screen capture source has
/// taken its place.
#[derive(Debug, Clone, Copy, PartialEq, Eq, Structural)]
pub struct Setting {
    /// The display captured, by the 128 bits of its UUID.
    pub display_uuid: u128,
    pub show_cursor: bool,
    pub crop_mode: CropMode,
    /// Id of the window cropped to; zero is no window.
    pub window: u32,
    pub show_empty_names: bool,
}

impl Setting {
    /// The display a new source captures: the one the screen capture
    /// source starts from.
    pub fn default_display_uuid() -> (r: u128)
        ensures
            r == 0,
    {
        RawSetting::default_display_uuid()
    }
}

impl Default for Setting {
    /// The settings the plugin starts from: the default display, whole,
    /// with the cursor shown.
    fn default() -> (r: Self)
        ensures
            r == (Setting {
                display_uuid: 0,
                show_cursor: true,
                crop_mode: CropMode::NoCrop,
                window: 0,
                show_empty_names: false,
            }),
    {
        Setting {
            display_uuid: Setting::default_display_uuid(),
            show_cursor: true,
            crop_mode: CropMode::NoCrop,
            window: 0,
            show_empty_names: false,
        }
    }
}

} // verus!
