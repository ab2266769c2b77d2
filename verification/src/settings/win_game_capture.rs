//! Game capture on Windows.

use vstd::prelude::*;

verus! {

/// Type id of the game capture source.
pub const ID: &'static str = "game-capture";

/// Class of the game capture source.
pub const TYPE: &'static str = "OBS_SOURCE_TYPE_INPUT";

/// What a game capture source looks for.
#[derive(Debug, Clone, Copy, PartialEq, Eq, PartialOrd, Ord, Structural)]
pub enum CaptureMode {
    /// Any application that is shown full screen.
    Any,
    /// One window.
    Window,
    /// The window in front when a hotkey is pressed.
    Hotkey,
}

impl CaptureMode {
    /// The word the plugin knows this mode by.
    pub open spec fn spec_name(self) -> Seq<char> {
        match self {
            CaptureMode::Any => "any_fullscreen"@,
            CaptureMode::Window => "window"@,
            CaptureMode::Hotkey => "hotkey"@,
        }
    }

    /// The word the plugin knows this mode by.
    pub fn name(self) -> (r: &'static str)
        ensures
            r@ == self.spec_name(),
    {
        match self {
            CaptureMode::Any => "any_fullscreen",
            CaptureMode::Window => "window",
            CaptureMode::Hotkey => "hotkey",
        }
    }
}

impl Default for CaptureMode {
    fn default() -> (r: Self)
        ensures
            r == CaptureMode::Any,
    {
        CaptureMode::Any
    }
}

/// By what a window is found again.
#[derive(Debug, Clone, Copy, PartialEq, Eq, PartialOrd, Ord, Structural)]
pub enum WindowPriority {
    Class,
    Title,
    Exe,
}

impl WindowPriority {
    /// The number the plugin knows this priority by.
    pub open spec fn spec_code(self) -> u8 {
        match self {
            WindowPriority::Class => 0u8,
            WindowPriority::Title => 1u8,
            WindowPriority::Exe => 2u8,
        }
    }

    /// The number the plugin knows this priority by.
    #[verifier::when_used_as_spec(spec_code)]
    pub fn code(self) -> (r: u8)
        ensures
            r == self.spec_code(),
    {
        match self {
            WindowPriority::Class => 0,
            WindowPriority::Title => 1,
            WindowPriority::Exe => 2,
        }
    }

    /// The priority the plugin knows by `code`, if there is one.
    pub fn from_code(code: u8) -> (r: Option<Self>)
        ensures
            match r {
                Some(p) => p.spec_code() == code,
                None => code > 2,
            },
    {
        match code {
            0 => Some(WindowPriority::Class),
            1 => Some(WindowPriority::Title),
            2 => Some(WindowPriority::Exe),
            _ => None,
        }
    }
}

impl Default for WindowPriority {
    fn default() -> (r: Self)
        ensures
            r == WindowPriority::Exe,
    {
        WindowPriority::Exe
    }
}

/// How often the capture hook looks for its target.
#[derive(Debug, Clone, Copy, PartialEq, Eq, PartialOrd, Ord, Structural)]
pub enum HookRate {
    Slow,
    Normal,
    Fast,
    Fastest,
}

impl HookRate {
    /// The number the plugin knows this rate by.
    pub open spec fn spec_code(self) -> u8 {
        match self {
            HookRate::Slow => 0u8,
            HookRate::Normal => 1u8,
            HookRate::Fast => 2u8,
            HookRate::Fastest => 3u8,
        }
    }

    /// The number the plugin knows this rate by.
    #[verifier::when_used_as_spec(spec_code)]
    pub fn code(self) -> (r: u8)
        ensures
            r == self.spec_code(),
    {
        match self {
            HookRate::Slow => 0,
            HookRate::Normal => 1,
            HookRate::Fast => 2,
            HookRate::Fastest => 3,
        }
    }

    /// The rate the plugin knows by `code`, if there is one.
    pub fn from_code(code: u8) -> (r: Option<Self>)
        ensures
            match r {
                Some(p) => p.spec_code() == code,
                None => code > 3,
            },
    {
        match code {
            0 => Some(HookRate::Slow),
            1 => Some(HookRate::Normal),
            2 => Some(HookRate::Fast),
            3 => Some(HookRate::Fastest),
            _ => None,
        }
    }
}

impl Default for HookRate {
    fn default() -> (r: Self)
        ensures
            r == HookRate::Normal,
    {
        HookRate::Normal
    }
}

/// Color space of ten-bit captures.
#[derive(Debug, Clone, Copy, PartialEq, Eq, PartialOrd, Ord, Structural)]
pub enum Rgba10a2Space {
    Srgb,
    _2100PQ,
}

impl Rgba10a2Space {
    /// The word the plugin knows this color space by.
    pub open spec fn spec_name(self) -> Seq<char> {
        match self {
            Rgba10a2Space::Srgb => "srgb"@,
            Rgba10a2Space::_2100PQ => "2100pq"@,
        }
    }

    /// The word the plugin knows this color space by.
    pub fn name(self) -> (r: &'static str)
        ensures
            r@ == self.spec_name(),
    {
        match self {
            Rgba10a2Space::Srgb => "srgb",
            Rgba10a2Space::_2100PQ => "2100pq",
        }
    }
}

impl Default for Rgba10a2Space {
    fn default() -> (r: Self)
        ensures
            r == Rgba10a2Space::Srgb,
    {
        Rgba10a2Space::Srgb
    }
}

/// Settings of a game capture source.
#[derive(Debug, Clone, PartialEq, Eq)]
pub struct Setting {
    pub capture_mode: CaptureMode,
    pub window: Option<String>,
    pub priority: WindowPriority,
    pub sli_compatibility: bool,
    pub capture_cursor: bool,
    pub allow_transparency: bool,
    pub premultiplied_alpha: bool,
    pub limit_framerate: bool,
    pub capture_overlays: bool,
    pub anti_cheat_hook: bool,
    pub hook_rate: HookRate,
    pub rgb10a2_space: Rgba10a2Space,
    pub compat_info: Option<String>,
}

impl Default for Setting {
    /// The settings the plugin starts from: any full-screen application,
    /// found again by executable, with the cursor captured and the
    /// anti-cheat hook on.
    fn default() -> (r: Self)
        ensures
            r == (Setting {
                capture_mode: CaptureMode::Any,
                window: None,
                priority: WindowPriority::Exe,
                sli_compatibility: false,
                capture_cursor: true,
                allow_transparency: false,
                premultiplied_alpha: false,
                limit_framerate: false,
                capture_overlays: false,
                anti_cheat_hook: true,
                hook_rate: HookRate::Normal,
                rgb10a2_space: Rgba10a2Space::Srgb,
                compat_info: None,
            }),
    {
        Setting {
            capture_mode: CaptureMode::Any,
            window: None,
            priority: WindowPriority::Exe,
            sli_compatibility: false,
            capture_cursor: true,
            allow_transparency: false,
            premultiplied_alpha: false,
            limit_framerate: false,
            capture_overlays: false,
            anti_cheat_hook: true,
            hook_rate: HookRate::Normal,
            rgb10a2_space: Rgba10a2Space::Srgb,
            compat_info: None,
        }
    }
}

} // verus!
