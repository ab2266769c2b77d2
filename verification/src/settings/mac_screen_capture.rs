//! Screen capture on macOS: one source for displays, windows and
//! applications.

use vstd::prelude::*;
use vstd::string::*;

verus! {

/// Type id of the screen capture source.
pub const ID: &'static str = "screen_capture";

/// Class of the screen capture source.
pub const TYPE: &'static str = "OBS_SOURCE_TYPE_INPUT";

/// What a screen capture source follows.
#[derive(Debug, Clone, Copy, PartialEq, Eq, PartialOrd, Ord, Structural)]
pub enum ScreenCaptureType {
    DisplayStream,
    WindowStream,
    ApplicationStream,
}

impl ScreenCaptureType {
    /// The number the plugin knows this kind of stream by.
    pub open spec fn spec_code(self) -> u8 {
        match self {
            ScreenCaptureType::DisplayStream => 0u8,
            ScreenCaptureType::WindowStream => 1u8,
            ScreenCaptureType::ApplicationStream => 2u8,
        }
    }

    /// The number the plugin knows this kind of stream by.
    #[verifier::when_used_as_spec(spec_code)]
    pub fn code(self) -> (r: u8)
        ensures
            r == self.spec_code(),
    {
        match self {
            ScreenCaptureType::DisplayStream => 0,
            ScreenCaptureType::WindowStream => 1,
            ScreenCaptureType::ApplicationStream => 2,
        }
    }

    /// The kind of stream the plugin knows by `code`, if there is one.
    pub fn from_code(code: u8) -> (r: Option<Self>)
        ensures
            match r {
                Some(p) => p.spec_code() == code,
                None => code > 2,
            },
    {
        match code {
            0 => Some(ScreenCaptureType::DisplayStream),
            1 => Some(ScreenCaptureType::WindowStream),
            2 => Some(ScreenCaptureType::ApplicationStream),
            _ => None,
        }
    }
}

impl Default for ScreenCaptureType {
    fn default() -> (r: Self)
        ensures
            r == ScreenCaptureType::DisplayStream,
    {
        ScreenCaptureType::DisplayStream
    }
}

/// Settings of a screen capture source, each kind of stream with the
/// fields it reads.
#[derive(Debug, Clone, PartialEq, Eq)]
pub enum Setting {
    Display { display_uuid: u128, show_cursor: bool, hide_obs: bool },
    Window { window_id: u32, show_cursor: bool, show_empty_names: bool, show_hidden_windows: bool },
    Application {
        display_uuid: u128,
        application_name: String,
        show_cursor: bool,
        show_hidden_windows: bool,
    },
}

/// Settings of a screen capture source as the plugin stores them: one
/// record for every kind of stream. A field that the kind in `type_` does
/// not read keeps its default.
#[derive(Debug, Clone, PartialEq, Eq)]
pub struct RawSetting {
    /// The display captured, by the 128 bits of its UUID. Read for
    /// displays and applications.
    pub display_uuid: u128,
    /// Bundle id of the application captured. Read for applications.
    pub application: Option<String>,
    pub type_: ScreenCaptureType,
    /// Id of the window captured; zero is no window. Read for windows.
    pub window: u32,
    pub show_cursor: bool,
    /// Read for displays.
    pub hide_obs: bool,
    /// Read for windows.
    pub show_empty_names: bool,
    /// Read for windows and applications.
    pub show_hidden_windows: bool,
}

impl RawSetting {
    /// The record the plugin starts from.
    pub open spec fn initial() -> RawSetting {
        RawSetting {
            display_uuid: 0,
            application: None,
            type_: ScreenCaptureType::DisplayStream,
            window: 0,
            show_cursor: true,
            hide_obs: false,
            show_empty_names: false,
            show_hidden_windows: false,
        }
    }

    /// The display a new source captures, where the host has not asked the
    /// window system for the main display: the nil UUID.
    pub fn default_display_uuid() -> (r: u128)
        ensures
            r == 0,
    {
        0
    }

    /// The window a new source captures: none.
    pub fn default_window_id() -> (r: u32)
        ensures
            r == 0,
    {
        0
    }

    /// The application a new source captures.
    pub fn default_application_name() -> (r: String)
        ensures
            r@ == "com.apple.dock"@,
    {
        "com.apple.dock".to_owned()
    }
}

impl Default for RawSetting {
    fn default() -> (r: Self)
        ensures
            r == RawSetting::initial(),
    {
        RawSetting {
            display_uuid: 0,
            application: None,
            type_: ScreenCaptureType::DisplayStream,
            window: 0,
            show_cursor: true,
            hide_obs: false,
            show_empty_names: false,
            show_hidden_windows: false,
        }
    }
}

impl From<Setting> for RawSetting {
    fn from(setting: Setting) -> (r: Self) {
        match setting {
            Setting::Display { display_uuid, show_cursor, hide_obs } => RawSetting {
                display_uuid,
                application: None,
                type_: ScreenCaptureType::DisplayStream,
                window: 0,
                show_cursor,
                hide_obs,
                show_empty_names: false,
                show_hidden_windows: false,
            },
            Setting::Window {
                window_id,
                show_cursor,
                show_empty_names,
                show_hidden_windows,
            } => RawSetting {
                display_uuid: 0,
                application: None,
                type_: ScreenCaptureType::WindowStream,
                window: window_id,
                show_cursor,
                hide_obs: false,
                show_empty_names,
                show_hidden_windows,
            },
            Setting::Application {
                display_uuid,
                application_name,
                show_cursor,
                show_hidden_windows,
            } => RawSetting {
                display_uuid,
                application: Some(application_name),
                type_: ScreenCaptureType::ApplicationStream,
                window: 0,
                show_cursor,
                hide_obs: false,
                show_empty_names: false,
                show_hidden_windows,
            },
        }
    }
}

impl vstd::std_specs::convert::FromSpecImpl<Setting> for RawSetting {
    open spec fn obeys_from_spec() -> bool {
        true
    }

    /// The record for a setting: the fields its kind of stream reads are
    /// the setting's, and every other field keeps its default.
    open spec fn from_spec(setting: Setting) -> Self {
        match setting {
            Setting::Display { display_uuid, show_cursor, hide_obs } => RawSetting {
                display_uuid,
                type_: ScreenCaptureType::DisplayStream,
                show_cursor,
                hide_obs,
                ..RawSetting::initial()
            },
            Setting::Window {
                window_id,
                show_cursor,
                show_empty_names,
                show_hidden_windows,
            } => RawSetting {
                window: window_id,
                type_: ScreenCaptureType::WindowStream,
                show_cursor,
                show_empty_names,
                show_hidden_windows,
                ..RawSetting::initial()
            },
            Setting::Application {
                display_uuid,
                application_name,
                show_cursor,
                show_hidden_windows,
            } => RawSetting {
                display_uuid,
                application: Some(application_name),
                type_: ScreenCaptureType::ApplicationStream,
                show_cursor,
                show_hidden_windows,
                ..RawSetting::initial()
            },
        }
    }
}

impl Setting {
    /// Whether `self` is the setting a record stands for: the fields that
    /// the record's kind of stream reads, with the empty name for an
    /// application that has none.
    pub open spec fn reads(self, raw: RawSetting) -> bool {
        match raw.type_ {
            ScreenCaptureType::DisplayStream => self matches Setting::Display {
                display_uuid,
                show_cursor,
                hide_obs,
            } && display_uuid == raw.display_uuid && show_cursor == raw.show_cursor && hide_obs
                == raw.hide_obs,
            ScreenCaptureType::WindowStream => self matches Setting::Window {
                window_id,
                show_cursor,
                show_empty_names,
                show_hidden_windows,
            } && window_id == raw.window && show_cursor == raw.show_cursor && show_empty_names
                == raw.show_empty_names && show_hidden_windows == raw.show_hidden_windows,
            ScreenCaptureType::ApplicationStream => self matches Setting::Application {
                display_uuid,
                application_name,
                show_cursor,
                show_hidden_windows,
            } && display_uuid == raw.display_uuid && show_cursor == raw.show_cursor
                && show_hidden_windows == raw.show_hidden_windows && application_name@ == (
            match raw.application {
                Some(name) => name@,
                None => Seq::<char>::empty(),
            }),
        }
    }

    /// Whether two settings say the same.
    pub open spec fn same_as(self, other: Setting) -> bool {
        match (self, other) {
            (
                Setting::Application { display_uuid, application_name, show_cursor, show_hidden_windows },
                Setting::Application {
                    display_uuid: d,
                    application_name: a,
                    show_cursor: c,
                    show_hidden_windows: h,
                },
            ) => display_uuid == d && application_name@ == a@ && show_cursor == c
                && show_hidden_windows == h,
            _ => self == other,
        }
    }

    /// The kind of stream this setting is for.
    pub fn type_(&self) -> (r: ScreenCaptureType)
        ensures
            r == match *self {
                Setting::Display { .. } => ScreenCaptureType::DisplayStream,
                Setting::Window { .. } => ScreenCaptureType::WindowStream,
                Setting::Application { .. } => ScreenCaptureType::ApplicationStream,
            },
    {
        match self {
            Setting::Display { .. } => ScreenCaptureType::DisplayStream,
            Setting::Window { .. } => ScreenCaptureType::WindowStream,
            Setting::Application { .. } => ScreenCaptureType::ApplicationStream,
        }
    }

    /// A display stream of the default display, cursor shown.
    pub fn default_display() -> (r: Self)
        ensures
            r == (Setting::Display { display_uuid: 0, show_cursor: true, hide_obs: false }),
    {
        Setting::Display {
            display_uuid: RawSetting::default_display_uuid(),
            show_cursor: true,
            hide_obs: false,
        }
    }

    /// A window stream of no window yet, cursor shown.
    pub fn default_window() -> (r: Self)
        ensures
            r == (Setting::Window {
                window_id: 0,
                show_cursor: true,
                show_empty_names: false,
                show_hidden_windows: false,
            }),
    {
        Setting::Window {
            window_id: RawSetting::default_window_id(),
            show_cursor: true,
            show_empty_names: false,
            show_hidden_windows: false,
        }
    }

    /// An application stream of the default application on the default
    /// display, cursor shown.
    pub fn default_application() -> (r: Self)
        ensures
            r matches Setting::Application {
                display_uuid,
                application_name,
                show_cursor,
                show_hidden_windows,
            } && display_uuid == 0 && application_name@ == "com.apple.dock"@ && show_cursor
                && !show_hidden_windows,
    {
        Setting::Application {
            display_uuid: RawSetting::default_display_uuid(),
            application_name: RawSetting::default_application_name(),
            show_cursor: true,
            show_hidden_windows: false,
        }
    }

    /// The record the plugin stores for this setting.
    pub fn into_setting(self) -> (r: RawSetting)
        ensures
            r == <RawSetting as vstd::std_specs::convert::FromSpec<Setting>>::from_spec(self),
    {
        RawSetting::from(self)
    }

    /// The setting a record stands for.
    pub fn from_setting(raw: RawSetting) -> (r: Self)
        ensures
            r.reads(raw),
    {
        match raw.type_ {
            ScreenCaptureType::DisplayStream => Setting::Display {
                display_uuid: raw.display_uuid,
                show_cursor: raw.show_cursor,
                hide_obs: raw.hide_obs,
            },
            ScreenCaptureType::WindowStream => Setting::Window {
                window_id: raw.window,
                show_cursor: raw.show_cursor,
                show_empty_names: raw.show_empty_names,
                show_hidden_windows: raw.show_hidden_windows,
            },
            ScreenCaptureType::ApplicationStream => Setting::Application {
                display_uuid: raw.display_uuid,
                application_name: match raw.application {
                    Some(name) => name,
                    None => String::new(),
                },
                show_cursor: raw.show_cursor,
                show_hidden_windows: raw.show_hidden_windows,
            },
        }
    }
}

impl From<RawSetting> for Setting {
    /// The setting a record stands for.
    fn from(raw: RawSetting) -> (r: Self)
        ensures
            r.reads(raw),
    {
        Setting::from_setting(raw)
    }
}

impl vstd::std_specs::convert::FromSpecImpl<RawSetting> for Setting {
    /// A record does not say which string stands for a missing name, so
    /// the setting is told by `reads`, which `from` ensures, and not as a
    /// value.
    open spec fn obeys_from_spec() -> bool {
        false
    }

    open spec fn from_spec(raw: RawSetting) -> Self {
        choose|setting: Setting| setting.reads(raw)
    }
}

/// A setting stored as a record and read back says what it said.
pub proof fn lemma_setting_survives_record(setting: Setting, back: Setting)
    requires
        back.reads(<RawSetting as vstd::std_specs::convert::FromSpec<Setting>>::from_spec(setting)),
    ensures
        back.same_as(setting),
{
}

} // verus!
