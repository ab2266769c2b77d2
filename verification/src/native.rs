//! The native engine's functions as values, and what each means for the
//! references the host holds.

use vstd::prelude::*;

use crate::display::DisplayInitInfo;
use crate::string::CText;
use crate::video::VideoSetting;

verus! {

/// Number of slots in the native engine's output table.
pub const MAX_CHANNELS: usize = 64;

/// Status with which the native engine reports a successful video reset.
pub const VIDEO_SUCCESS: i32 = 0;

/// The kinds of native object whose lifetime the host shares in.
#[derive(Debug, Clone, Copy, PartialEq, Eq, Structural)]
pub enum Kind {
    Source,
    Scene,
    SceneItem,
    Data,
    Display,
}

/// One call into the native engine, with its arguments as plain values.
/// This layer decides which calls are made and with what; the host carries
/// each one out and hands back what the engine answered. A native object is
/// named by its address, and address zero names none.
#[allow(inconsistent_fields)]
#[derive(Debug, Clone, PartialEq, Eq)]
pub enum Call {
    /// Whether the engine has been started. Answer: a flag.
    Initialized,
    /// The engine's version. Answer: text.
    GetVersionString,
    /// Start the engine. Answer: a flag, set on success.
    Startup { locale: CText, module_config_path: Option<CText> },
    /// Register a directory of engine data files.
    AddDataPath { path: CText },
    /// Register a pair of module directories.
    AddModulePath { bin_dir: CText, data_dir: CText },
    /// Allow a module to be loaded.
    AddSafeModule { name: CText },
    /// Scan the registered directories and load every allowed module.
    LoadAllModules,
    /// Run the hooks that follow loading.
    PostLoadModules,
    /// Look a loaded module up. Answer: an address.
    GetModule { name: CText },
    /// A module's name. Answer: text.
    GetModuleName { module: usize },
    /// Configure the video pipeline. Answer: a status.
    ResetVideo { info: VideoSetting },
    /// Create a scene. Answer: an address, with a reference.
    SceneCreate { name: CText },
    /// Take one more reference to a scene. Answer: an address, with a reference.
    SceneGetRef { scene: usize },
    /// Give one reference to a scene up.
    SceneRelease { scene: usize },
    /// The source that stands for a scene. Answer: an address, without a reference.
    SceneGetSource { scene: usize },
    /// Place a source in a scene. Answer: the item's address, without a reference.
    SceneAdd { scene: usize, source: usize },
    /// Take one more reference to a scene item.
    SceneItemAddref { item: usize },
    /// Give one reference to a scene item up.
    SceneItemRelease { item: usize },
    /// Whether a scene item is shown. Answer: a flag.
    SceneItemVisible { item: usize },
    /// Create a source. Answer: an address, with a reference.
    SourceCreate { id: CText, name: CText, settings: usize },
    /// Take one more reference to a source. Answer: an address, with a reference.
    SourceGetRef { source: usize },
    /// Take one more reference to a source.
    SourceAddref { source: usize },
    /// Give one reference to a source up.
    SourceRelease { source: usize },
    /// A source's type id. Answer: text.
    SourceGetId { source: usize },
    /// A source's name. Answer: text.
    SourceGetName { source: usize },
    /// Assign a source, or none, to an output slot.
    SetOutputSource { channel: u32, source: usize },
    /// The source in an output slot. Answer: an address, with a reference.
    GetOutputSource { channel: u32 },
    /// Create a display surface. Answer: an address, owned by the host.
    DisplayCreate { graphics_data: DisplayInitInfo, color: u32 },
    /// Change the size of a display surface.
    DisplayResize { display: usize, cx: u32, cy: u32 },
    /// Destroy a display surface.
    DisplayDestroy { display: usize },
    /// Create an empty data object. Answer: an address, with a reference.
    DataCreate,
    /// Parse a JSON document into a data object. Answer: an address, with a reference.
    DataCreateFromJson { json: CText },
    /// Take one more reference to a data object.
    DataAddref { data: usize },
    /// Give one reference to a data object up.
    DataRelease { data: usize },
    /// A data object as a JSON document. Answer: text.
    DataGetJson { data: usize },
    /// Store a string under a key.
    DataSetString { data: usize, key: CText, value: CText },
    /// The string under a key. Answer: text.
    DataGetString { data: usize, key: CText },
    /// Store an integer under a key.
    DataSetInt { data: usize, key: CText, value: i64 },
    /// The integer under a key. Answer: an integer.
    DataGetInt { data: usize, key: CText },
    /// Store a flag under a key.
    DataSetBool { data: usize, key: CText, value: bool },
    /// The flag under a key. Answer: a flag.
    DataGetBool { data: usize, key: CText },
}

impl Call {
    /// The kind of object whose address this call answers with, together
    /// with a reference to it that then belongs to the host. Calls that
    /// answer with a borrowed address, or with no address, give none.
    pub open spec fn spec_grants(&self) -> Option<Kind> {
        match *self {
            Call::SceneCreate { .. } => Some(Kind::Scene),
            Call::SceneGetRef { .. } => Some(Kind::Scene),
            Call::SourceCreate { .. } => Some(Kind::Source),
            Call::SourceGetRef { .. } => Some(Kind::Source),
            Call::GetOutputSource { .. } => Some(Kind::Source),
            Call::DisplayCreate { .. } => Some(Kind::Display),
            Call::DataCreate => Some(Kind::Data),
            Call::DataCreateFromJson { .. } => Some(Kind::Data),
            _ => None,
        }
    }

    /// The object this call takes one more reference to, whatever it answers.
    pub open spec fn spec_acquires(self) -> Option<(Kind, usize)> {
        match self {
            Call::SceneItemAddref { item } => Some((Kind::SceneItem, item)),
            Call::SourceAddref { source } => Some((Kind::Source, source)),
            Call::DataAddref { data } => Some((Kind::Data, data)),
            _ => None,
        }
    }

    /// The object this call gives one reference up on.
    pub open spec fn spec_releases(self) -> Option<(Kind, usize)> {
        match self {
            Call::SceneRelease { scene } => Some((Kind::Scene, scene)),
            Call::SceneItemRelease { item } => Some((Kind::SceneItem, item)),
            Call::SourceRelease { source } => Some((Kind::Source, source)),
            Call::DisplayDestroy { display } => Some((Kind::Display, display)),
            Call::DataRelease { data } => Some((Kind::Data, data)),
            _ => None,
        }
    }

    /// The kind of object this call answers with a host-owned reference to.
    #[verifier::when_used_as_spec(spec_grants)]
    pub fn grants(&self) -> (r: Option<Kind>)
        ensures
            r == self.spec_grants(),
    {
        match self {
            Call::SceneCreate { .. } => Some(Kind::Scene),
            Call::SceneGetRef { .. } => Some(Kind::Scene),
            Call::SourceCreate { .. } => Some(Kind::Source),
            Call::SourceGetRef { .. } => Some(Kind::Source),
            Call::GetOutputSource { .. } => Some(Kind::Source),
            Call::DisplayCreate { .. } => Some(Kind::Display),
            Call::DataCreate => Some(Kind::Data),
            Call::DataCreateFromJson { .. } => Some(Kind::Data),
            _ => None,
        }
    }
}

} // verus!
