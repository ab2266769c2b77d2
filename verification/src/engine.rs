//! The engine's lifecycle: which operation is legal in which state, and the
//! calls each operation comes to.

use vstd::prelude::*;
use vstd::string::*;

use crate::data::DataRef;
use crate::display::{DisplayInitInfo, DisplayRef};
use crate::error::Error;
use crate::module::ModuleRef;
use crate::native::{Call, MAX_CHANNELS, VIDEO_SUCCESS};
use crate::path::{expanded, module_dirs, module_paths};
use crate::scene::SceneRef;
use crate::source::{wraps, SourceRef};
use crate::string::{first_nul, nul_free, CText};
use crate::video::{Platform, VideoSetting};

verus! {

/// How far the native engine has been brought up, as far as the host knows.
#[derive(Debug, Clone, Copy, PartialEq, Eq, Structural)]
pub enum EngineState {
    /// Not started: the engine may be asked for its version and whether it
    /// is started, and it may be started.
    Uninitialized,
    /// Started: modules may be registered and loaded, scenes created, and
    /// the video pipeline configured.
    Started,
    /// Video configured: sources and displays may be created and output
    /// channels assigned.
    VideoConfigured,
}

/// The operations whose legality depends on the state of the engine.
#[derive(Debug, Clone, Copy, PartialEq, Eq, Structural)]
pub enum Operation {
    Version,
    Ready,
    Init,
    AddDataPath,
    AddModulePath,
    LoadModules,
    GetModule,
    ResetVideo,
    CreateScene,
    CreateSource,
    SetChannelSource,
    GetChannelSource,
    CreateDisplay,
}

impl EngineState {
    /// Whether `operation` is legal in this state.
    pub open spec fn spec_permits(self, operation: Operation) -> bool {
        match operation {
            Operation::Version | Operation::Ready => true,
            Operation::Init => self == EngineState::Uninitialized,
            Operation::AddDataPath
            | Operation::AddModulePath
            | Operation::LoadModules
            | Operation::GetModule
            | Operation::ResetVideo
            | Operation::CreateScene => self != EngineState::Uninitialized,
            Operation::CreateSource
            | Operation::SetChannelSource
            | Operation::GetChannelSource
            | Operation::CreateDisplay => self == EngineState::VideoConfigured,
        }
    }

    /// Whether `operation` is legal in this state.
    #[verifier::when_used_as_spec(spec_permits)]
    pub fn permits(self, operation: Operation) -> (r: bool)
        ensures
            r == self.spec_permits(operation),
    {
        match operation {
            Operation::Version | Operation::Ready => true,
            Operation::Init => match self {
                EngineState::Uninitialized => true,
                _ => false,
            },
            Operation::AddDataPath
            | Operation::AddModulePath
            | Operation::LoadModules
            | Operation::GetModule
            | Operation::ResetVideo
            | Operation::CreateScene => match self {
                EngineState::Uninitialized => false,
                _ => true,
            },
            Operation::CreateSource
            | Operation::SetChannelSource
            | Operation::GetChannelSource
            | Operation::CreateDisplay => match self {
                EngineState::VideoConfigured => true,
                _ => false,
            },
        }
    }

    /// The state after the engine has said whether it is started: an
    /// engine found started counts as started, and one found not started
    /// has nothing configured.
    pub open spec fn after_ready(self, initialized: bool) -> EngineState {
        if !initialized {
            EngineState::Uninitialized
        } else if self == EngineState::Uninitialized {
            EngineState::Started
        } else {
            self
        }
    }

    /// The state after the engine has answered a startup call.
    pub open spec fn after_init(self, started: bool) -> EngineState {
        if self == EngineState::Uninitialized && started {
            EngineState::Started
        } else {
            self
        }
    }

    /// The state after the engine has answered a video reset with `status`.
    pub open spec fn after_reset(self, status: i32) -> EngineState {
        if self != EngineState::Uninitialized && status == VIDEO_SUCCESS {
            EngineState::VideoConfigured
        } else {
            self
        }
    }
}

/// What asking for a video reset with `info` comes to in `state`: the
/// call that hands `info` over as it is, or a refusal.
pub open spec fn video_reset(state: EngineState, info: VideoSetting) -> Result<Call, Error> {
    if state.permits(Operation::ResetVideo) {
        Ok(Call::ResetVideo { info })
    } else {
        Err(Error::WrongState)
    }
}

/// What assigning the source at `source`, or none for address zero, to
/// the output slot `channel` comes to in `state`. A slot the table does
/// not have is no error, in any state: nothing is to be done.
pub open spec fn channel_assignment(state: EngineState, channel: usize, source: usize) -> Result<
    Option<Call>,
    Error,
> {
    if channel >= MAX_CHANNELS {
        Ok(None)
    } else if !state.permits(Operation::SetChannelSource) {
        Err(Error::WrongState)
    } else {
        Ok(Some(Call::SetOutputSource { channel: channel as u32, source }))
    }
}

/// What asking for the source in the output slot `channel` comes to in
/// `state`. A slot the table does not have is no error, in any state: it
/// holds nothing, and nothing is to be asked.
pub open spec fn channel_query(state: EngineState, channel: usize) -> Result<Option<Call>, Error> {
    if channel >= MAX_CHANNELS {
        Ok(None)
    } else if !state.permits(Operation::GetChannelSource) {
        Err(Error::WrongState)
    } else {
        Ok(Some(Call::GetOutputSource { channel: channel as u32 }))
    }
}

/// `dirs::home_dir`, with the path it finds rendered as text by
/// `Path::to_string_lossy`. What it yields depends on the environment of
/// the process, so nothing is claimed of it.
#[verifier::external_body]
fn home_dir() -> (r: Option<String>) {
    dirs::home_dir().map(|home| home.to_string_lossy().into_owned())
}

/// Whether `call` allows the module `name` to be loaded.
pub open spec fn allows(call: Call, name: Seq<char>) -> bool {
    call matches Call::AddSafeModule { name: n } && n@ == vstd::utf8::encode_utf8(name)
}

/// Whether `call` looks the module `name` up.
pub open spec fn looks_up(call: Call, name: Seq<char>) -> bool {
    call matches Call::GetModule { name: n } && n@ == vstd::utf8::encode_utf8(name)
}

/// Whether `call` registers the module directory `dirs.0` with the data
/// directory `dirs.1`.
pub open spec fn registers(call: Call, dirs: (Seq<char>, Seq<char>)) -> bool {
    call matches Call::AddModulePath { bin_dir, data_dir } && bin_dir@ == vstd::utf8::encode_utf8(
        dirs.0,
    ) && data_dir@ == vstd::utf8::encode_utf8(dirs.1)
}

/// Whether `calls` load the modules `names` as one batch: every name is
/// allowed first, then the engine scans and loads once and runs its
/// post-load hooks once, and only then is each name looked up, in order.
pub open spec fn loads(calls: Seq<Call>, names: Seq<String>) -> bool {
    let n = names.len() as int;
    &&& calls.len() == 2 * n + 2
    &&& forall|i: int| 0 <= i < n ==> allows(#[trigger] calls[i], names[i]@)
    &&& calls[n] == Call::LoadAllModules
    &&& calls[n + 1] == Call::PostLoadModules
    &&& forall|j: int| n + 2 <= j < 2 * n + 2 ==> looks_up(#[trigger] calls[j], names[j - n - 2]@)
}

/// Whether both directories of a pair can be handed to the engine.
pub open spec fn encodable(dirs: (Seq<char>, Seq<char>)) -> bool {
    nul_free(vstd::utf8::encode_utf8(dirs.0)) && nul_free(vstd::utf8::encode_utf8(dirs.1))
}

/// Whether `e` reports the first NUL of a pair of directories: one in the
/// module directory before one in the data directory.
pub open spec fn refused_with(dirs: (Seq<char>, Seq<char>), e: Error) -> bool {
    e matches Error::CString(at) && if nul_free(vstd::utf8::encode_utf8(dirs.0)) {
        first_nul(vstd::utf8::encode_utf8(dirs.1), at as int)
    } else {
        first_nul(vstd::utf8::encode_utf8(dirs.0), at as int)
    }
}

/// Whether `r` is what registering the pairs `dirs` comes to: one call for
/// each pair, in order, or the report of the first pair that cannot be
/// handed over.
pub open spec fn registers_all(r: Result<Vec<Call>, Error>, dirs: Seq<(Seq<char>, Seq<char>)>) -> bool {
    match r {
        Ok(calls) => {
            &&& calls@.len() == dirs.len()
            &&& forall|i: int|
                0 <= i < dirs.len() ==> encodable(dirs[i]) && registers(#[trigger] calls@[i], dirs[i])
        },
        Err(e) => exists|i: int|
            {
                &&& 0 <= i < dirs.len()
                &&& forall|k: int| 0 <= k < i ==> encodable(#[trigger] dirs[k])
                &&& !encodable(dirs[i])
                &&& #[trigger] refused_with(dirs[i], e)
            },
    }
}

/// The address the engine answered the `i`-th lookup with; a lookup that
/// has no answer counts as not found.
pub open spec fn answer_at(modules: Seq<usize>, i: int) -> usize {
    if 0 <= i < modules.len() {
        modules[i]
    } else {
        0
    }
}

/// The host's side of the native engine: the state it has been brought to
/// and the scenes created through this value. Every operation is decided
/// here and comes out as the call, or calls, the host is to make; where the
/// engine's answer matters, the function named after the operation with
/// `_answer` takes it.
#[derive(Debug)]
pub struct Obs {
    state: EngineState,
    scenes: Vec<SceneRef>,
}

impl Obs {
    /// The state the engine is in, as far as this value knows.
    pub closed spec fn spec_state(&self) -> EngineState {
        self.state
    }

    /// The addresses of the scenes this value holds a reference to, oldest
    /// first.
    pub closed spec fn scenes(&self) -> Seq<usize> {
        Seq::new(self.scenes@.len(), |i: int| self.scenes@[i]@)
    }

    /// A value that knows of no started engine and holds no scene.
    pub fn new() -> (r: Self)
        ensures
            r.spec_state() == EngineState::Uninitialized,
            r.scenes() == Seq::<usize>::empty(),
    {
        let r = Obs { state: EngineState::Uninitialized, scenes: Vec::new() };
        r
    }

    /// The state the engine is in, as far as this value knows.
    #[verifier::when_used_as_spec(spec_state)]
    pub fn state(&self) -> (r: EngineState)
        ensures
            r == self.spec_state(),
    {
        self.state
    }

    /// Asks whether the engine has been started. The answer goes to
    /// `ready_answer`.
    pub fn ready(&self) -> (r: Call)
        ensures
            r == Call::Initialized,
    {
        Call::Initialized
    }

    /// Takes the engine's word on whether it has been started, and returns
    /// it. An engine found started by someone else counts as started; one
    /// found not started has nothing configured.
    pub fn ready_answer(&mut self, initialized: bool) -> (r: bool)
        ensures
            r == initialized,
            final(self).scenes() == old(self).scenes(),
            final(self).spec_state() == old(self).spec_state().after_ready(initialized),
    {
        if !initialized {
            self.state = EngineState::Uninitialized;
        } else if self.state == EngineState::Uninitialized {
            self.state = EngineState::Started;
        }
        initialized
    }

    /// Asks for the engine's version. Legal in every state. The answer
    /// goes to `version_answer`.
    pub fn version() -> (r: Call)
        ensures
            r == Call::GetVersionString,
    {
        Call::GetVersionString
    }

    /// The engine's version as text, or `Error::String` when what the
    /// engine gave is not UTF-8.
    pub fn version_answer(text: &CText) -> (r: Result<&str, Error>)
        ensures
            match r {
                Ok(s) => vstd::utf8::valid_utf8(text@) && s@ == vstd::utf8::decode_utf8(text@),
                Err(e) => !vstd::utf8::valid_utf8(text@) && e == Error::String,
            },
    {
        text.to_str()
    }

    /// Starts the engine with `locale` and a directory for the modules'
    /// configuration. See `init_internal`.
    pub fn init_with_config(&self, locale: &str, module_config_path: &str) -> (r: Result<
        Call,
        Error,
    >)
        ensures
            self.starts(r, locale@, Some(module_config_path@)),
    {
        self.init_internal(locale, Some(module_config_path))
    }

    /// Starts the engine with `locale`. See `init_internal`.
    pub fn init(&self, locale: &str) -> (r: Result<Call, Error>)
        ensures
            self.starts(r, locale@, None),
    {
        self.init_internal(locale, None)
    }

    /// Whether `r` is what asking to start the engine comes to: refused
    /// unless the engine is not started yet; else the NUL in the locale,
    /// or failing that the one in the path; else the startup call with
    /// both encoded.
    pub open spec fn starts(&self, r: Result<Call, Error>, locale: Seq<char>, path: Option<Seq<char>>) -> bool {
        let locale_bytes = vstd::utf8::encode_utf8(locale);
        if !self.spec_state().permits(Operation::Init) {
            r == Err::<Call, Error>(Error::WrongState)
        } else if !nul_free(locale_bytes) {
            r matches Err(Error::CString(at)) && first_nul(locale_bytes, at as int)
        } else {
            match path {
                None => r matches Ok(Call::Startup { locale: l, module_config_path: None }) && l@
                    == locale_bytes,
                Some(p) => if nul_free(vstd::utf8::encode_utf8(p)) {
                    r matches Ok(Call::Startup { locale: l, module_config_path: Some(m) }) && l@
                        == locale_bytes && m@ == vstd::utf8::encode_utf8(p)
                } else {
                    r matches Err(Error::CString(at)) && first_nul(
                        vstd::utf8::encode_utf8(p),
                        at as int,
                    )
                },
            }
        }
    }

    /// Starts the engine. The answer to the call goes to `init_answer`.
    pub fn init_internal(&self, locale: &str, module_config_path: Option<&str>) -> (r: Result<
        Call,
        Error,
    >)
        ensures
            self.starts(
                r,
                locale@,
                match module_config_path {
                    Some(p) => Some(p@),
                    None => None,
                },
            ),
    {
        if !self.state.permits(Operation::Init) {
            return Err(Error::WrongState);
        }
        let locale = CText::new(locale)?;
        let path = match module_config_path {
            Some(p) => Some(CText::new(p)?),
            None => None,
        };
        Ok(Call::Startup { locale, module_config_path: path })
    }

    /// Takes the engine's answer to a startup call: on success the engine
    /// is started; on failure nothing changes and the error carries the
    /// code -1. Refused, with nothing changed, when the engine was already
    /// started.
    pub fn init_answer(&mut self, started: bool) -> (r: Result<(), Error>)
        ensures
            final(self).scenes() == old(self).scenes(),
            final(self).spec_state() == old(self).spec_state().after_init(started),
            r == if !old(self).spec_state().permits(Operation::Init) {
                Err::<(), Error>(Error::WrongState)
            } else if started {
                Ok::<(), Error>(())
            } else {
                Err::<(), Error>(Error::Code(-1i32))
            },
    {
        if !self.state.permits(Operation::Init) {
            return Err(Error::WrongState);
        }
        if started {
            self.state = EngineState::Started;
            Ok(())
        } else {
            Err(Error::Code(-1))
        }
    }

    /// Registers a directory of engine data files.
    pub fn add_data_path(&self, path: &str) -> (r: Result<Call, Error>)
        ensures
            !self.spec_state().permits(Operation::AddDataPath) ==> r == Err::<Call, Error>(Error::WrongState),
            self.spec_state().permits(Operation::AddDataPath) ==> match r {
                Ok(Call::AddDataPath { path: p }) => p@ == path.spec_bytes() && nul_free(
                    path.spec_bytes(),
                ),
                Err(Error::CString(at)) => first_nul(path.spec_bytes(), at as int),
                _ => false,
            },
    {
        if !self.state.permits(Operation::AddDataPath) {
            return Err(Error::WrongState);
        }
        let path = CText::new(path)?;
        Ok(Call::AddDataPath { path })
    }

    /// Registers a module directory together with its data directory. A
    /// NUL in the first is reported before one in the second.
    pub fn add_module_path(&self, bin_dir: &str, data_dir: &str) -> (r: Result<Call, Error>)
        ensures
            !self.spec_state().permits(Operation::AddModulePath) ==> r == Err::<Call, Error>(Error::WrongState),
            self.spec_state().permits(Operation::AddModulePath) ==> match r {
                Ok(call) => registers(call, (bin_dir@, data_dir@)) && nul_free(
                    bin_dir.spec_bytes(),
                ) && nul_free(data_dir.spec_bytes()),
                Err(Error::CString(at)) => if nul_free(bin_dir.spec_bytes()) {
                    first_nul(data_dir.spec_bytes(), at as int)
                } else {
                    first_nul(bin_dir.spec_bytes(), at as int)
                },
                _ => false,
            },
    {
        if !self.state.permits(Operation::AddModulePath) {
            return Err(Error::WrongState);
        }
        let bin_dir = CText::new(bin_dir)?;
        let data_dir = CText::new(data_dir)?;
        Ok(Call::AddModulePath { bin_dir, data_dir })
    }

    /// Registers the default module directories of `platform` under
    /// `prefix`, with the home directory of the process written out where
    /// `prefix` names it. Fails with `NulPointer("home_dir")` when the
    /// process has no home directory; what else comes out is what
    /// `add_default_module_path_from` gives for the home directory found.
    pub fn add_default_module_path(&self, prefix: &str, platform: Platform) -> (r: Result<
        Vec<Call>,
        Error,
    >)
        ensures
            !self.spec_state().permits(Operation::AddModulePath) ==> r == Err::<Vec<Call>, Error>(Error::WrongState),
            self.spec_state().permits(Operation::AddModulePath) ==> r == Err::<Vec<Call>, Error>(Error::NulPointer("home_dir"))
                || exists|home: Seq<char>|
                registers_all(r, #[trigger] module_dirs(expanded(prefix@, home), platform)),
    {
        if !self.state.permits(Operation::AddModulePath) {
            return Err(Error::WrongState);
        }
        match home_dir() {
            None => Err(Error::NulPointer("home_dir")),
            Some(home) => self.add_default_module_path_from(prefix, home.as_str(), platform),
        }
    }

    /// Registers the default module directories of `platform` under
    /// `prefix`, where `home` is written out for a leading `~/` and for
    /// every `$HOME`: one call for each pair of directories, in the
    /// layout's order, or the first NUL met, with no call to be made.
    pub fn add_default_module_path_from(&self, prefix: &str, home: &str, platform: Platform) -> (r:
        Result<Vec<Call>, Error>)
        ensures
            !self.spec_state().permits(Operation::AddModulePath) ==> r == Err::<Vec<Call>, Error>(Error::WrongState),
            self.spec_state().permits(Operation::AddModulePath) ==> registers_all(
                r,
                module_dirs(expanded(prefix@, home@), platform),
            ),
    {
        if !self.state.permits(Operation::AddModulePath) {
            return Err(Error::WrongState);
        }
        let pairs = module_paths(prefix, home, platform);
        let ghost dirs = module_dirs(expanded(prefix@, home@), platform);
        let mut calls: Vec<Call> = Vec::new();
        let mut i: usize = 0;
        while i < pairs.len()
            invariant
                i <= pairs.len(),
                self.spec_state().permits(Operation::AddModulePath),
                dirs == module_dirs(expanded(prefix@, home@), platform),
                pairs@.len() == dirs.len(),
                forall|k: int|
                    0 <= k < pairs@.len() ==> (#[trigger] pairs@[k]).0@ == dirs[k].0 && pairs@[k].1@
                        == dirs[k].1,
                calls@.len() == i,
                forall|k: int| 0 <= k < i ==> encodable(#[trigger] dirs[k]),
                forall|k: int| 0 <= k < i ==> registers(#[trigger] calls@[k], dirs[k]),
            decreases pairs.len() - i,
        {
            match self.add_module_path(pairs[i].0.as_str(), pairs[i].1.as_str()) {
                Ok(call) => {
                    calls.push(call);
                },
                Err(e) => {
                    assert(!encodable(dirs[i as int]) && refused_with(dirs[i as int], e));
                    return Err(e);
                },
            }
            i += 1;
        }
        Ok(calls)
    }

    /// Loads the modules `names` as one batch; see `loads`. A name with a
    /// NUL is refused, the first such name first, and then no call is to
    /// be made. The answers to the lookups go to `load_modules_answer`.
    pub fn load_modules(&self, names: &Vec<String>) -> (r: Result<Vec<Call>, Error>)
        ensures
            !self.spec_state().permits(Operation::LoadModules) ==> r == Err::<Vec<Call>, Error>(Error::WrongState),
            self.spec_state().permits(Operation::LoadModules) ==> match r {
                Ok(calls) => loads(calls@, names@) && forall|i: int|
                    0 <= i < names@.len() ==> nul_free(
                        vstd::utf8::encode_utf8(#[trigger] names@[i]@),
                    ),
                Err(Error::CString(at)) => exists|i: int|
                    {
                        &&& 0 <= i < names@.len()
                        &&& forall|k: int|
                            0 <= k < i ==> nul_free(vstd::utf8::encode_utf8(#[trigger] names@[k]@))
                        &&& first_nul(vstd::utf8::encode_utf8(#[trigger] names@[i]@), at as int)
                    },
                _ => false,
            },
    {
        if !self.state.permits(Operation::LoadModules) {
            return Err(Error::WrongState);
        }
        let n = names.len();
        let mut calls: Vec<Call> = Vec::new();
        let mut lookups: Vec<Call> = Vec::new();
        let mut i: usize = 0;
        while i < n
            invariant
                i <= n,
                n == names@.len(),
                self.spec_state().permits(Operation::LoadModules),
                calls@.len() == i,
                lookups@.len() == i,
                forall|k: int|
                    0 <= k < i ==> nul_free(vstd::utf8::encode_utf8(#[trigger] names@[k]@)),
                forall|k: int| 0 <= k < i ==> allows(#[trigger] calls@[k], names@[k]@),
                forall|k: int| 0 <= k < i ==> looks_up(#[trigger] lookups@[k], names@[k]@),
            decreases n - i,
        {
            let name = CText::new(names[i].as_str())?;
            lookups.push(Call::GetModule { name: name.clone() });
            calls.push(Call::AddSafeModule { name });
            i += 1;
        }
        calls.push(Call::LoadAllModules);
        calls.push(Call::PostLoadModules);
        calls.append(&mut lookups);
        assert forall|j: int| n + 2 <= j < 2 * n + 2 implies looks_up(
            #[trigger] calls@[j],
            names@[j - n - 2]@,
        ) by {}
        Ok(calls)
    }

    /// Takes the engine's answers to the lookups of a batch, one address
    /// for each name in order; a name without an answer counts as not
    /// found. Gives the modules in the order of their names, or names the
    /// first module that was not found.
    pub fn load_modules_answer(names: &Vec<String>, modules: &Vec<usize>) -> (r: Result<
        Vec<ModuleRef>,
        Error,
    >)
        ensures
            match r {
                Ok(handles) => {
                    &&& handles@.len() == names@.len()
                    &&& forall|i: int|
                        0 <= i < names@.len() ==> #[trigger] answer_at(modules@, i) != 0
                    &&& forall|i: int|
                        0 <= i < names@.len() ==> (#[trigger] handles@[i])@ == answer_at(
                            modules@,
                            i,
                        )
                },
                Err(Error::ModuleNotFound(name)) => exists|i: int|
                    {
                        &&& 0 <= i < names@.len()
                        &&& forall|k: int| 0 <= k < i ==> #[trigger] answer_at(modules@, k) != 0
                        &&& answer_at(modules@, i) == 0
                        &&& name@ == (#[trigger] names@[i])@
                    },
                _ => false,
            },
    {
        let mut handles: Vec<ModuleRef> = Vec::new();
        let mut i: usize = 0;
        while i < names.len()
            invariant
                i <= names.len(),
                handles@.len() == i,
                forall|k: int| 0 <= k < i ==> #[trigger] answer_at(modules@, k) != 0,
                forall|k: int|
                    0 <= k < i ==> (#[trigger] handles@[k])@ == answer_at(modules@, k),
            decreases names.len() - i,
        {
            let module = if i < modules.len() {
                modules[i]
            } else {
                0
            };
            match Obs::get_module_answer(names[i].as_str(), module) {
                Ok(handle) => {
                    handles.push(handle);
                },
                Err(e) => {
                    return Err(e);
                },
            }
            i += 1;
        }
        Ok(handles)
    }

    /// Looks a loaded module up by name. The answer goes to
    /// `get_module_answer`.
    pub fn get_module(&self, name: &str) -> (r: Result<Call, Error>)
        ensures
            !self.spec_state().permits(Operation::GetModule) ==> r == Err::<Call, Error>(Error::WrongState),
            self.spec_state().permits(Operation::GetModule) ==> match r {
                Ok(call) => looks_up(call, name@) && nul_free(name.spec_bytes()),
                Err(Error::CString(at)) => first_nul(name.spec_bytes(), at as int),
                _ => false,
            },
    {
        if !self.state.permits(Operation::GetModule) {
            return Err(Error::WrongState);
        }
        let name = CText::new(name)?;
        Ok(Call::GetModule { name })
    }

    /// Takes the engine's answer to the lookup of `name`: the module, or
    /// `ModuleNotFound` with the name when the engine has none.
    pub fn get_module_answer(name: &str, module: usize) -> (r: Result<ModuleRef, Error>)
        ensures
            match r {
                Ok(handle) => module != 0 && handle@ == module,
                Err(Error::ModuleNotFound(n)) => module == 0 && n@ == name@,
                _ => false,
            },
    {
        match ModuleRef::from_raw(module) {
            Some(handle) => Ok(handle),
            None => Err(Error::ModuleNotFound(name.to_owned())),
        }
    }

    /// Configures the video pipeline with `info`, which is handed over as
    /// it is. Legal once the engine is started, and again whenever it is.
    /// The answer goes to `reset_video_answer`.
    pub fn reset_video(&self, info: VideoSetting) -> (r: Result<Call, Error>)
        ensures
            r == video_reset(self.spec_state(), info),
    {
        if !self.state.permits(Operation::ResetVideo) {
            return Err(Error::WrongState);
        }
        Ok(Call::ResetVideo { info })
    }

    /// Takes the engine's answer to a video reset: on the success status
    /// the pipeline is configured; any other status is handed back as
    /// `Error::Code` and nothing changes. Refused, with nothing changed,
    /// when the engine is not started.
    pub fn reset_video_answer(&mut self, status: i32) -> (r: Result<(), Error>)
        ensures
            final(self).scenes() == old(self).scenes(),
            final(self).spec_state() == old(self).spec_state().after_reset(status),
            r == if !old(self).spec_state().permits(Operation::ResetVideo) {
                Err::<(), Error>(Error::WrongState)
            } else if status == VIDEO_SUCCESS {
                Ok::<(), Error>(())
            } else {
                Err::<(), Error>(Error::Code(status))
            },
    {
        if !self.state.permits(Operation::ResetVideo) {
            return Err(Error::WrongState);
        }
        if status == VIDEO_SUCCESS {
            self.state = EngineState::VideoConfigured;
            Ok(())
        } else {
            Err(Error::Code(status))
        }
    }

    /// Creates a scene named `name`. The answer goes to
    /// `create_scene_answer`.
    pub fn create_scene(&self, name: &str) -> (r: Result<Call, Error>)
        ensures
            !self.spec_state().permits(Operation::CreateScene) ==> r == Err::<Call, Error>(Error::WrongState),
            self.spec_state().permits(Operation::CreateScene) ==> match r {
                Ok(Call::SceneCreate { name: n }) => n@ == name.spec_bytes() && nul_free(
                    name.spec_bytes(),
                ),
                Err(Error::CString(at)) => first_nul(name.spec_bytes(), at as int),
                _ => false,
            },
    {
        if !self.state.permits(Operation::CreateScene) {
            return Err(Error::WrongState);
        }
        let name = CText::new(name)?;
        Ok(Call::SceneCreate { name })
    }

    /// Takes the engine's answer to the creating of a scene. For a scene,
    /// the caller gets the handle that owns the reference the engine
    /// granted, together with the call that asks for the second reference,
    /// the one this value is to keep; the answer to that call goes to
    /// `keep_scene`. Address zero is `NulPointer("create_scene")`.
    pub fn create_scene_answer(scene: usize) -> (r: Result<(SceneRef, Call), Error>)
        ensures
            match r {
                Ok((handle, call)) => scene != 0 && handle@ == scene && call == (
                Call::SceneGetRef { scene }),
                Err(e) => scene == 0 && e == Error::NulPointer("create_scene"),
            },
    {
        match SceneRef::from_raw(scene) {
            Some(handle) => {
                let call = handle.clone();
                Ok((handle, call))
            },
            None => Err(Error::NulPointer("create_scene")),
        }
    }

    /// Takes the engine's answer to the call `create_scene_answer` gave:
    /// an address with a reference of its own, which joins the scenes held
    /// here, after those already held. Address zero joins nothing. Returns
    /// whether a scene was kept.
    pub fn keep_scene(&mut self, scene: usize) -> (r: bool)
        ensures
            r == (scene != 0),
            final(self).spec_state() == old(self).spec_state(),
            final(self).scenes() == if scene != 0 {
                old(self).scenes().push(scene)
            } else {
                old(self).scenes()
            },
    {
        match SceneRef::from_raw(scene) {
            Some(handle) => {
                self.scenes.push(handle);
                true
            },
            None => false,
        }
    }

    /// Creates a source named `name` of the type `type_`, configured by
    /// `settings`. Legal once video is configured. A NUL in the name is
    /// reported before one in the type. The answer goes to
    /// `create_source_answer`.
    pub fn create_source(&self, name: &str, type_: &str, settings: &DataRef) -> (r: Result<
        Call,
        Error,
    >)
        ensures
            !self.spec_state().permits(Operation::CreateSource) ==> r == Err::<Call, Error>(
                Error::WrongState,
            ),
            self.spec_state().permits(Operation::CreateSource) ==> match r {
                Ok(Call::SourceCreate { id, name: n, settings: s }) => {
                    &&& id@ == type_.spec_bytes()
                    &&& n@ == name.spec_bytes()
                    &&& s == settings@
                    &&& nul_free(name.spec_bytes())
                    &&& nul_free(type_.spec_bytes())
                },
                Err(Error::CString(at)) => if nul_free(name.spec_bytes()) {
                    first_nul(type_.spec_bytes(), at as int)
                } else {
                    first_nul(name.spec_bytes(), at as int)
                },
                _ => false,
            },
    {
        if !self.state.permits(Operation::CreateSource) {
            return Err(Error::WrongState);
        }
        let name = CText::new(name)?;
        let id = CText::new(type_)?;
        Ok(Call::SourceCreate { id, name, settings: settings.as_ptr() })
    }

    /// Takes the engine's answer to the creating of a source: the handle
    /// that owns the reference granted, or `NulPointer("create_source")`
    /// for address zero.
    pub fn create_source_answer(source: usize) -> (r: Result<SourceRef, Error>)
        ensures
            match r {
                Ok(handle) => source != 0 && handle@ == source,
                Err(e) => source == 0 && e == Error::NulPointer("create_source"),
            },
    {
        match SourceRef::from_raw(source) {
            Some(handle) => Ok(handle),
            None => Err(Error::NulPointer("create_source")),
        }
    }

    /// Assigns `source` to the output slot `channel`, or clears the slot
    /// when there is no source. The engine gives up its reference to
    /// whatever was in the slot and takes one of its own to `source`; the
    /// caller's handle stays the caller's. A channel the table does not
    /// have is no error: then no call is to be made. Legal once video is
    /// configured.
    pub fn set_channel_source(&self, channel: usize, source: Option<&SourceRef>) -> (r: Result<
        Option<Call>,
        Error,
    >)
        ensures
            r == channel_assignment(
                self.spec_state(),
                channel,
                match source {
                    Some(s) => s@,
                    None => 0,
                },
            ),
    {
        if channel >= MAX_CHANNELS {
            return Ok(None);
        }
        if !self.state.permits(Operation::SetChannelSource) {
            return Err(Error::WrongState);
        }
        let pointer = match source {
            Some(s) => s.as_ptr(),
            None => 0,
        };
        Ok(Some(Call::SetOutputSource { channel: channel as u32, source: pointer }))
    }

    /// Asks for the source in the output slot `channel`. A channel the
    /// table does not have holds nothing: then no call is to be made.
    /// Legal once video is configured. The answer goes to
    /// `get_channel_source_answer`.
    pub fn get_channel_source(&self, channel: usize) -> (r: Result<Option<Call>, Error>)
        ensures
            r == channel_query(self.spec_state(), channel),
    {
        if channel >= MAX_CHANNELS {
            return Ok(None);
        }
        if !self.state.permits(Operation::GetChannelSource) {
            return Err(Error::WrongState);
        }
        Ok(Some(Call::GetOutputSource { channel: channel as u32 }))
    }

    /// Takes the engine's answer on an output slot: a handle that owns the
    /// reference the engine granted with it, or nothing for an empty slot.
    pub fn get_channel_source_answer(source: usize) -> (r: Option<SourceRef>)
        ensures
            wraps(r, source),
    {
        SourceRef::from_raw(source)
    }

    /// Creates a display surface from `info`, cleared to `color`. Legal
    /// once video is configured. The answer goes to
    /// `create_display_answer`.
    pub fn create_display(&self, info: &DisplayInitInfo, color: u32) -> (r: Result<Call, Error>)
        ensures
            r == if self.spec_state().permits(Operation::CreateDisplay) {
                Ok::<Call, Error>(Call::DisplayCreate { graphics_data: *info, color })
            } else {
                Err::<Call, Error>(Error::WrongState)
            },
    {
        if !self.state.permits(Operation::CreateDisplay) {
            return Err(Error::WrongState);
        }
        Ok(Call::DisplayCreate { graphics_data: *info, color })
    }

    /// Takes the engine's answer to the creating of a display: the handle
    /// that owns the surface, or `NulPointer("create_display")` for
    /// address zero.
    pub fn create_display_answer(display: usize) -> (r: Result<DisplayRef, Error>)
        ensures
            match r {
                Ok(handle) => display != 0 && handle@ == display,
                Err(e) => display == 0 && e == Error::NulPointer("create_display"),
            },
    {
        match DisplayRef::from_raw(display) {
            Some(handle) => Ok(handle),
            None => Err(Error::NulPointer("create_display")),
        }
    }

    /// Gives up the references to the scenes held here, oldest first. The
    /// scenes themselves live on for as long as anyone else holds them.
    pub fn release(self) -> (r: Vec<Call>)
        ensures
            r@.len() == self.scenes().len(),
            forall|i: int|
                0 <= i < r@.len() ==> #[trigger] r@[i] == (Call::SceneRelease {
                    scene: self.scenes()[i],
                }),
    {
        let mut calls: Vec<Call> = Vec::new();
        let mut i: usize = 0;
        while i < self.scenes.len()
            invariant
                i <= self.scenes.len(),
                calls@.len() == i,
                forall|k: int|
                    0 <= k < i ==> #[trigger] calls@[k] == (Call::SceneRelease {
                        scene: self.scenes@[k]@,
                    }),
            decreases self.scenes.len() - i,
        {
            calls.push(Call::SceneRelease { scene: self.scenes[i].as_ptr() });
            i += 1;
        }
        calls
    }
}

/// Before the engine is started nothing may be asked of it but its
/// version, whether it is started, and to start.
pub proof fn lemma_nothing_before_start(operation: Operation)
    ensures
        EngineState::Uninitialized.permits(operation) <==> operation == Operation::Version
            || operation == Operation::Ready || operation == Operation::Init,
{
}

/// What is legal in one state stays legal in every later one, but for
/// starting the engine, which is legal only while it is not started.
pub proof fn lemma_later_states_permit_more(operation: Operation)
    requires
        operation != Operation::Init,
    ensures
        EngineState::Uninitialized.permits(operation) ==> EngineState::Started.permits(operation),
        EngineState::Started.permits(operation) ==> EngineState::VideoConfigured.permits(
            operation,
        ),
{
}

/// The engine's answers to a startup and to a video reset never take the
/// state back, and move it on by one step at most: from not started to
/// started, and from started to video configured.
pub proof fn lemma_answers_advance_in_order(state: EngineState, started: bool, status: i32)
    ensures
        state.after_init(started) == state || (state == EngineState::Uninitialized
            && state.after_init(started) == EngineState::Started),
        state.after_reset(status) == state || (state == EngineState::Started && state.after_reset(
            status,
        ) == EngineState::VideoConfigured),
{
}

/// Video can be reset twice in a row: where the first reset is legal and
/// succeeds, the second is legal too, hands its own configuration over as
/// it is, and on success leaves video configured.
pub proof fn lemma_video_can_be_reset_again(
    state: EngineState,
    first: VideoSetting,
    second: VideoSetting,
)
    requires
        state.permits(Operation::ResetVideo),
    ensures
        video_reset(state, first) == Ok::<Call, Error>(Call::ResetVideo { info: first }),
        video_reset(state.after_reset(VIDEO_SUCCESS), second) == Ok::<Call, Error>(
            Call::ResetVideo { info: second },
        ),
        state.after_reset(VIDEO_SUCCESS).after_reset(VIDEO_SUCCESS) == EngineState::VideoConfigured,
{
}

/// An output slot that the table does not have takes no source and holds
/// none: in any state, nothing is to be done and nothing fails.
pub proof fn lemma_channel_out_of_range_is_no_op(state: EngineState, channel: usize, source: usize)
    requires
        channel >= MAX_CHANNELS,
    ensures
        channel_assignment(state, channel, source) == Ok::<Option<Call>, Error>(None),
        channel_query(state, channel) == Ok::<Option<Call>, Error>(None),
{
}

/// A source assigned to an output slot is the source found there: the
/// assignment and the query name the same slot, and where the engine
/// answers the query with the address it was given for that slot, the
/// handle made from the answer is a handle to that source. Where the slot
/// was cleared, which is to assign address zero, no handle is made.
pub proof fn lemma_channel_holds_what_was_assigned(
    state: EngineState,
    channel: usize,
    source: usize,
    found: Option<SourceRef>,
)
    requires
        state.permits(Operation::SetChannelSource),
        channel < MAX_CHANNELS,
        wraps(found, source),
    ensures
        channel_assignment(state, channel, source) == Ok::<Option<Call>, Error>(
            Some(Call::SetOutputSource { channel: channel as u32, source }),
        ),
        channel_query(state, channel) == Ok::<Option<Call>, Error>(
            Some(Call::GetOutputSource { channel: channel as u32 }),
        ),
        source != 0 ==> (found matches Some(handle) && handle@ == source),
        source == 0 ==> found is None,
{
}

} // verus!
