use std::collections::HashMap;

use obs_engine::data::DataRef;
use obs_engine::engine::{EngineState, Obs};
use obs_engine::error::Error;
use obs_engine::native::Call;
use obs_engine::scene::{SceneItemRef, SceneRef};
use obs_engine::source::SourceRef;
use obs_engine::string::{CText, ObsString};
use obs_engine::video::VideoSetting;

/// What the stand-in engine answers a call with.
#[derive(Debug, Clone, PartialEq)]
enum Answer {
    Nothing,
    Flag(bool),
    Status(i32),
    Integer(i64),
    Address(usize),
    Text(Option<Vec<u8>>),
}

impl Answer {
    fn address(self) -> usize {
        match self {
            Answer::Address(a) => a,
            other => panic!("no address: {:?}", other),
        }
    }

    fn text(self) -> Option<CText> {
        match self {
            Answer::Text(t) => t.map(|bytes| CText::from_bytes(bytes).unwrap()),
            other => panic!("no text: {:?}", other),
        }
    }
}

#[derive(Debug, Clone, PartialEq)]
enum Stored {
    Text(Vec<u8>),
    Integer(i64),
    Flag(bool),
}

/// A stand-in for the native engine that keeps reference counts, the output
/// table and data objects in memory, and panics where the real one would
/// be corrupted: on a release without a reference, or a call on an object
/// that is gone.
struct Engine {
    started: bool,
    active: bool,
    video: Option<VideoSetting>,
    next: usize,
    counts: HashMap<usize, u32>,
    source_of_scene: HashMap<usize, usize>,
    names: HashMap<usize, Vec<u8>>,
    ids: HashMap<usize, Vec<u8>>,
    channels: Vec<usize>,
    data: HashMap<usize, Vec<(Vec<u8>, Stored)>>,
    item_source: HashMap<usize, usize>,
}

impl Engine {
    fn new() -> Engine {
        Engine {
            started: false,
            active: false,
            video: None,
            next: 0x1000,
            counts: HashMap::new(),
            source_of_scene: HashMap::new(),
            names: HashMap::new(),
            ids: HashMap::new(),
            channels: vec![0; 64],
            data: HashMap::new(),
            item_source: HashMap::new(),
        }
    }

    fn fresh(&mut self) -> usize {
        self.next += 0x10;
        self.counts.insert(self.next, 1);
        self.next
    }

    fn count(&self, object: usize) -> u32 {
        *self.counts.get(&object).unwrap_or(&0)
    }

    fn retain(&mut self, object: usize) {
        let count = self.counts.get_mut(&object).filter(|c| **c > 0).expect("object is gone");
        *count += 1;
    }

    fn release(&mut self, object: usize) {
        let count = self.counts.get_mut(&object).filter(|c| **c > 0).expect("released too often");
        *count -= 1;
        if *count == 0 {
            if let Some(source) = self.item_source.remove(&object) {
                self.release(source);
            }
        }
    }

    fn perform(&mut self, call: &Call) -> Answer {
        match call {
            Call::Initialized => Answer::Flag(self.started),
            Call::GetVersionString => Answer::Text(Some(b"30.0.0".to_vec())),
            Call::Startup { .. } => {
                let fresh = !self.started;
                self.started = true;
                Answer::Flag(fresh)
            }
            Call::ResetVideo { info } => {
                if self.active {
                    Answer::Status(-4)
                } else {
                    self.video = Some(*info);
                    Answer::Status(0)
                }
            }
            Call::SceneCreate { name } => {
                let source = self.fresh();
                self.names.insert(source, name.as_bytes().clone());
                self.ids.insert(source, b"scene".to_vec());
                // the scene and the source that stands for it share one count
                self.source_of_scene.insert(source, source);
                Answer::Address(source)
            }
            Call::SceneGetRef { scene } => {
                self.retain(*scene);
                Answer::Address(*scene)
            }
            Call::SceneRelease { scene } => {
                self.release(*scene);
                Answer::Nothing
            }
            Call::SceneGetSource { scene } => {
                assert!(self.count(*scene) > 0, "scene is gone");
                Answer::Address(self.source_of_scene[scene])
            }
            Call::SceneAdd { scene, source } => {
                assert!(self.count(*scene) > 0 && self.count(*source) > 0);
                if scene == source {
                    return Answer::Address(0);
                }
                let item = self.fresh();
                // the scene's own reference to the item stays with the scene
                self.item_source.insert(item, *source);
                Answer::Address(item)
            }
            Call::SceneItemAddref { item } => {
                self.retain(*item);
                Answer::Nothing
            }
            Call::SceneItemRelease { item } => {
                self.release(*item);
                Answer::Nothing
            }
            Call::SceneItemVisible { item } => Answer::Flag(self.count(*item) > 0),
            Call::SourceCreate { id, name, settings } => {
                if !self.data.contains_key(settings) || id.as_bytes().is_empty() {
                    return Answer::Address(0);
                }
                let source = self.fresh();
                self.names.insert(source, name.as_bytes().clone());
                self.ids.insert(source, id.as_bytes().clone());
                Answer::Address(source)
            }
            Call::SourceGetRef { source } => {
                self.retain(*source);
                Answer::Address(*source)
            }
            Call::SourceAddref { source } => {
                self.retain(*source);
                Answer::Nothing
            }
            Call::SourceRelease { source } => {
                self.release(*source);
                Answer::Nothing
            }
            Call::SourceGetId { source } => Answer::Text(self.ids.get(source).cloned()),
            Call::SourceGetName { source } => Answer::Text(self.names.get(source).cloned()),
            Call::SetOutputSource { channel, source } => {
                let old = self.channels[*channel as usize];
                if *source != 0 {
                    self.retain(*source);
                }
                if old != 0 {
                    self.release(old);
                }
                self.channels[*channel as usize] = *source;
                Answer::Nothing
            }
            Call::GetOutputSource { channel } => {
                let source = self.channels[*channel as usize];
                if source != 0 {
                    self.retain(source);
                }
                Answer::Address(source)
            }
            Call::DataCreate => {
                let data = self.fresh();
                self.data.insert(data, Vec::new());
                Answer::Address(data)
            }
            Call::DataAddref { data } => {
                self.retain(*data);
                Answer::Nothing
            }
            Call::DataRelease { data } => {
                self.release(*data);
                Answer::Nothing
            }
            Call::DataSetString { data, key, value } => {
                self.store(*data, key, Stored::Text(value.as_bytes().clone()))
            }
            Call::DataSetInt { data, key, value } => self.store(*data, key, Stored::Integer(*value)),
            Call::DataSetBool { data, key, value } => self.store(*data, key, Stored::Flag(*value)),
            Call::DataGetString { data, key } => match self.find(*data, key) {
                Some(Stored::Text(bytes)) => Answer::Text(Some(bytes)),
                _ => Answer::Text(Some(Vec::new())),
            },
            Call::DataGetInt { data, key } => match self.find(*data, key) {
                Some(Stored::Integer(n)) => Answer::Integer(n),
                _ => Answer::Integer(0),
            },
            Call::DataGetBool { data, key } => match self.find(*data, key) {
                Some(Stored::Flag(b)) => Answer::Flag(b),
                _ => Answer::Flag(false),
            },
            other => panic!("the stand-in engine does not know {:?}", other),
        }
    }

    fn store(&mut self, data: usize, key: &CText, value: Stored) -> Answer {
        let entries = self.data.get_mut(&data).expect("no such data object");
        entries.retain(|(k, _)| k != key.as_bytes());
        entries.push((key.as_bytes().clone(), value));
        Answer::Nothing
    }

    fn find(&self, data: usize, key: &CText) -> Option<Stored> {
        self.data[&data].iter().find(|(k, _)| k == key.as_bytes()).map(|(_, v)| v.clone())
    }
}

fn configured(engine: &mut Engine) -> Obs {
    let mut obs = Obs::new();
    let flag = engine.perform(&obs.ready());
    assert!(!obs.ready_answer(flag == Answer::Flag(true)));
    let call = obs.init("en_US").unwrap();
    let ok = engine.perform(&call) == Answer::Flag(true);
    obs.init_answer(ok).unwrap();
    let call = obs.reset_video(VideoSetting::new().with_fps(30, 1)).unwrap();
    match engine.perform(&call) {
        Answer::Status(status) => obs.reset_video_answer(status).unwrap(),
        other => panic!("{:?}", other),
    }
    assert_eq!(obs.state(), EngineState::VideoConfigured);
    obs
}

fn create_scene(engine: &mut Engine, obs: &mut Obs, name: &str) -> SceneRef {
    let call = obs.create_scene(name).unwrap();
    let made = engine.perform(&call).address();
    let (scene, again) = Obs::create_scene_answer(made).unwrap();
    let kept = engine.perform(&again).address();
    assert!(obs.keep_scene(kept));
    scene
}

fn as_source(engine: &mut Engine, scene: &SceneRef) -> SourceRef {
    let borrowed = engine.perform(&scene.as_source()).address();
    let take = SceneRef::as_source_answer(borrowed).unwrap();
    SourceRef::from_raw(engine.perform(&take).address()).unwrap()
}

fn name_of(engine: &mut Engine, source: &SourceRef) -> ObsString {
    ObsString::from_raw_or_null(engine.perform(&source.name()).text())
}

fn create_source(engine: &mut Engine, obs: &Obs, name: &str) -> SourceRef {
    let data = DataRef::from_raw(engine.perform(&DataRef::new()).address()).unwrap();
    let call = obs.create_source(name, "color_source_v3", &data).unwrap();
    let source = Obs::create_source_answer(engine.perform(&call).address()).unwrap();
    engine.perform(&data.release());
    source
}

#[test]
fn a_scene_shows_the_name_it_was_created_under() {
    let mut engine = Engine::new();
    let mut obs = configured(&mut engine);
    for name in ["main", "Szene – zwei", "場面", ""] {
        let scene = create_scene(&mut engine, &mut obs, name);
        let source = as_source(&mut engine, &scene);
        assert_eq!(name_of(&mut engine, &source).as_str(), Ok(name));
        engine.perform(&source.release());
        engine.perform(&scene.release());
    }
}

#[test]
fn a_scene_name_can_be_read_without_taking_a_reference() {
    let mut engine = Engine::new();
    let mut obs = configured(&mut engine);
    let scene = create_scene(&mut engine, &mut obs, "main");
    let before = engine.count(scene.as_ptr());
    let borrowed = engine.perform(&scene.name()).address();
    let read = SceneRef::name_answer(borrowed).unwrap();
    let name = ObsString::from_raw_or_null(engine.perform(&read).text());
    assert_eq!(name.as_str(), Ok("main"));
    assert_eq!(engine.count(scene.as_ptr()), before);
}

#[test]
fn creating_a_scene_leaves_one_reference_for_each_handle() {
    let mut engine = Engine::new();
    let mut obs = configured(&mut engine);
    let scene = create_scene(&mut engine, &mut obs, "main");
    let address = scene.as_ptr();
    assert_eq!(engine.count(address), 2);
    engine.perform(&scene.release());
    assert_eq!(engine.count(address), 1);
    for call in obs.release() {
        engine.perform(&call);
    }
    assert_eq!(engine.count(address), 0);
}

#[test]
fn dropping_a_clone_leaves_the_first_handle_valid() {
    let mut engine = Engine::new();
    let mut obs = configured(&mut engine);
    let source = create_source(&mut engine, &obs, "capture 1");
    assert_eq!(engine.count(source.as_ptr()), 1);
    let clone = SourceRef::from_raw(engine.perform(&source.clone()).address()).unwrap();
    assert_eq!(clone.as_ptr(), source.as_ptr());
    assert_eq!(engine.count(source.as_ptr()), 2);
    engine.perform(&clone.release());
    assert_eq!(engine.count(source.as_ptr()), 1);
    assert_eq!(name_of(&mut engine, &source).as_str(), Ok("capture 1"));

    let scene = create_scene(&mut engine, &mut obs, "main");
    let before = engine.count(scene.as_ptr());
    let clone = SceneRef::from_raw(engine.perform(&scene.clone()).address()).unwrap();
    engine.perform(&clone.release());
    assert_eq!(engine.count(scene.as_ptr()), before);

    let data = DataRef::from_raw(engine.perform(&DataRef::new()).address()).unwrap();
    let (clone, take) = data.clone();
    engine.perform(&take);
    assert_eq!(engine.count(data.as_ptr()), 2);
    engine.perform(&clone.release());
    assert_eq!(engine.count(data.as_ptr()), 1);
}

#[test]
fn as_source_handle_releases_only_what_it_took() {
    let mut engine = Engine::new();
    let mut obs = configured(&mut engine);
    let scene = create_scene(&mut engine, &mut obs, "main");
    let before = engine.count(scene.as_ptr());
    let source = as_source(&mut engine, &scene);
    assert_eq!(engine.count(source.as_ptr()), before + 1);
    engine.perform(&source.release());
    assert_eq!(engine.count(scene.as_ptr()), before);
}

#[test]
fn a_channel_holds_the_source_assigned_to_it() {
    let mut engine = Engine::new();
    let obs = configured(&mut engine);
    let source = create_source(&mut engine, &obs, "capture 1");
    let address = source.as_ptr();
    let set = obs.set_channel_source(3, Some(&source)).unwrap().unwrap();
    engine.perform(&set);
    // the caller's own handle may go: the channel keeps the source alive
    engine.perform(&source.release());
    let get = obs.get_channel_source(3).unwrap().unwrap();
    let found = Obs::get_channel_source_answer(engine.perform(&get).address()).unwrap();
    assert_eq!(found.as_ptr(), address);
    assert_eq!(name_of(&mut engine, &found).as_str(), Ok("capture 1"));
    assert_eq!(engine.count(address), 2);
    engine.perform(&found.release());
    assert_eq!(engine.count(address), 1);
}

#[test]
fn clearing_a_channel_leaves_it_empty() {
    let mut engine = Engine::new();
    let obs = configured(&mut engine);
    let source = create_source(&mut engine, &obs, "capture 1");
    engine.perform(&obs.set_channel_source(0, Some(&source)).unwrap().unwrap());
    assert_eq!(engine.count(source.as_ptr()), 2);
    engine.perform(&obs.set_channel_source(0, None).unwrap().unwrap());
    assert_eq!(engine.count(source.as_ptr()), 1);
    let get = obs.get_channel_source(0).unwrap().unwrap();
    assert_eq!(Obs::get_channel_source_answer(engine.perform(&get).address()), None);
}

#[test]
fn an_empty_channel_holds_nothing() {
    let mut engine = Engine::new();
    let obs = configured(&mut engine);
    let get = obs.get_channel_source(63).unwrap().unwrap();
    assert_eq!(Obs::get_channel_source_answer(engine.perform(&get).address()), None);
}

#[test]
fn the_second_video_reset_is_the_one_in_effect() {
    let mut engine = Engine::new();
    let mut obs = configured(&mut engine);
    let first = VideoSetting::new().with_output_size(1280, 720);
    let second = VideoSetting::new().with_output_size(1920, 1080);
    for info in [first, second] {
        let call = obs.reset_video(info).unwrap();
        match engine.perform(&call) {
            Answer::Status(status) => assert_eq!(obs.reset_video_answer(status), Ok(())),
            other => panic!("{:?}", other),
        }
    }
    assert_eq!(engine.video, Some(second));
    assert_eq!(obs.state(), EngineState::VideoConfigured);
}

#[test]
fn a_video_reset_while_an_output_is_active_fails_with_the_native_code() {
    let mut engine = Engine::new();
    let mut obs = configured(&mut engine);
    engine.active = true;
    let call = obs.reset_video(VideoSetting::new()).unwrap();
    match engine.perform(&call) {
        Answer::Status(status) => assert_eq!(obs.reset_video_answer(status), Err(Error::Code(-4))),
        other => panic!("{:?}", other),
    }
    assert_eq!(obs.state(), EngineState::VideoConfigured);
}

#[test]
fn starting_an_engine_that_runs_already_fails() {
    let mut engine = Engine::new();
    let _first = configured(&mut engine);
    let mut second = Obs::new();
    // the guard: an engine found started needs no start
    let flag = engine.perform(&second.ready()) == Answer::Flag(true);
    assert!(second.ready_answer(flag));
    assert_eq!(second.state(), EngineState::Started);
    assert_eq!(second.init("en_US"), Err(Error::WrongState));
    // without the guard the engine itself refuses
    let mut third = Obs::new();
    let call = third.init("en_US").unwrap();
    let ok = engine.perform(&call) == Answer::Flag(true);
    assert_eq!(third.init_answer(ok), Err(Error::Code(-1)));
    assert_eq!(third.state(), EngineState::Uninitialized);
}

#[test]
fn adding_a_source_to_a_scene() {
    let mut engine = Engine::new();
    let mut obs = configured(&mut engine);
    let scene = create_scene(&mut engine, &mut obs, "main");
    let source = create_source(&mut engine, &obs, "capture 1");
    let (take, add) = scene.add_source(&source);
    engine.perform(&take);
    let item = engine.perform(&add).address();
    let (handle, then) = SceneRef::add_source_answer(&source, item);
    engine.perform(&then);
    let handle: SceneItemRef = handle.unwrap();
    assert_eq!(engine.perform(&handle.visible()), Answer::Flag(true));
    // the handle's reference and the scene's own
    assert_eq!(engine.count(handle.as_ptr()), 2);
    // the caller's reference and the one taken for the scene
    assert_eq!(engine.count(source.as_ptr()), 2);
    let item = handle.as_ptr();
    engine.perform(&handle.release());
    assert_eq!(engine.count(item), 1);
    engine.perform(&source.release());
    assert_eq!(engine.count(item), 1);
}

#[test]
fn a_failed_add_gives_the_source_reference_back() {
    let mut engine = Engine::new();
    let mut obs = configured(&mut engine);
    let scene = create_scene(&mut engine, &mut obs, "main");
    // the stand-in engine will not add a scene to itself
    let own = as_source(&mut engine, &scene);
    let before = engine.count(own.as_ptr());
    let (take, add) = scene.add_source(&own);
    engine.perform(&take);
    let item = engine.perform(&add).address();
    assert_eq!(item, 0);
    let (handle, then) = SceneRef::add_source_answer(&own, item);
    assert_eq!(handle, None);
    engine.perform(&then);
    assert_eq!(engine.count(own.as_ptr()), before);
}

#[test]
fn stored_values_read_back() {
    let mut engine = Engine::new();
    let data = DataRef::from_raw(engine.perform(&DataRef::new()).address()).unwrap();
    let value: serde_json::Value = serde_json::from_str(
        r#"{"text":"grün","count":-12,"max":9223372036854775807,"on":true,"off":false,"gone":null}"#,
    )
    .unwrap();
    for call in data.from_value(&value).unwrap() {
        assert_eq!(engine.perform(&call), Answer::Nothing);
    }
    let text = engine.perform(&data.get_string("text").unwrap()).text().unwrap();
    assert_eq!(text.to_str(), Ok("grün"));
    assert_eq!(engine.perform(&data.get_int("count").unwrap()), Answer::Integer(-12));
    assert_eq!(engine.perform(&data.get_int("max").unwrap()), Answer::Integer(i64::MAX));
    assert_eq!(engine.perform(&data.get_bool("on").unwrap()), Answer::Flag(true));
    assert_eq!(engine.perform(&data.get_bool("off").unwrap()), Answer::Flag(false));
    // the null member never reached the data object
    let keys: Vec<&[u8]> = engine.data[&data.as_ptr()].iter().map(|(k, _)| k.as_slice()).collect();
    assert!(!keys.contains(&"gone".as_bytes()));
    assert_eq!(keys.len(), 5);
}
