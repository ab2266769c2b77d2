//! The host's side of a native media-composition engine: handles that
//! share in the lifetime of the engine's reference-counted objects, and the
//! state machine that brings the engine up.
//!
//! Nothing here calls the engine. Every operation is decided here and comes
//! out as a [`native::Call`], a native function with its arguments as plain
//! values, for the host to carry out; where the engine's answer matters, a
//! second function takes it. So the rules of the layer, which the engine
//! itself does not enforce, are in one place and are proved: which calls
//! are made in which order, which addresses may become handles, when a
//! reference is taken and when it is given up, and which operation is legal
//! in which state.

pub mod data;
pub mod display;
pub mod engine;
pub mod error;
pub mod ledger;
pub mod module;
pub mod native;
pub mod path;
pub mod profile;
pub mod scene;
pub mod settings;
pub mod source;
pub mod string;
pub mod video;
