//! Handles to sources.

use vstd::prelude::*;

use crate::ledger::{clone_call, release_call};
use crate::native::{Call, Kind};
use crate::settings::win_game_capture::Setting;
use crate::string::{null_token, CText, ObsString};

verus! {

/// Settings for a source, by the type of source they configure.
#[allow(non_camel_case_types)]
#[derive(Debug, Clone, PartialEq, Eq)]
pub enum SourceSettings {
    Win_GameCapture(Setting),
}

/// One strong reference to a native source. The address held is never zero.
/// A value of this type is not copied: a second reference is asked of the
/// engine with `clone`, and each one is given up once, with `release`.
#[derive(Debug, PartialEq, Eq)]
pub struct SourceRef {
    pointer: usize,
}

impl View for SourceRef {
    type V = usize;

    closed spec fn view(&self) -> usize {
        self.pointer
    }
}

/// Whether `handle` is what wrapping the address `pointer` gives: no
/// handle for address zero, and else a handle to that address.
pub open spec fn wraps(handle: Option<SourceRef>, pointer: usize) -> bool {
    &&& pointer == 0 <==> handle is None
    &&& handle matches Some(h) ==> h@ == pointer
}

impl SourceRef {
    #[verifier::type_invariant]
    spec fn non_null(self) -> bool {
        self.pointer != 0
    }

    /// Wraps an address that already carries a reference for the host;
    /// address zero gives no handle.
    pub fn from_raw(pointer: usize) -> (r: Option<Self>)
        ensures
            wraps(r, pointer),
    {
        if pointer == 0 {
            None
        } else {
            Some(SourceRef { pointer })
        }
    }

    /// The address of the source.
    pub fn as_ptr(&self) -> (r: usize)
        ensures
            r == self@,
            r != 0,
    {
        proof {
            use_type_invariant(self);
        }
        self.pointer
    }

    /// Asks for one more reference to this source. The engine's answer,
    /// given to `from_raw`, is the new handle.
    pub fn clone(&self) -> (r: Call)
        ensures
            r == (Call::SourceGetRef { source: self@ }),
            r == clone_call(Kind::Source, self@),
    {
        Call::SourceGetRef { source: self.pointer }
    }

    /// Gives this reference up. The handle is spent.
    pub fn release(self) -> (r: Call)
        ensures
            r == (Call::SourceRelease { source: self@ }),
            r == release_call(Kind::Source, self@),
    {
        Call::SourceRelease { source: self.pointer }
    }

    /// Asks for the source's type id. The answer goes to `id_answer`.
    pub fn id(&self) -> (r: Call)
        ensures
            r == (Call::SourceGetId { source: self@ }),
    {
        Call::SourceGetId { source: self.pointer }
    }

    /// The type id the engine answered with; the token `null` where it
    /// answered with none. Reading an id never fails.
    pub fn id_answer(text: Option<CText>) -> (r: ObsString)
        ensures
            match text {
                None => r matches ObsString::CString(c) && c@ == null_token(),
                Some(c) => r == ObsString::CString(c),
            },
    {
        ObsString::from_raw_or_null(text)
    }

    /// Asks for the source's name. The answer goes to `name_answer`.
    pub fn name(&self) -> (r: Call)
        ensures
            r == (Call::SourceGetName { source: self@ }),
    {
        Call::SourceGetName { source: self.pointer }
    }

    /// The name the engine answered with; the token `null` where it
    /// answered with none. Reading a name never fails.
    pub fn name_answer(text: Option<CText>) -> (r: ObsString)
        ensures
            match text {
                None => r matches ObsString::CString(c) && c@ == null_token(),
                Some(c) => r == ObsString::CString(c),
            },
    {
        ObsString::from_raw_or_null(text)
    }
}

} // verus!
