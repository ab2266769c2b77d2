//! Handles to loaded modules.

use vstd::prelude::*;

use crate::native::Call;
use crate::string::{null_token, CText, ObsString};

verus! {

/// A loaded module of the native engine. The address held is never zero.
/// Modules are not reference-counted: the engine keeps them until it shuts
/// down.
#[derive(Debug, PartialEq, Eq)]
pub struct ModuleRef {
    pointer: usize,
}

impl View for ModuleRef {
    type V = usize;

    closed spec fn view(&self) -> usize {
        self.pointer
    }
}

impl ModuleRef {
    #[verifier::type_invariant]
    spec fn non_null(self) -> bool {
        self.pointer != 0
    }

    /// Wraps the address of a module; address zero gives no handle.
    pub fn from_raw(pointer: usize) -> (r: Option<Self>)
        ensures
            pointer == 0 <==> r is None,
            r matches Some(h) ==> h@ == pointer,
    {
        if pointer == 0 {
            None
        } else {
            Some(ModuleRef { pointer })
        }
    }

    /// The address of the module.
    pub fn as_ptr(&self) -> (r: usize)
        ensures
            r == self@,
            r != 0,
    {
        proof {
            use_type_invariant(self);
        }
        self.pointer
    }

    /// Asks for the module's name. The answer goes to `name_answer`.
    pub fn name(&self) -> (r: Call)
        ensures
            r == (Call::GetModuleName { module: self@ }),
    {
        Call::GetModuleName { module: self.pointer }
    }

    /// The name the engine answered with; the token `null` where it
    /// answered with none. Reading a name never fails.
    pub fn name_answer(text: Option<CText>) -> (r: ObsString)
        ensures
            match text {
                None => r matches ObsString::CString(c) && c@ == null_token(),
                Some(c) => r == ObsString::CString(c),
            },
    {
        ObsString::from_raw_or_null(text)
    }
}

} // verus!
