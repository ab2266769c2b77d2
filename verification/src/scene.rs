//! Handles to scenes and to the items placed in them.

use vstd::prelude::*;

use crate::ledger::{clone_call, release_call};
use crate::native::{Call, Kind};
use crate::source::SourceRef;

verus! {

/// One strong reference to a native scene. The address held is never zero.
#[derive(Debug, PartialEq, Eq)]
pub struct SceneRef {
    pointer: usize,
}

impl View for SceneRef {
    type V = usize;

    closed spec fn view(&self) -> usize {
        self.pointer
    }
}

impl SceneRef {
    #[verifier::type_invariant]
    spec fn non_null(self) -> bool {
        self.pointer != 0
    }

    /// Wraps an address that already carries a reference for the host;
    /// address zero gives no handle.
    pub fn from_raw(pointer: usize) -> (r: Option<Self>)
        ensures
            pointer == 0 <==> r is None,
            r matches Some(h) ==> h@ == pointer,
    {
        if pointer == 0 {
            None
        } else {
            Some(SceneRef { pointer })
        }
    }

    /// The address of the scene.
    pub fn as_ptr(&self) -> (r: usize)
        ensures
            r == self@,
            r != 0,
    {
        proof {
            use_type_invariant(self);
        }
        self.pointer
    }

    /// Asks for one more reference to this scene. The engine's answer,
    /// given to `from_raw`, is the new handle.
    pub fn clone(&self) -> (r: Call)
        ensures
            r == (Call::SceneGetRef { scene: self@ }),
            r == clone_call(Kind::Scene, self@),
    {
        Call::SceneGetRef { scene: self.pointer }
    }

    /// Gives this reference up. The handle is spent.
    pub fn release(self) -> (r: Call)
        ensures
            r == (Call::SceneRelease { scene: self@ }),
            r == release_call(Kind::Scene, self@),
    {
        Call::SceneRelease { scene: self.pointer }
    }

    /// Asks for the source that stands for this scene, in order to read its
    /// name. The answer goes to `name_answer`.
    pub fn name(&self) -> (r: Call)
        ensures
            r == (Call::SceneGetSource { scene: self@ }),
    {
        Call::SceneGetSource { scene: self.pointer }
    }

    /// Given the address of the source that stands for a scene, asks for
    /// that source's name; the answer goes to `SourceRef::name_answer`.
    /// The address is only read through, so no reference is taken.
    /// Address zero gives no call.
    pub fn name_answer(source: usize) -> (r: Option<Call>)
        ensures
            source == 0 <==> r is None,
            r matches Some(call) ==> call == (Call::SourceGetName { source }),
    {
        if source == 0 {
            None
        } else {
            Some(Call::SourceGetName { source })
        }
    }

    /// Asks for the source that stands for this scene. The answer goes to
    /// `as_source_answer`.
    pub fn as_source(&self) -> (r: Call)
        ensures
            r == (Call::SceneGetSource { scene: self@ }),
    {
        Call::SceneGetSource { scene: self.pointer }
    }

    /// The engine answers `as_source` with an address that carries no
    /// reference. Before a handle may hold it, one must be taken: this is
    /// the call that does so, and its answer, given to
    /// `SourceRef::from_raw`, is the handle. Address zero gives no call.
    pub fn as_source_answer(source: usize) -> (r: Option<Call>)
        ensures
            source == 0 <==> r is None,
            r matches Some(call) ==> call == (Call::SourceGetRef { source }),
    {
        if source == 0 {
            None
        } else {
            Some(Call::SourceGetRef { source })
        }
    }

    /// Places `source` in this scene: first one more reference to the
    /// source is taken, matching the one the scene gives up when the item
    /// is torn down, then the source is added. The answer to the second
    /// call goes to `add_source_answer`.
    pub fn add_source(&self, source: &SourceRef) -> (r: (Call, Call))
        ensures
            r.0 == (Call::SourceAddref { source: source@ }),
            r.1 == (Call::SceneAdd { scene: self@, source: source@ }),
    {
        let s = source.as_ptr();
        (Call::SourceAddref { source: s }, Call::SceneAdd { scene: self.pointer, source: s })
    }

    /// The engine answers the adding of `source` with the address of the
    /// new item, which carries no reference. For an item, the handle is
    /// returned with the call that takes the reference it owns. For address
    /// zero nothing was added, and the call returned gives back the
    /// reference to `source` that was taken beforehand.
    pub fn add_source_answer(source: &SourceRef, item: usize) -> (r: (Option<SceneItemRef>, Call))
        ensures
            item == 0 <==> r.0 is None,
            r.0 matches Some(h) ==> h@ == item,
            item != 0 ==> r.1 == (Call::SceneItemAddref { item }),
            item == 0 ==> r.1 == (Call::SourceRelease { source: source@ }),
    {
        match SceneItemRef::from_raw(item) {
            Some(handle) => (Some(handle), Call::SceneItemAddref { item }),
            None => (None, Call::SourceRelease { source: source.as_ptr() }),
        }
    }
}

/// One strong reference to the placement of a source in a scene. The
/// address held is never zero. It is given up apart from any reference to
/// the source placed.
#[derive(Debug, PartialEq, Eq)]
pub struct SceneItemRef {
    pointer: usize,
}

impl View for SceneItemRef {
    type V = usize;

    closed spec fn view(&self) -> usize {
        self.pointer
    }
}

impl SceneItemRef {
    #[verifier::type_invariant]
    spec fn non_null(self) -> bool {
        self.pointer != 0
    }

    /// Wraps an address that already carries a reference for the host;
    /// address zero gives no handle.
    pub fn from_raw(pointer: usize) -> (r: Option<Self>)
        ensures
            pointer == 0 <==> r is None,
            r matches Some(h) ==> h@ == pointer,
    {
        if pointer == 0 {
            None
        } else {
            Some(SceneItemRef { pointer })
        }
    }

    /// The address of the item.
    pub fn as_ptr(&self) -> (r: usize)
        ensures
            r == self@,
            r != 0,
    {
        proof {
            use_type_invariant(self);
        }
        self.pointer
    }

    /// Gives this reference up. The handle is spent.
    pub fn release(self) -> (r: Call)
        ensures
            r == (Call::SceneItemRelease { item: self@ }),
            r == release_call(Kind::SceneItem, self@),
    {
        Call::SceneItemRelease { item: self.pointer }
    }

    /// Asks whether the item is shown. The answer is a flag.
    pub fn visible(&self) -> (r: Call)
        ensures
            r == (Call::SceneItemVisible { item: self@ }),
    {
        Call::SceneItemVisible { item: self.pointer }
    }
}

} // verus!
