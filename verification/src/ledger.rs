//! Bookkeeping of references: what a run of calls and answers leaves the
//! host holding, and the balance of each flow that makes or spends a handle.

use vstd::prelude::*;

use crate::native::{Call, Kind};

verus! {

/// One call together with the address the engine answered it with; zero
/// where the call is answered with no address.
pub struct Exchange {
    pub call: Call,
    pub answer: usize,
}

impl Exchange {
    /// By how much this exchange changes the number of references that the
    /// host holds to `object` of `kind`: up by one where the engine grants
    /// a reference with the address it answers, or the call takes one; down
    /// by one where the call gives one up.
    pub open spec fn delta(self, kind: Kind, object: usize) -> int {
        if object == 0 {
            0
        } else if self.call.spec_grants() == Some(kind) && self.answer == object {
            1
        } else if self.call.spec_acquires() == Some((kind, object)) {
            1
        } else if self.call.spec_releases() == Some((kind, object)) {
            -1
        } else {
            0
        }
    }
}

/// The number of references to `object` of `kind` that the host has taken
/// and not given up over a run of exchanges.
pub open spec fn held(run: Seq<Exchange>, kind: Kind, object: usize) -> int
    decreases run.len(),
{
    if run.len() == 0 {
        0
    } else {
        held(run.drop_last(), kind, object) + run.last().delta(kind, object)
    }
}

/// The call that takes one more reference to `object` of `kind`, for the
/// kinds whose handles can be cloned.
pub open spec fn clone_call(kind: Kind, object: usize) -> Call
    recommends
        kind == Kind::Source || kind == Kind::Scene || kind == Kind::Data,
{
    match kind {
        Kind::Source => Call::SourceGetRef { source: object },
        Kind::Scene => Call::SceneGetRef { scene: object },
        _ => Call::DataAddref { data: object },
    }
}

/// The address the clone of a handle to `object` holds: for a source or a
/// scene the address the engine answered with, and for a data object the
/// same address.
pub open spec fn cloned(kind: Kind, object: usize, answer: usize) -> usize {
    match kind {
        Kind::Source | Kind::Scene => answer,
        _ => object,
    }
}

/// The call that gives one reference to `object` of `kind` up.
pub open spec fn release_call(kind: Kind, object: usize) -> Call {
    match kind {
        Kind::Source => Call::SourceRelease { source: object },
        Kind::Scene => Call::SceneRelease { scene: object },
        Kind::SceneItem => Call::SceneItemRelease { item: object },
        Kind::Data => Call::DataRelease { data: object },
        Kind::Display => Call::DisplayDestroy { display: object },
    }
}

/// What a run followed by one more exchange holds.
pub proof fn lemma_held_push(run: Seq<Exchange>, next: Exchange, kind: Kind, object: usize)
    ensures
        held(run.push(next), kind, object) == held(run, kind, object) + next.delta(kind, object),
{
    assert(run.push(next).drop_last() =~= run);
}

/// What a run of one, two or three exchanges holds.
proof fn lemma_held_short(a: Exchange, b: Exchange, c: Exchange, kind: Kind, object: usize)
    ensures
        held(seq![a], kind, object) == a.delta(kind, object),
        held(seq![a, b], kind, object) == a.delta(kind, object) + b.delta(kind, object),
        held(seq![a, b, c], kind, object) == a.delta(kind, object) + b.delta(kind, object)
            + c.delta(kind, object),
{
    lemma_held_push(Seq::empty(), a, kind, object);
    lemma_held_push(seq![a], b, kind, object);
    assert(seq![a].push(b) =~= seq![a, b]);
    lemma_held_push(seq![a, b], c, kind, object);
    assert(seq![a, b].push(c) =~= seq![a, b, c]);
}

/// Cloning a handle and releasing the clone leaves the first handle as
/// it was: whatever the engine answers, the host holds as many references to
/// every object afterwards as before, and at no point fewer. Where the
/// engine answers the clone of a source or a scene with address zero, no
/// clone comes to be and nothing is released.
pub proof fn lemma_clone_then_release_is_neutral(
    kind: Kind,
    object: usize,
    answer: usize,
    any_kind: Kind,
    any_object: usize,
)
    requires
        object != 0,
        kind == Kind::Source || kind == Kind::Scene || kind == Kind::Data,
    ensures
        ({
            let taken = Exchange { call: clone_call(kind, object), answer };
            let clone = cloned(kind, object, answer);
            let given_up = Exchange { call: release_call(kind, clone), answer: 0 };
            &&& held(seq![taken], any_kind, any_object) >= 0
            &&& clone == 0 ==> held(seq![taken], any_kind, any_object) == 0
            &&& clone != 0 ==> held(seq![taken, given_up], any_kind, any_object) == 0
        }),
{
    let taken = Exchange { call: clone_call(kind, object), answer };
    let given_up = Exchange { call: release_call(kind, cloned(kind, object, answer)), answer: 0 };
    lemma_held_short(taken, given_up, given_up, any_kind, any_object);
}

/// The source that stands for a scene comes without a reference, so the
/// handle to it is made from the answer to a call that takes one. Over
/// asking, taking, and at last releasing that handle, the host never gives
/// up a reference it had not taken, and ends where it began.
pub proof fn lemma_as_source_owns_its_reference(
    scene: usize,
    source: usize,
    handle: usize,
    any_kind: Kind,
    any_object: usize,
)
    requires
        scene != 0,
        source != 0,
        handle != 0,
    ensures
        ({
            let asked = Exchange { call: Call::SceneGetSource { scene }, answer: source };
            let taken = Exchange { call: Call::SourceGetRef { source }, answer: handle };
            let given_up = Exchange { call: Call::SourceRelease { source: handle }, answer: 0 };
            &&& held(seq![asked], any_kind, any_object) == 0
            &&& held(seq![asked, taken], Kind::Source, handle) == 1
            &&& held(seq![asked, taken], any_kind, any_object) >= 0
            &&& held(seq![asked, taken, given_up], any_kind, any_object) == 0
        }),
{
    let asked = Exchange { call: Call::SceneGetSource { scene }, answer: source };
    let taken = Exchange { call: Call::SourceGetRef { source }, answer: handle };
    let given_up = Exchange { call: Call::SourceRelease { source: handle }, answer: 0 };
    lemma_held_short(asked, taken, given_up, any_kind, any_object);
    lemma_held_short(asked, taken, given_up, Kind::Source, handle);
}

/// Adding a source to a scene takes one reference to the source, which
/// stays with the scene, and one to the item, which is the handle's own:
/// releasing the item handle leaves the host holding just the reference to
/// the source it took for the scene.
pub proof fn lemma_add_source_balances(scene: usize, source: usize, item: usize)
    requires
        scene != 0,
        source != 0,
        item != 0,
    ensures
        ({
            let first = Exchange { call: Call::SourceAddref { source }, answer: 0 };
            let added = Exchange { call: Call::SceneAdd { scene, source }, answer: item };
            let taken = Exchange { call: Call::SceneItemAddref { item }, answer: 0 };
            let given_up = Exchange { call: Call::SceneItemRelease { item }, answer: 0 };
            let run = seq![first, added, taken];
            &&& held(run, Kind::Source, source) == 1
            &&& held(run, Kind::SceneItem, item) == 1
            &&& held(run.push(given_up), Kind::SceneItem, item) == 0
            &&& held(run.push(given_up), Kind::Source, source) == 1
        }),
{
    let first = Exchange { call: Call::SourceAddref { source }, answer: 0 };
    let added = Exchange { call: Call::SceneAdd { scene, source }, answer: item };
    let taken = Exchange { call: Call::SceneItemAddref { item }, answer: 0 };
    let given_up = Exchange { call: Call::SceneItemRelease { item }, answer: 0 };
    lemma_held_short(first, added, taken, Kind::Source, source);
    lemma_held_short(first, added, taken, Kind::SceneItem, item);
    lemma_held_push(seq![first, added, taken], given_up, Kind::Source, source);
    lemma_held_push(seq![first, added, taken], given_up, Kind::SceneItem, item);
}

/// Where the engine adds nothing, the reference to the source that was
/// taken beforehand is given back, and the host holds what it held.
pub proof fn lemma_failed_add_source_is_neutral(
    scene: usize,
    source: usize,
    any_kind: Kind,
    any_object: usize,
)
    requires
        scene != 0,
        source != 0,
    ensures
        ({
            let first = Exchange { call: Call::SourceAddref { source }, answer: 0 };
            let added = Exchange { call: Call::SceneAdd { scene, source }, answer: 0 };
            let back = Exchange { call: Call::SourceRelease { source }, answer: 0 };
            &&& held(seq![first, added], any_kind, any_object) >= 0
            &&& held(seq![first, added, back], any_kind, any_object) == 0
        }),
{
    let first = Exchange { call: Call::SourceAddref { source }, answer: 0 };
    let added = Exchange { call: Call::SceneAdd { scene, source }, answer: 0 };
    let back = Exchange { call: Call::SourceRelease { source }, answer: 0 };
    lemma_held_short(first, added, back, any_kind, any_object);
}

/// A source assigned to an output slot and then asked for again: where the
/// engine answers with the source it was given, the handle made from the
/// answer owns a reference of its own, so that the host still holds one
/// after the handle that was assigned has been released.
pub proof fn lemma_channel_handle_is_independent(channel: u32, source: usize)
    requires
        source != 0,
    ensures
        ({
            let set = Exchange { call: Call::SetOutputSource { channel, source }, answer: 0 };
            let got = Exchange { call: Call::GetOutputSource { channel }, answer: source };
            let given_up = Exchange { call: Call::SourceRelease { source }, answer: 0 };
            &&& held(seq![set], Kind::Source, source) == 0
            &&& held(seq![set, got], Kind::Source, source) == 1
            &&& held(seq![set, got, given_up], Kind::Source, source) == 0
        }),
{
    let set = Exchange { call: Call::SetOutputSource { channel, source }, answer: 0 };
    let got = Exchange { call: Call::GetOutputSource { channel }, answer: source };
    let given_up = Exchange { call: Call::SourceRelease { source }, answer: 0 };
    lemma_held_short(set, got, given_up, Kind::Source, source);
}

/// Creating a scene leaves the host with one reference for each handle
/// that comes of it: the caller's, from the creating itself, and the one
/// the engine value keeps, from the second call.
pub proof fn lemma_create_scene_counts_handles(create: Call, scene: usize, kept: usize)
    requires
        create is SceneCreate,
        scene != 0,
    ensures
        ({
            let made = Exchange { call: create, answer: scene };
            let again = Exchange { call: Call::SceneGetRef { scene }, answer: kept };
            &&& held(seq![made], Kind::Scene, scene) == 1
            &&& held(seq![made, again], Kind::Scene, scene) == if kept == scene {
                2int
            } else {
                1int
            }
            &&& kept != 0 && kept != scene ==> held(seq![made, again], Kind::Scene, kept) == 1
        }),
{
    let made = Exchange { call: create, answer: scene };
    let again = Exchange { call: Call::SceneGetRef { scene }, answer: kept };
    lemma_held_short(made, again, again, Kind::Scene, scene);
    lemma_held_short(made, again, again, Kind::Scene, kept);
}

} // verus!
