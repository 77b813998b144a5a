use vstd::prelude::*;
use crate::error::FaceError;
use crate::image::FaceLocation;

verus! {

/// How an `add` run ended without error.
#[derive(Debug, Clone, Copy, PartialEq, Eq, Structural)]
pub enum AddOutcome {
    /// No face was accepted; the index was not touched.
    NoFace,
    /// The face's point was written to the index.
    Stored,
}

/// Where an `add` run stands: what it waits for next.
#[derive(Debug, Clone, Copy, PartialEq, Eq, Structural)]
pub enum AddState {
    /// Waiting for the best detection of the frame.
    Locating,
    /// Waiting for the face's region to be hashed and embedded.
    Describing,
    /// Waiting to learn whether the collection exists.
    CheckingCollection,
    /// Waiting for the collection to be created.
    CreatingCollection,
    /// Waiting for the point to be written.
    Upserting,
    Done(AddOutcome),
    Failed(FaceError),
}

/// What the driver of an `add` run reports back.
#[derive(Debug, Clone, Copy, PartialEq, Eq, Structural)]
pub enum AddEvent {
    /// The accepted face, if any.
    Located(Option<FaceLocation>),
    /// The region was cut out, hashed and embedded.
    Described,
    /// Whether the collection exists.
    CollectionChecked(bool),
    CollectionCreated,
    Upserted,
    /// The work asked for failed.
    Failed(FaceError),
}

/// What the driver is to do next.
#[derive(Debug, Clone, Copy, PartialEq, Eq, Structural)]
pub enum AddAction {
    /// Cut out, hash and embed the face at this location.
    Describe(FaceLocation),
    CheckCollection,
    /// Create the collection (128-dimensional vectors, cosine distance).
    CreateCollection,
    /// Write the face's point.
    Upsert,
    /// The run is over.
    Stop,
    /// The event did not belong to the state: nothing to do.
    Ignore,
}

impl AddState {
    pub open spec fn is_terminal(self) -> bool {
        self is Done || self is Failed
    }
}

impl AddAction {
    /// The action changes the similarity index.
    pub open spec fn mutates_index(self) -> bool {
        self is CreateCollection || self is Upsert
    }
}

/// One step of an `add` run. No retries: a failure ends the run. A run that
/// has ended stays as it is.
pub open spec fn add_next(s: AddState, e: AddEvent) -> (AddState, AddAction) {
    if s.is_terminal() {
        (s, AddAction::Stop)
    } else if e is Failed {
        (AddState::Failed(e->Failed_0), AddAction::Stop)
    } else {
        match (s, e) {
            (AddState::Locating, AddEvent::Located(None)) =>
                (AddState::Done(AddOutcome::NoFace), AddAction::Stop),
            (AddState::Locating, AddEvent::Located(Some(l))) =>
                (AddState::Describing, AddAction::Describe(l)),
            (AddState::Describing, AddEvent::Described) =>
                (AddState::CheckingCollection, AddAction::CheckCollection),
            (AddState::CheckingCollection, AddEvent::CollectionChecked(true)) =>
                (AddState::Upserting, AddAction::Upsert),
            (AddState::CheckingCollection, AddEvent::CollectionChecked(false)) =>
                (AddState::CreatingCollection, AddAction::CreateCollection),
            (AddState::CreatingCollection, AddEvent::CollectionCreated) =>
                (AddState::Upserting, AddAction::Upsert),
            (AddState::Upserting, AddEvent::Upserted) =>
                (AddState::Done(AddOutcome::Stored), AddAction::Stop),
            _ => (s, AddAction::Ignore),
        }
    }
}

/// The state after a sequence of events, and the actions asked for on the way.
pub open spec fn add_run(s: AddState, events: Seq<AddEvent>) -> (AddState, Seq<AddAction>)
    decreases events.len(),
{
    if events.len() == 0 {
        (s, Seq::empty())
    } else {
        let (s1, a) = add_next(s, events[0]);
        let (s2, rest) = add_run(s1, events.drop_first());
        (s2, seq![a] + rest)
    }
}

/// The next state of an `add` run after `event`, and the action to perform.
pub fn add_step(state: AddState, event: AddEvent) -> (r: (AddState, AddAction))
    ensures
        r == add_next(state, event),
{
    match state {
        AddState::Done(_) | AddState::Failed(_) => return (state, AddAction::Stop),
        _ => {},
    }
    if let AddEvent::Failed(e) = event {
        return (AddState::Failed(e), AddAction::Stop);
    }
    match (state, event) {
        (AddState::Locating, AddEvent::Located(None)) =>
            (AddState::Done(AddOutcome::NoFace), AddAction::Stop),
        (AddState::Locating, AddEvent::Located(Some(l))) =>
            (AddState::Describing, AddAction::Describe(l)),
        (AddState::Describing, AddEvent::Described) =>
            (AddState::CheckingCollection, AddAction::CheckCollection),
        (AddState::CheckingCollection, AddEvent::CollectionChecked(true)) =>
            (AddState::Upserting, AddAction::Upsert),
        (AddState::CheckingCollection, AddEvent::CollectionChecked(false)) =>
            (AddState::CreatingCollection, AddAction::CreateCollection),
        (AddState::CreatingCollection, AddEvent::CollectionCreated) =>
            (AddState::Upserting, AddAction::Upsert),
        (AddState::Upserting, AddEvent::Upserted) =>
            (AddState::Done(AddOutcome::Stored), AddAction::Stop),
        _ => (state, AddAction::Ignore),
    }
}

/// A run that has ended stays ended and asks for no change to the index,
/// whatever events follow.
pub proof fn lemma_terminal_stays(s: AddState, events: Seq<AddEvent>)
    requires
        s.is_terminal(),
    ensures
        add_run(s, events).0 == s,
        forall|i: int| 0 <= i < add_run(s, events).1.len()
            ==> !(#[trigger] add_run(s, events).1[i]).mutates_index(),
    decreases events.len(),
{
    if events.len() > 0 {
        lemma_terminal_stays(s, events.drop_first());
        let rest = add_run(s, events.drop_first()).1;
        assert forall|i: int| 0 <= i < add_run(s, events).1.len()
            implies !(#[trigger] add_run(s, events).1[i]).mutates_index() by {
            if i > 0 {
                assert(add_run(s, events).1[i] == rest[i - 1]);
            }
        }
    }
}

/// When no face is accepted, the `add` run ends with `NoFace` (a success)
/// and never writes to the index, whatever the driver reports afterwards.
pub proof fn lemma_no_face_no_write(later: Seq<AddEvent>)
    ensures
        add_run(AddState::Locating, seq![AddEvent::Located(None)] + later).0
            == AddState::Done(AddOutcome::NoFace),
        forall|i: int| 0 <= i < add_run(AddState::Locating, seq![AddEvent::Located(None)] + later).1.len()
            ==> !(#[trigger] add_run(AddState::Locating, seq![AddEvent::Located(None)] + later).1[i]).mutates_index(),
{
    let events = seq![AddEvent::Located(None)] + later;
    let done = AddState::Done(AddOutcome::NoFace);
    assert(events.drop_first() =~= later);
    assert(add_next(AddState::Locating, events[0]) == (done, AddAction::Stop));
    lemma_terminal_stays(done, later);
    let rest = add_run(done, later).1;
    assert forall|i: int| 0 <= i < add_run(AddState::Locating, events).1.len()
        implies !(#[trigger] add_run(AddState::Locating, events).1[i]).mutates_index() by {
        if i > 0 {
            assert(add_run(AddState::Locating, events).1[i] == rest[i - 1]);
        }
    }
}

} // verus!
