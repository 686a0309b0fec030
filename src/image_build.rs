//! Reading the event stream of an image build.
//!
//! The engine reports a build as a stream of events. A build is good when
//! the stream closes without a transport failure and has named exactly one
//! image: any number of events may repeat that one id, events without an id
//! are informational, and an empty id names nothing.

use vstd::prelude::*;

verus! {

/// One event of a build stream, as far as the build outcome depends on it.
pub enum BuildEvent {
    /// Progress output, or anything else that names no image.
    Info,
    /// The engine reports the id of the image it produced.
    ImageProduced { id: String },
    /// The stream failed in transport.
    Failed { message: String },
}

/// Why a build produced no image.
pub enum BuildError {
    /// Two different image ids were reported; a build must have one output.
    MultipleImageIds { first: String, second: String },
    /// The stream closed without naming an image.
    NoImageId,
    /// The stream failed in transport; the build was abandoned there.
    Transport { message: String },
}

/// Where the reading of a build stream stands.
pub enum BuildState {
    /// Still reading; `image_id` is the id seen so far, if any.
    Collecting { image_id: Option<String> },
    /// The build has failed; later events change nothing.
    Failed { error: BuildError },
}

/// The image id that `e` reports, if it reports a non-empty one.
pub open spec fn id_of(e: BuildEvent) -> Option<Seq<char>> {
    match e {
        BuildEvent::ImageProduced { id } => if id@.len() > 0 {
            Some(id@)
        } else {
            None
        },
        _ => None,
    }
}

/// No event of `events` is a transport failure.
pub open spec fn no_failure(events: Seq<BuildEvent>) -> bool {
    forall|i: int| 0 <= i < events.len() ==> !(#[trigger] events[i] is Failed)
}

/// `events` names at least one image.
pub open spec fn names_an_image(events: Seq<BuildEvent>) -> bool {
    exists|i: int| 0 <= i < events.len() && (#[trigger] id_of(events[i])) is Some
}

/// Every image id that `events` names is `id`.
pub open spec fn all_ids_are(events: Seq<BuildEvent>, id: Seq<char>) -> bool {
    forall|i: int|
        0 <= i < events.len() && (#[trigger] id_of(events[i])) is Some ==> id_of(events[i])
            == Some(id)
}

impl BuildState {
    /// The state after one more event.
    pub open spec fn next(self, e: BuildEvent) -> BuildState {
        match self {
            BuildState::Failed { .. } => self,
            BuildState::Collecting { image_id } => match e {
                BuildEvent::Info => self,
                BuildEvent::Failed { message } => BuildState::Failed {
                    error: BuildError::Transport { message },
                },
                BuildEvent::ImageProduced { id } => if id@.len() == 0 {
                    self
                } else {
                    match image_id {
                        None => BuildState::Collecting { image_id: Some(id) },
                        Some(prev) => if prev@ == id@ {
                            self
                        } else {
                            BuildState::Failed {
                                error: BuildError::MultipleImageIds { first: prev, second: id },
                            }
                        },
                    }
                },
            },
        }
    }

    /// The result of a build whose stream closed in this state.
    pub open spec fn outcome(self) -> Result<String, BuildError> {
        match self {
            BuildState::Collecting { image_id: None } => Err(BuildError::NoImageId),
            BuildState::Collecting { image_id: Some(id) } => Ok(id),
            BuildState::Failed { error } => Err(error),
        }
    }

    /// The state before any event.
    pub fn new() -> (r: BuildState)
        ensures
            r == (BuildState::Collecting { image_id: None }),
    {
        BuildState::Collecting { image_id: None }
    }

    /// Takes one event of the stream into account.
    pub fn observe(self, e: BuildEvent) -> (r: BuildState)
        ensures
            r == self.next(e),
    {
        match self {
            BuildState::Failed { error } => BuildState::Failed { error },
            BuildState::Collecting { image_id } => match e {
                BuildEvent::Info => BuildState::Collecting { image_id },
                BuildEvent::Failed { message } => BuildState::Failed {
                    error: BuildError::Transport { message },
                },
                BuildEvent::ImageProduced { id } => if id.as_str().is_empty() {
                    BuildState::Collecting { image_id }
                } else {
                    match image_id {
                        None => BuildState::Collecting { image_id: Some(id) },
                        Some(prev) => if prev == id {
                            BuildState::Collecting { image_id: Some(prev) }
                        } else {
                            BuildState::Failed {
                                error: BuildError::MultipleImageIds { first: prev, second: id },
                            }
                        },
                    }
                },
            },
        }
    }

    /// Whether reading can stop: a failed build stays failed.
    pub fn is_failed(&self) -> (r: bool)
        ensures
            r == self is Failed,
    {
        matches!(self, BuildState::Failed { .. })
    }

    /// The result of the build once its stream has closed.
    pub fn finish(self) -> (r: Result<String, BuildError>)
        ensures
            r == self.outcome(),
    {
        match self {
            BuildState::Collecting { image_id: None } => Err(BuildError::NoImageId),
            BuildState::Collecting { image_id: Some(id) } => Ok(id),
            BuildState::Failed { error } => Err(error),
        }
    }
}

/// The state after reading all of `events` from the start.
pub open spec fn state_after(events: Seq<BuildEvent>) -> BuildState
    decreases events.len(),
{
    if events.len() == 0 {
        BuildState::Collecting { image_id: None }
    } else {
        state_after(events.drop_last()).next(events.last())
    }
}

/// The result of a build whose stream held `events`.
pub open spec fn build_outcome(events: Seq<BuildEvent>) -> Result<String, BuildError> {
    state_after(events).outcome()
}

proof fn lemma_state_after(events: Seq<BuildEvent>)
    ensures
        match state_after(events) {
            BuildState::Collecting { image_id: None } => no_failure(events) && !names_an_image(
                events,
            ),
            BuildState::Collecting { image_id: Some(id) } => {
                &&& no_failure(events)
                &&& id@.len() > 0
                &&& names_an_image(events)
                &&& all_ids_are(events, id@)
            },
            BuildState::Failed { error } => match error {
                BuildError::Transport { .. } => !no_failure(events),
                BuildError::MultipleImageIds { first, second } => {
                    &&& first@ != second@
                    &&& exists|i: int|
                        0 <= i < events.len() && #[trigger] id_of(events[i]) == Some(first@)
                    &&& exists|j: int|
                        0 <= j < events.len() && #[trigger] id_of(events[j]) == Some(second@)
                },
                BuildError::NoImageId => false,
            },
        },
    decreases events.len(),
{
    if events.len() > 0 {
        let prefix = events.drop_last();
        let n = prefix.len() as int;
        let e = events.last();
        lemma_state_after(prefix);
        assert(forall|i: int| 0 <= i < n ==> prefix[i] == events[i]);
        assert(events[n] == e);
        if id_of(e) is Some {
            assert(id_of(events[n]) == id_of(e));
        }
        match state_after(prefix) {
            BuildState::Collecting { image_id: None } => {
                if names_an_image(events) {
                    let i = choose|i: int| 0 <= i < events.len() && (#[trigger] id_of(events[i])) is Some;
                    assert(i == n);
                }
            },
            BuildState::Collecting { image_id: Some(id) } => {
                let i0 = choose|i: int| 0 <= i < prefix.len() && (#[trigger] id_of(prefix[i])) is Some;
                assert(id_of(events[i0]) is Some);
            },
            BuildState::Failed { error } => {
                match error {
                    BuildError::MultipleImageIds { first, second } => {
                        let i = choose|i: int| 0 <= i < prefix.len() && #[trigger] id_of(prefix[i]) == Some(first@);
                        let j = choose|j: int| 0 <= j < prefix.len() && #[trigger] id_of(prefix[j]) == Some(second@);
                        assert(id_of(events[i]) == Some(first@));
                        assert(id_of(events[j]) == Some(second@));
                    },
                    BuildError::Transport { .. } => {
                        let i = choose|i: int| 0 <= i < prefix.len() && #[trigger] prefix[i] is Failed;
                        assert(events[i] is Failed);
                    },
                    _ => {},
                }
            },
        }
        match state_after(prefix) {
            BuildState::Collecting { image_id: Some(id) } => {
                let i0 = choose|i: int| 0 <= i < prefix.len() && (#[trigger] id_of(prefix[i])) is Some;
                assert(id_of(prefix[i0]) == Some(id@));
                assert(id_of(events[i0]) == Some(id@));
            },
            _ => {},
        }
    }
}

proof fn lemma_failed_stays(events: Seq<BuildEvent>, k: int)
    requires
        0 <= k <= events.len(),
        state_after(events.take(k)) is Failed,
    ensures
        state_after(events) == state_after(events.take(k)),
    decreases events.len() - k,
{
    if k < events.len() {
        let longer = events.take(k + 1);
        assert(longer.drop_last() =~= events.take(k));
        lemma_failed_stays(events, k + 1);
    } else {
        assert(events.take(k) =~= events);
    }
}

/// A build succeeds exactly when its stream had no transport failure and
/// named one image, possibly several times; the id it returns is that
/// image's, and it is never empty.
pub proof fn law_build_succeeds_with_one_image(events: Seq<BuildEvent>)
    ensures
        build_outcome(events) is Ok <==> (no_failure(events) && names_an_image(events) && exists|
            id: Seq<char>,
        | all_ids_are(events, id)),
        build_outcome(events) is Ok ==> {
            let id = build_outcome(events)->Ok_0@;
            &&& id.len() > 0
            &&& names_an_image(events)
            &&& all_ids_are(events, id)
        },
{
    lemma_state_after(events);
    if no_failure(events) && names_an_image(events) && exists|id: Seq<char>|
        all_ids_are(events, id) {
        let id = choose|id: Seq<char>| all_ids_are(events, id);
        match state_after(events) {
            BuildState::Failed { error } => match error {
                BuildError::MultipleImageIds { first, second } => {
                    let i = choose|i: int|
                        0 <= i < events.len() && #[trigger] id_of(events[i]) == Some(first@);
                    let j = choose|j: int|
                        0 <= j < events.len() && #[trigger] id_of(events[j]) == Some(second@);
                    assert(id_of(events[i]) == Some(id));
                    assert(id_of(events[j]) == Some(id));
                },
                _ => {},
            },
            _ => {},
        }
    }
    if build_outcome(events) is Ok {
        match state_after(events) {
            BuildState::Collecting { image_id: Some(id) } => {
                assert(all_ids_are(events, id@));
            },
            _ => {},
        }
    }
}

/// A stream that names two different images fails with
/// `MultipleImageIds`, unless a transport failure came first.
pub proof fn law_two_ids_fail(events: Seq<BuildEvent>, i: int, j: int)
    requires
        0 <= i < j < events.len(),
        id_of(events[i]) is Some,
        id_of(events[j]) is Some,
        id_of(events[i]) != id_of(events[j]),
        forall|k: int| 0 <= k < j ==> !(#[trigger] events[k] is Failed),
    ensures
        build_outcome(events) is Err,
        build_outcome(events)->Err_0 is MultipleImageIds,
{
    let p = events.take(j + 1);
    assert(forall|k: int| 0 <= k <= j ==> p[k] == events[k]);
    assert(!(p[j] is Failed));
    assert(no_failure(p));
    lemma_state_after(p);
    match state_after(p) {
        BuildState::Collecting { image_id: None } => {
            assert(id_of(p[i]) is Some);
        },
        BuildState::Collecting { image_id: Some(id) } => {
            assert(id_of(p[i]) is Some);
            assert(id_of(p[j]) is Some);
        },
        _ => {},
    }
    lemma_failed_stays(events, j + 1);
}

/// A stream without transport failures that names no image fails with
/// `NoImageId`.
pub proof fn law_no_id_fails(events: Seq<BuildEvent>)
    requires
        no_failure(events),
        !names_an_image(events),
    ensures
        build_outcome(events) is Err,
        build_outcome(events)->Err_0 is NoImageId,
{
    lemma_state_after(events);
    match state_after(events) {
        BuildState::Failed { error } => match error {
            BuildError::MultipleImageIds { first, .. } => {
                let i = choose|i: int|
                    0 <= i < events.len() && #[trigger] id_of(events[i]) == Some(first@);
                assert(id_of(events[i]) is Some);
            },
            _ => {},
        },
        _ => {},
    }
}

} // verus!
