//! What a load does over time, whatever its driver answers.
//!
//! A run is a load together with the responses that it was given, oldest
//! first. The laws here hold of every run: they assume nothing of the disk,
//! the remote or the observer.

use vstd::prelude::*;
use crate::channel::LoadOptionsEventView;
use crate::dataset::pipeline::{ActionView, PipelineView, ResponseView, Stage};

verus! {

/// The state of the load that began in `start`, after `responses`.
pub open spec fn after(start: PipelineView, responses: Seq<ResponseView>) -> PipelineView
    decreases responses.len(),
{
    if responses.len() == 0 {
        start
    } else {
        after(start, responses.drop_last()).advance(responses.last())
    }
}

/// The events that the observer has seen, in the order in which they were
/// sent: those that the load asked to send and that were sent.
pub open spec fn observed(start: PipelineView, responses: Seq<ResponseView>) -> Seq<
    LoadOptionsEventView,
>
    decreases responses.len(),
{
    if responses.len() == 0 {
        Seq::empty()
    } else {
        let earlier = observed(start, responses.drop_last());
        match after(start, responses.drop_last()).pending() {
            ActionView::Emit { event } => if responses.last() is Succeeded {
                earlier.push(event)
            } else {
                earlier
            },
            _ => earlier,
        }
    }
}

/// The events of a load that found its store under the reference.
pub open spec fn served_from_cache(reference: Seq<char>) -> Seq<LoadOptionsEventView> {
    seq![
        LoadOptionsEventView::Started,
        LoadOptionsEventView::Completed { identifier: reference },
    ]
}

/// The events of a load that resolved its reference and found the store
/// under the identifier.
pub open spec fn served_after_clone(identifier: Seq<char>) -> Seq<LoadOptionsEventView> {
    seq![
        LoadOptionsEventView::Started,
        LoadOptionsEventView::Cloning,
        LoadOptionsEventView::Completed { identifier },
    ]
}

/// The events of a load that built the store.
pub open spec fn served_after_load(identifier: Seq<char>) -> Seq<LoadOptionsEventView> {
    seq![
        LoadOptionsEventView::Started,
        LoadOptionsEventView::Cloning,
        LoadOptionsEventView::Loading,
        LoadOptionsEventView::Completed { identifier },
    ]
}

/// Whether `events` can be what the observer of a load of `reference` has
/// seen so far, where `identifier` is what the reference resolved to: the
/// beginning of one of the three full sequences.
pub open spec fn in_order(
    events: Seq<LoadOptionsEventView>,
    reference: Seq<char>,
    identifier: Seq<char>,
) -> bool {
    ||| events.is_prefix_of(served_from_cache(reference))
    ||| events.is_prefix_of(served_after_clone(identifier))
    ||| events.is_prefix_of(served_after_load(identifier))
}

/// Whether `events` is one of the three full sequences that end in
/// `Completed` with `identifier`.
pub open spec fn complete(
    events: Seq<LoadOptionsEventView>,
    reference: Seq<char>,
    identifier: Seq<char>,
) -> bool {
    ||| identifier == reference && events == served_from_cache(reference)
    ||| events == served_after_clone(identifier)
    ||| events == served_after_load(identifier)
}

/// Whether `events` holds a `Completed`.
pub open spec fn has_completed(events: Seq<LoadOptionsEventView>) -> bool {
    exists|i: int| 0 <= i < events.len() && #[trigger] events[i] is Completed
}

spec fn so_far(count: int) -> Seq<LoadOptionsEventView> {
    seq![
        LoadOptionsEventView::Started,
        LoadOptionsEventView::Cloning,
        LoadOptionsEventView::Loading,
    ].take(count)
}

/// What holds of a load and of the events seen so far, at each stage.
spec fn on_track(state: PipelineView, events: Seq<LoadOptionsEventView>) -> bool {
    match state.stage {
        Stage::AnnouncingStart => events == so_far(0) && state.resolved is None
            && state.verdict is None,
        Stage::EnsuringCacheDir | Stage::FastLookup | Stage::AnnouncingClone => events == so_far(1)
            && state.resolved is None && state.verdict is None,
        Stage::Resolving => events == so_far(2) && state.resolved is None
            && state.verdict is None,
        Stage::CheckingOut | Stage::CanonicalLookup | Stage::AnnouncingLoad => events == so_far(2)
            && state.resolved is Some && state.verdict is None,
        Stage::Listing | Stage::CreatingStore | Stage::Applying | Stage::Publishing => events
            == so_far(3) && state.resolved is Some && state.verdict is None,
        Stage::RemovingStaging => events == so_far(3) && state.resolved is Some,
        Stage::Discarding => (events == so_far(2) || events == so_far(3)) && (state.verdict is None
            ==> state.resolved is Some),
        Stage::AnnouncingCompletion => state.verdict is None && if state.resolved is None {
            events == so_far(1)
        } else {
            events == so_far(2) || events == so_far(3)
        },
        Stage::Finished => if state.verdict is None {
            if state.resolved is None {
                events == served_from_cache(state.reference)
            } else {
                events == served_after_clone(state.served()) || events == served_after_load(
                    state.served(),
                )
            }
        } else {
            exists|count: int| 0 <= count <= 3 && events == so_far(count)
        },
    }
}

proof fn lemma_so_far()
    ensures
        so_far(0) =~= Seq::empty(),
        so_far(1) =~= seq![LoadOptionsEventView::Started],
        so_far(2) =~= seq![LoadOptionsEventView::Started, LoadOptionsEventView::Cloning],
        so_far(3) =~= seq![
            LoadOptionsEventView::Started,
            LoadOptionsEventView::Cloning,
            LoadOptionsEventView::Loading,
        ],
{
}

proof fn lemma_stays_on_track(
    state: PipelineView,
    events: Seq<LoadOptionsEventView>,
    response: ResponseView,
)
    requires
        on_track(state, events),
    ensures
        on_track(
            state.advance(response),
            match state.pending() {
                ActionView::Emit { event } => if response is Succeeded {
                    events.push(event)
                } else {
                    events
                },
                _ => events,
            },
        ),
        state.advance(response).reference == state.reference,
{
    lemma_so_far();
    let next = state.advance(response);
    match state.stage {
        Stage::AnnouncingStart => {
            if response is Succeeded {
                assert(events.push(LoadOptionsEventView::Started) =~= so_far(1));
            } else {
                assert(events == so_far(0));
            }
        },
        Stage::AnnouncingClone => {
            if response is Succeeded {
                assert(events.push(LoadOptionsEventView::Cloning) =~= so_far(2));
            } else {
                assert(events == so_far(1));
            }
        },
        Stage::AnnouncingLoad => {
            if response is Succeeded {
                assert(events.push(LoadOptionsEventView::Loading) =~= so_far(3));
            }
        },
        Stage::AnnouncingCompletion => {
            let done = LoadOptionsEventView::Completed { identifier: state.served() };
            if response is Succeeded {
                if state.resolved is None {
                    assert(events.push(done) =~= served_from_cache(state.reference));
                } else if events == so_far(2) {
                    assert(events.push(done) =~= served_after_clone(state.served()));
                } else {
                    assert(events.push(done) =~= served_after_load(state.served()));
                }
            } else {
                assert(events == so_far(1) || events == so_far(2) || events == so_far(3));
            }
        },
        Stage::EnsuringCacheDir => {
            assert(events == so_far(1));
        },
        Stage::Discarding => {
            assert(events == so_far(2) || events == so_far(3));
        },
        _ => {},
    }
}

proof fn lemma_run_on_track(start: PipelineView, responses: Seq<ResponseView>)
    requires
        on_track(start, Seq::empty()),
    ensures
        on_track(after(start, responses), observed(start, responses)),
        after(start, responses).reference == start.reference,
    decreases responses.len(),
{
    if responses.len() > 0 {
        lemma_run_on_track(start, responses.drop_last());
        lemma_stays_on_track(
            after(start, responses.drop_last()),
            observed(start, responses.drop_last()),
            responses.last(),
        );
    } else {
        lemma_so_far();
    }
}

/// The observer of a load sees `Started`, then `Cloning` if the remote is
/// asked, then `Loading` if a store is built, then `Completed`: never another
/// order, never one of them twice. `Completed` is seen exactly when the load
/// has ended well, it is then the last event, and it names the identifier
/// that the outcome names.
pub proof fn events_come_in_order(
    cache_dir: Seq<char>,
    reference: Seq<char>,
    tag: Seq<char>,
    extension: Seq<char>,
    responses: Seq<ResponseView>,
)
    ensures
        ({
            let start = PipelineView::start(cache_dir, reference, tag, extension);
            let end = after(start, responses);
            let events = observed(start, responses);
            &&& in_order(events, reference, end.served())
            &&& has_completed(events) <==> end.stage == Stage::Finished && end.outcome() is Ok
            &&& has_completed(events) ==> complete(events, reference, end.outcome()->Ok_0)
        }),
{
    let start = PipelineView::start(cache_dir, reference, tag, extension);
    let end = after(start, responses);
    let events = observed(start, responses);
    lemma_so_far();
    lemma_run_on_track(start, responses);
    let from_cache = served_from_cache(reference);
    let after_clone = served_after_clone(end.served());
    let after_load = served_after_load(end.served());
    assert(so_far(0) =~= after_load.subrange(0, 0));
    assert(so_far(1) =~= after_load.subrange(0, 1));
    assert(so_far(2) =~= after_load.subrange(0, 2));
    assert(so_far(3) =~= after_load.subrange(0, 3));
    assert(from_cache =~= from_cache.subrange(0, 2));
    assert(after_clone =~= after_clone.subrange(0, 3));
    assert(after_load =~= after_load.subrange(0, 4));
    if end.stage == Stage::Finished && end.verdict is None {
        if end.resolved is None {
            assert(events[1] is Completed);
        } else {
            assert(events[2] is Completed || events[3] is Completed);
        }
    } else {
        let count = choose|count: int| 0 <= count <= 3 && events == so_far(count);
        assert(events == so_far(count));
        assert(!has_completed(events));
    }
}

/// The most responses that a load can have been given when it stands at
/// `state`.
spec fn at_most(state: PipelineView) -> nat {
    match state.stage {
        Stage::AnnouncingStart => 0,
        Stage::EnsuringCacheDir => 1,
        Stage::FastLookup => 2,
        Stage::AnnouncingClone => 3,
        Stage::Resolving => 4,
        Stage::CheckingOut => 5,
        Stage::CanonicalLookup => 6,
        Stage::AnnouncingLoad => 7,
        Stage::Listing => 8,
        Stage::CreatingStore => 9,
        Stage::Applying => 10 + state.position,
        Stage::Publishing => 10 + state.plan.len(),
        Stage::RemovingStaging => 11 + state.plan.len(),
        Stage::Discarding => 12 + state.plan.len(),
        Stage::AnnouncingCompletion => 13 + state.plan.len(),
        Stage::Finished => 14 + state.plan.len(),
    }
}

proof fn lemma_run_is_short(start: PipelineView, responses: Seq<ResponseView>)
    requires
        start.stage == Stage::AnnouncingStart,
        start.plan.len() == 0,
    ensures
        ({
            let end = after(start, responses);
            &&& end.well_formed()
            &&& end.stage != Stage::Finished ==> responses.len() <= at_most(end)
        }),
    decreases responses.len(),
{
    if responses.len() > 0 {
        lemma_run_is_short(start, responses.drop_last());
    }
}

/// Every load ends: after fourteen responses and one more for each
/// definition file, at the latest, nothing is left to do.
pub proof fn every_load_ends(
    cache_dir: Seq<char>,
    reference: Seq<char>,
    tag: Seq<char>,
    extension: Seq<char>,
    responses: Seq<ResponseView>,
)
    ensures
        ({
            let end = after(
                PipelineView::start(cache_dir, reference, tag, extension),
                responses,
            );
            responses.len() >= 14 + end.plan.len() ==> end.stage == Stage::Finished
        }),
{
    lemma_run_is_short(PipelineView::start(cache_dir, reference, tag, extension), responses);
}

} // verus!
