//! What no load ever does, whatever fails around it.
//!
//! The laws here hold of every run in every model world: with a remote that
//! is down, files that cannot be applied, an observer that has gone.

use vstd::prelude::*;
use crate::dataset::ingest::plan_of;
use crate::dataset::runs::files_at;
use crate::dataset::pipeline::{resolution, LoadErrorView, PipelineView, Stage};
use crate::dataset::store::{staging_is_never_a_store, store_path};
use crate::dataset::world::{run, step, World};

verus! {

/// Whether `path` is the path of a store in some cache.
pub open spec fn is_store(path: Seq<char>) -> bool {
    exists|cache_dir: Seq<char>, key: Seq<char>| path == #[trigger] store_path(cache_dir, key)
}

/// Whether a load at `stage` has yet to resolve its reference.
spec fn is_early(stage: Stage) -> bool {
    stage == Stage::AnnouncingStart || stage == Stage::EnsuringCacheDir || stage
        == Stage::FastLookup || stage == Stage::AnnouncingClone || stage == Stage::Resolving
}

/// Whether a load at `stage` has its workspace checked out.
spec fn has_checkout(stage: Stage) -> bool {
    stage == Stage::CanonicalLookup || stage == Stage::AnnouncingLoad || stage == Stage::Listing
}

/// Whether a load at `stage` has a plan.
spec fn has_plan(stage: Stage) -> bool {
    stage == Stage::CreatingStore || stage == Stage::Applying || stage == Stage::Publishing
}

/// Whether a load at `stage` is past the making of its store.
spec fn is_settled(stage: Stage) -> bool {
    stage == Stage::RemovingStaging || stage == Stage::Discarding || stage
        == Stage::AnnouncingCompletion || stage == Stage::Finished
}

/// What holds of a load and its world at every step, where `base` is the
/// world in which the load began.
spec fn sound(base: World, world: World, load: PipelineView) -> bool {
    &&& load.well_formed()
    &&& world.history == base.history
    &&& world.trees == base.trees
    &&& world.remote_up == base.remote_up
    &&& load.resolved matches Some(identifier) ==> base.remote_up && resolution(
        base.candidates(load.reference),
    ) == Ok::<Seq<char>, LoadErrorView>(identifier)
    &&& is_early(load.stage) ==> load.resolved is None
    &&& load.stage == Stage::CheckingOut ==> load.resolved is Some
    &&& has_checkout(load.stage) ==> load.resolved is Some && world.workspaces.contains_key(
        load.tag,
    ) && world.workspaces[load.tag] == Some(load.served())
    &&& has_plan(load.stage) ==> load.resolved is Some && load.plan == plan_of(
        files_at(base, load.served()),
        load.extension,
    )
    &&& load.stage == Stage::Applying ==> world.stores.contains_key(load.staging())
        && world.stores[load.staging()] == load.plan.take(load.position as int)
    &&& load.stage == Stage::Publishing ==> world.stores.contains_key(load.staging())
        && world.stores[load.staging()] == load.plan
    &&& is_settled(load.stage) && load.verdict is None ==> world.stores.contains_key(
        load.destination(),
    )
    &&& !base.workspaces.contains_key(load.tag) && (is_early(load.stage) || load.stage
        == Stage::AnnouncingCompletion || load.stage == Stage::Finished)
        ==> !world.workspaces.contains_key(load.tag)
    &&& forall|path: Seq<char>|
        is_store(path) && #[trigger] base.stores.contains_key(path) ==> world.stores.contains_key(
            path,
        ) && world.stores[path] == base.stores[path]
    &&& forall|path: Seq<char>|
        is_store(path) && #[trigger] world.stores.contains_key(path) ==> base.stores.contains_key(
            path,
        ) || (is_settled(load.stage) && load.resolved is Some && path == load.destination()
            && world.stores[path] == plan_of(files_at(base, load.served()), load.extension))
}

proof fn lemma_step_is_sound(base: World, world: World, load: PipelineView)
    requires
        sound(base, world, load),
    ensures
        sound(base, step(world, load).0, step(world, load).1),
{
    let (next, moved) = step(world, load);
    let staging = load.staging();
    assert(!is_store(staging)) by {
        assert forall|cache_dir: Seq<char>, key: Seq<char>| staging != #[trigger] store_path(
            cache_dir,
            key,
        ) by {
            staging_is_never_a_store(load.cache_dir, load.served(), load.tag, cache_dir, key);
        }
    }
    assert(is_store(load.destination()));
    match load.stage {
        Stage::Resolving => {
            assert(moved.resolved matches Some(identifier) ==> resolution(
                base.candidates(load.reference),
            ) == Ok::<Seq<char>, LoadErrorView>(identifier));
        },
        Stage::FastLookup => {
            assert(is_store(load.destination()));
        },
        Stage::Listing => {
            assert(world.listing(load.tag) == files_at(base, load.served()));
        },
        Stage::CreatingStore => {
            assert(load.plan.take(0) =~= Seq::empty());
            if load.plan.len() == 0 {
                assert(load.plan =~= Seq::empty());
            }
        },
        Stage::Applying => {
            let at = load.position as int;
            assert(load.plan.take(at).push(load.plan[at]) =~= load.plan.take(at + 1));
            assert(load.plan.take(load.plan.len() as int) =~= load.plan);
        },
        Stage::Publishing => {
            assert(is_store(load.destination()));
        },
        _ => {},
    }
}

proof fn lemma_run_is_sound(base: World, world: World, load: PipelineView, steps: nat)
    requires
        sound(base, world, load),
    ensures
        sound(base, run(world, load, steps).0, run(world, load, steps).1),
        run(world, load, steps).1.reference == load.reference,
        run(world, load, steps).1.cache_dir == load.cache_dir,
        run(world, load, steps).1.extension == load.extension,
        run(world, load, steps).1.tag == load.tag,
    decreases steps,
{
    if steps > 0 {
        lemma_step_is_sound(base, world, load);
        lemma_run_is_sound(base, step(world, load).0, step(world, load).1, (steps - 1) as nat);
    }
}

/// In one remote history a reference resolves to one identifier: two loads of
/// the same reference, in whatever state the cache, the disk or the observer
/// are, never resolve it to different identifiers.
pub proof fn same_history_same_identifier(
    first: World,
    second: World,
    reference: Seq<char>,
    here: PipelineView,
    there: PipelineView,
    steps: nat,
    more: nat,
)
    requires
        first.history == second.history,
        here == PipelineView::start(here.cache_dir, reference, here.tag, here.extension),
        there == PipelineView::start(there.cache_dir, reference, there.tag, there.extension),
    ensures
        ({
            let one = run(first, here, steps).1;
            let other = run(second, there, more).1;
            one.resolved is Some && other.resolved is Some ==> one.resolved == other.resolved
        }),
{
    lemma_run_is_sound(first, first, here, steps);
    lemma_run_is_sound(second, second, there, more);
}

/// A load that ends well leaves its store in the cache: when the observer is
/// told `Completed`, a store lies under the identifier that it is told.
pub proof fn served_identifier_has_its_store(
    world: World,
    cache_dir: Seq<char>,
    reference: Seq<char>,
    tag: Seq<char>,
    extension: Seq<char>,
    steps: nat,
)
    ensures
        ({
            let (after, end) = run(
                world,
                PipelineView::start(cache_dir, reference, tag, extension),
                steps,
            );
            end.stage == Stage::Finished && end.outcome() is Ok ==> after.stores.contains_key(
                store_path(cache_dir, end.outcome()->Ok_0),
            )
        }),
{
    let start = PipelineView::start(cache_dir, reference, tag, extension);
    lemma_run_is_sound(world, world, start, steps);
}

/// Stores come into the cache whole or not at all. Whatever fails, and
/// whenever the run is looked at: every store that the cache held stays as it
/// was, and a store that the cache did not hold before lies under the
/// identifier that the reference resolved to, and holds every definition
/// file of the repository at that identifier, in walk order.
pub proof fn stores_are_published_whole(
    world: World,
    cache_dir: Seq<char>,
    reference: Seq<char>,
    tag: Seq<char>,
    extension: Seq<char>,
    steps: nat,
    key: Seq<char>,
)
    ensures
        ({
            let (after, end) = run(
                world,
                PipelineView::start(cache_dir, reference, tag, extension),
                steps,
            );
            let path = store_path(cache_dir, key);
            &&& world.stores.contains_key(path) ==> after.stores.contains_key(path)
                && after.stores[path] == world.stores[path]
            &&& after.stores.contains_key(path) && !world.stores.contains_key(path) ==> {
                &&& resolution(world.candidates(reference)) == Ok::<Seq<char>, LoadErrorView>(key)
                &&& after.stores[path] == plan_of(files_at(world, key), extension)
            }
        }),
{
    let start = PipelineView::start(cache_dir, reference, tag, extension);
    lemma_run_is_sound(world, world, start, steps);
    let (after, end) = run(world, start, steps);
    let path = store_path(cache_dir, key);
    assert(is_store(path));
    if after.stores.contains_key(path) && !world.stores.contains_key(path) {
        crate::dataset::store::store_paths_are_distinct(cache_dir, key, end.served());
    }
}

/// No load leaves its workspace behind: however the load ends, its workspace
/// is gone when it has ended.
pub proof fn workspace_is_always_discarded(
    world: World,
    cache_dir: Seq<char>,
    reference: Seq<char>,
    tag: Seq<char>,
    extension: Seq<char>,
    steps: nat,
)
    requires
        !world.workspaces.contains_key(tag),
    ensures
        ({
            let (after, end) = run(
                world,
                PipelineView::start(cache_dir, reference, tag, extension),
                steps,
            );
            end.stage == Stage::Finished ==> !after.workspaces.contains_key(tag)
        }),
{
    let start = PipelineView::start(cache_dir, reference, tag, extension);
    lemma_run_is_sound(world, world, start, steps);
}

} // verus!
