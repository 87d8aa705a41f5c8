//! Two loads at once.
//!
//! The loads share the world and nothing else. They take turns in any order:
//! each turn is one action of one of them.

use vstd::prelude::*;
use crate::dataset::ingest::plan_of;
use crate::dataset::runs::{files_at, in_dependency_order, is_in_place, ready_for};
use crate::dataset::pipeline::{resolution, LoadErrorView, PipelineView, Stage};
use crate::dataset::store::{
    staging_is_never_a_store, staging_path_of, staging_paths_are_distinct, store_path,
    store_paths_are_distinct,
};
use crate::dataset::world::{step, World};

verus! {

/// The world and the two loads after `turns`: in each turn the first load
/// acts where the turn is `true`, the second where it is `false`.
pub open spec fn race(world: World, first: PipelineView, second: PipelineView, turns: Seq<bool>) -> (
    World,
    PipelineView,
    PipelineView,
)
    decreases turns.len(),
{
    if turns.len() == 0 {
        (world, first, second)
    } else {
        let (before, one, other) = race(world, first, second, turns.drop_last());
        if turns.last() {
            let (after, moved) = step(before, one);
            (after, moved, other)
        } else {
            let (after, moved) = step(before, other);
            (after, one, moved)
        }
    }
}

/// What two racing loads of one identifier are about.
struct Course {
    base: World,
    cache_dir: Seq<char>,
    extension: Seq<char>,
    identifier: Seq<char>,
    one: Seq<char>,
    other: Seq<char>,
}

impl Course {
    spec fn plan(self) -> Seq<Seq<char>> {
        plan_of(files_at(self.base, self.identifier), self.extension)
    }

    spec fn destination(self) -> Seq<char> {
        store_path(self.cache_dir, self.identifier)
    }

    spec fn staging(self, tag: Seq<char>) -> Seq<char> {
        staging_path_of(self.cache_dir, self.identifier, tag)
    }

    /// What holds of the world that the loads share.
    spec fn shared(self, world: World) -> bool {
        &&& world.channel_open
        &&& world.directory_ok
        &&& world.remote_up
        &&& world.history == self.base.history
        &&& world.trees == self.base.trees
        &&& world.needs == self.base.needs
        &&& in_dependency_order(self.plan(), world.needs)
        &&& !self.base.stores.contains_key(self.destination())
        &&& !self.base.stores.contains_key(self.staging(self.one))
        &&& !self.base.stores.contains_key(self.staging(self.other))
        &&& forall|path: Seq<char>|
            path != self.destination() && path != self.staging(self.one) && path != self.staging(
                self.other,
            ) ==> (#[trigger] world.stores.contains_key(path) <==> self.base.stores.contains_key(
                path,
            ))
        &&& forall|path: Seq<char>|
            path != self.destination() && path != self.staging(self.one) && path != self.staging(
                self.other,
            ) && #[trigger] world.stores.contains_key(path) ==> world.stores[path]
                == self.base.stores[path]
        &&& world.stores.contains_key(self.destination()) ==> world.stores[self.destination()]
            == self.plan()
        &&& world.published == self.base.published + if world.stores.contains_key(
            self.destination(),
        ) {
            1nat
        } else {
            0nat
        }
    }

    /// What holds of each load, at each stage.
    spec fn on_course(self, world: World, load: PipelineView) -> bool {
        let staging = self.staging(load.tag);
        let early = load.stage == Stage::AnnouncingStart || load.stage == Stage::EnsuringCacheDir
            || load.stage == Stage::FastLookup || load.stage == Stage::AnnouncingClone
            || load.stage == Stage::Resolving;
        let served = load.stage == Stage::AnnouncingCompletion || load.stage == Stage::Finished;
        let checked_out = load.stage == Stage::CanonicalLookup || load.stage
            == Stage::AnnouncingLoad || load.stage == Stage::Listing;
        let planned = load.stage == Stage::CreatingStore || load.stage == Stage::Applying
            || load.stage == Stage::Publishing;
        let writing = load.stage == Stage::Applying || load.stage == Stage::Publishing;
        let done = load.stage == Stage::RemovingStaging || load.stage == Stage::Discarding
            || served;
        &&& load.well_formed()
        &&& load.verdict is None
        &&& load.cache_dir == self.cache_dir
        &&& load.extension == self.extension
        &&& load.tag == self.one || load.tag == self.other
        &&& resolution(self.base.candidates(load.reference)) == Ok::<Seq<char>, LoadErrorView>(
            self.identifier,
        )
        &&& !self.base.stores.contains_key(store_path(self.cache_dir, load.reference))
        &&& early ==> load.resolved is None
        &&& !early && !served ==> load.resolved == Some(self.identifier)
        &&& served ==> load.served() == self.identifier
        &&& checked_out ==> world.workspaces.contains_key(load.tag) && world.workspaces[load.tag]
            == Some(self.identifier)
        &&& planned ==> load.plan == self.plan()
        &&& load.stage == Stage::Applying ==> world.stores.contains_key(staging)
            && world.stores[staging] == self.plan().take(load.position as int)
        &&& load.stage == Stage::Publishing ==> world.stores.contains_key(staging)
            && world.stores[staging] == self.plan()
        &&& !writing && load.stage != Stage::RemovingStaging ==> !world.stores.contains_key(
            staging,
        )
        &&& done ==> world.stores.contains_key(self.destination())
    }
}

proof fn lemma_places_differ(course: Course)
    requires
        course.one != course.other,
    ensures
        course.staging(course.one) != course.staging(course.other),
        course.staging(course.one) != course.destination(),
        course.staging(course.other) != course.destination(),
{
    staging_paths_are_distinct(course.cache_dir, course.identifier, course.one, course.other);
    staging_is_never_a_store(
        course.cache_dir,
        course.identifier,
        course.one,
        course.cache_dir,
        course.identifier,
    );
    staging_is_never_a_store(
        course.cache_dir,
        course.identifier,
        course.other,
        course.cache_dir,
        course.identifier,
    );
}

proof fn lemma_turn_keeps_course(
    course: Course,
    world: World,
    load: PipelineView,
    rival: PipelineView,
)
    requires
        course.one != course.other,
        load.tag != rival.tag,
        course.shared(world),
        course.on_course(world, load),
        course.on_course(world, rival),
    ensures
        course.shared(step(world, load).0),
        course.on_course(step(world, load).0, step(world, load).1),
        course.on_course(step(world, load).0, rival),
        step(world, load).1.tag == load.tag,
        step(world, load).1.reference == load.reference,
{
    lemma_places_differ(course);
    let (next, moved) = step(world, load);
    let staging = course.staging(load.tag);
    let destination = course.destination();
    let plan = course.plan();
    assert(load.resolved is Some ==> load.staging() == staging && load.destination()
        == destination);
    assert forall|key: Seq<char>| staging != #[trigger] store_path(course.cache_dir, key) by {
        staging_is_never_a_store(
            course.cache_dir,
            course.identifier,
            load.tag,
            course.cache_dir,
            key,
        );
    }
    assert forall|key: Seq<char>|
        course.staging(rival.tag) != #[trigger] store_path(course.cache_dir, key) by {
        staging_is_never_a_store(
            course.cache_dir,
            course.identifier,
            rival.tag,
            course.cache_dir,
            key,
        );
    }
    match load.stage {
        Stage::FastLookup => {
            let looked = store_path(course.cache_dir, load.reference);
            if world.stores.contains_key(looked) {
                assert(looked == destination);
                store_paths_are_distinct(course.cache_dir, load.reference, course.identifier);
            }
        },
        Stage::Listing => {
            assert(world.listing(load.tag) == files_at(course.base, course.identifier));
        },
        Stage::CreatingStore => {
            assert(plan.take(0) =~= Seq::empty());
            if plan.len() == 0 {
                assert(plan =~= Seq::empty());
            }
        },
        Stage::Applying => {
            let at = load.position as int;
            let file = plan[at];
            assert(is_in_place(plan, world.needs, at));
            assert(world.takes(staging, file));
            assert(plan.take(at).push(file) =~= plan.take(at + 1));
            assert(plan.take(plan.len() as int) =~= plan);
        },
        _ => {},
    }
}

proof fn lemma_race_keeps_course(
    course: Course,
    world: World,
    first: PipelineView,
    second: PipelineView,
    turns: Seq<bool>,
)
    requires
        course.one != course.other,
        first.tag == course.one,
        second.tag == course.other,
        course.shared(world),
        course.on_course(world, first),
        course.on_course(world, second),
    ensures
        ({
            let (after, one, other) = race(world, first, second, turns);
            &&& course.shared(after)
            &&& course.on_course(after, one)
            &&& course.on_course(after, other)
            &&& one.tag == course.one
            &&& other.tag == course.other
        }),
    decreases turns.len(),
{
    if turns.len() > 0 {
        lemma_race_keeps_course(course, world, first, second, turns.drop_last());
        let (before, one, other) = race(world, first, second, turns.drop_last());
        if turns.last() {
            lemma_turn_keeps_course(course, before, one, other);
        } else {
            lemma_turn_keeps_course(course, before, other, one);
        }
    }
}

/// Two loads that race for one identifier build one store. Whatever the
/// order of their turns: at most one of them moves a store into the cache; a
/// load that has ended has ended well, with the identifier; and once both
/// have ended, the cache holds what it held before and the one new store,
/// with every definition file in walk order, and neither load has left a
/// store of its own behind.
pub proof fn racing_loads_build_one_store(
    world: World,
    cache_dir: Seq<char>,
    extension: Seq<char>,
    identifier: Seq<char>,
    reference: Seq<char>,
    tag: Seq<char>,
    rival_reference: Seq<char>,
    rival_tag: Seq<char>,
    turns: Seq<bool>,
)
    requires
        tag != rival_tag,
        ready_for(world, cache_dir, reference, tag, extension, identifier),
        ready_for(world, cache_dir, rival_reference, rival_tag, extension, identifier),
    ensures
        ({
            let (after, one, other) = race(
                world,
                PipelineView::start(cache_dir, reference, tag, extension),
                PipelineView::start(cache_dir, rival_reference, rival_tag, extension),
                turns,
            );
            let destination = store_path(cache_dir, identifier);
            let plan = plan_of(files_at(world, identifier), extension);
            &&& after.published <= world.published + 1
            &&& after.stores.contains_key(destination) ==> after.stores[destination] == plan
            &&& one.stage == Stage::Finished ==> one.outcome() == Ok::<Seq<char>, LoadErrorView>(
                identifier,
            )
            &&& other.stage == Stage::Finished ==> other.outcome() == Ok::<
                Seq<char>,
                LoadErrorView,
            >(identifier)
            &&& one.stage == Stage::Finished || other.stage == Stage::Finished
                ==> after.published == world.published + 1
            &&& one.stage == Stage::Finished && other.stage == Stage::Finished ==> after.stores
                == world.stores.insert(destination, plan)
        }),
{
    let course = Course {
        base: world,
        cache_dir,
        extension,
        identifier,
        one: tag,
        other: rival_tag,
    };
    let first = PipelineView::start(cache_dir, reference, tag, extension);
    let second = PipelineView::start(cache_dir, rival_reference, rival_tag, extension);
    lemma_places_differ(course);
    lemma_race_keeps_course(course, world, first, second, turns);
    let (after, one, other) = race(world, first, second, turns);
    if one.stage == Stage::Finished && other.stage == Stage::Finished {
        assert(after.stores =~= world.stores.insert(course.destination(), course.plan()));
    }
}

} // verus!
