//! What holds of a load that runs in the model world.

use vstd::prelude::*;
use crate::channel::LoadOptionsEventView;
use crate::dataset::history::{served_after_clone, served_after_load, served_from_cache};
use crate::dataset::ingest::plan_of;
use crate::dataset::pipeline::{resolution, LoadErrorView, PipelineView, Stage};
use crate::dataset::store::{
    staging_is_never_a_store, staging_path_of, store_path, store_paths_are_distinct,
};
use crate::dataset::world::{ended_load_rests, run, run_in_two_parts, step, World};

verus! {

/// Where the cache directory cannot be made, the load ends before it touches
/// the remote or the cache: the remote is not cloned, no workspace and no
/// store is made. If the observer listens, the load fails with
/// `CacheDirUnwritable`.
pub proof fn unwritable_cache_stops_the_load(
    world: World,
    cache_dir: Seq<char>,
    reference: Seq<char>,
    tag: Seq<char>,
    extension: Seq<char>,
    steps: nat,
)
    requires
        !world.directory_ok,
    ensures
        ({
            let start = PipelineView::start(cache_dir, reference, tag, extension);
            let (after, end) = run(world, start, steps);
            &&& after.clones == world.clones
            &&& after.stores == world.stores
            &&& after.workspaces == world.workspaces
            &&& steps >= 2 ==> end.stage == Stage::Finished
            &&& steps >= 2 && world.channel_open ==> end.outcome() == Err::<
                Seq<char>,
                LoadErrorView,
            >(LoadErrorView::CacheDirUnwritable)
        }),
{
    let start = PipelineView::start(cache_dir, reference, tag, extension);
    reveal_with_fuel(run, 3);
    if steps >= 2 {
        let (w2, s2) = run(world, start, 2);
        assert(s2.stage == Stage::Finished);
        run_in_two_parts(world, start, 2, (steps - 2) as nat);
        ended_load_rests(w2, s2, (steps - 2) as nat);
    }
}

/// A reference that names nothing in the remote history, and under which the
/// cache holds nothing, gets no store: the cache is left as it was, and the
/// load fails. If nothing else fails first, it fails with `UnknownReference`.
pub proof fn unknown_reference_creates_no_store(
    world: World,
    cache_dir: Seq<char>,
    reference: Seq<char>,
    tag: Seq<char>,
    extension: Seq<char>,
    steps: nat,
)
    requires
        world.candidates(reference).len() == 0,
        !world.stores.contains_key(store_path(cache_dir, reference)),
    ensures
        ({
            let start = PipelineView::start(cache_dir, reference, tag, extension);
            let (after, end) = run(world, start, steps);
            &&& after.stores == world.stores
            &&& end.stage == Stage::Finished ==> end.outcome() is Err
            &&& steps >= 6 ==> end.stage == Stage::Finished
            &&& steps >= 6 && world.channel_open && world.directory_ok && world.remote_up
                ==> end.outcome() == Err::<Seq<char>, LoadErrorView>(
                LoadErrorView::UnknownReference,
            ) && after.workspaces == world.workspaces.remove(tag)
        }),
{
    let start = PipelineView::start(cache_dir, reference, tag, extension);
    reveal_with_fuel(run, 7);
    let (w1, s1) = step(world, start);
    let (w2, s2) = step(w1, s1);
    let (w3, s3) = step(w2, s2);
    let (w4, s4) = step(w3, s3);
    let (w5, s5) = step(w4, s4);
    let (w6, s6) = step(w5, s5);
    assert(w3.stores == world.stores);
    assert(s3.stage == Stage::Finished || s3.stage == Stage::AnnouncingClone);
    assert(w5.stores == world.stores);
    assert(s5.stage == Stage::Finished || s5.stage == Stage::Discarding);
    assert(s5.verdict is Some);
    assert(s6.stage == Stage::Finished);
    assert(run(world, start, 6) == (w6, s6));
    if steps >= 6 {
        run_in_two_parts(world, start, 6, (steps - 6) as nat);
        ended_load_rests(w6, s6, (steps - 6) as nat);
        if world.channel_open && world.directory_ok && world.remote_up {
            assert(w6.workspaces =~= world.workspaces.remove(tag));
        }
    }
}

/// A reference under which the cache holds a store is served at once: the
/// observer sees `Started` and `Completed` with the reference, and nothing
/// else happens. The remote is not cloned.
pub proof fn cached_reference_is_served_at_once(
    world: World,
    cache_dir: Seq<char>,
    reference: Seq<char>,
    tag: Seq<char>,
    extension: Seq<char>,
    steps: nat,
)
    requires
        world.channel_open,
        world.directory_ok,
        world.stores.contains_key(store_path(cache_dir, reference)),
        steps >= 4,
    ensures
        ({
            let start = PipelineView::start(cache_dir, reference, tag, extension);
            let (after, end) = run(world, start, steps);
            &&& end.stage == Stage::Finished
            &&& end.outcome() == Ok::<Seq<char>, LoadErrorView>(reference)
            &&& after == World { events: world.events + served_from_cache(reference), ..world }
        }),
{
    let start = PipelineView::start(cache_dir, reference, tag, extension);
    reveal_with_fuel(run, 5);
    let (w4, s4) = run(world, start, 4);
    assert(s4.stage == Stage::Finished);
    assert(w4.events =~= world.events + served_from_cache(reference));
    run_in_two_parts(world, start, 4, (steps - 4) as nat);
    ended_load_rests(w4, s4, (steps - 4) as nat);
}

/// A reference that resolves to an identifier under which the cache holds a
/// store is served from that store: the remote is cloned once, to resolve the
/// reference, and nothing is loaded. The observer sees `Started`, `Cloning`
/// and `Completed` with the identifier; the cache is left as it was and the
/// workspace is gone.
pub proof fn cached_identifier_is_not_loaded_again(
    world: World,
    cache_dir: Seq<char>,
    reference: Seq<char>,
    tag: Seq<char>,
    extension: Seq<char>,
    identifier: Seq<char>,
    steps: nat,
)
    requires
        world.channel_open,
        world.directory_ok,
        world.remote_up,
        resolution(world.candidates(reference)) == Ok::<Seq<char>, LoadErrorView>(identifier),
        world.stores.contains_key(store_path(cache_dir, identifier)),
        !world.stores.contains_key(store_path(cache_dir, reference)),
        steps >= 9,
    ensures
        ({
            let start = PipelineView::start(cache_dir, reference, tag, extension);
            let (after, end) = run(world, start, steps);
            &&& end.stage == Stage::Finished
            &&& end.outcome() == Ok::<Seq<char>, LoadErrorView>(identifier)
            &&& after == World {
                events: world.events + served_after_clone(identifier),
                clones: world.clones + 1,
                workspaces: world.workspaces.remove(tag),
                ..world
            }
        }),
{
    let start = PipelineView::start(cache_dir, reference, tag, extension);
    reveal_with_fuel(run, 10);
    let (w1, s1) = step(world, start);
    let (w2, s2) = step(w1, s1);
    let (w3, s3) = step(w2, s2);
    let (w4, s4) = step(w3, s3);
    let (w5, s5) = step(w4, s4);
    assert(s5.stage == Stage::CheckingOut && s5.resolved == Some(identifier));
    let (w6, s6) = step(w5, s5);
    let (w7, s7) = step(w6, s6);
    assert(s7.stage == Stage::Discarding && s7.verdict is None);
    let (w8, s8) = step(w7, s7);
    let (w9, s9) = step(w8, s8);
    assert(s9.stage == Stage::Finished);
    assert(run(world, start, 9) == (w9, s9));
    assert(w9.events =~= world.events + served_after_clone(identifier));
    assert(w9.workspaces =~= world.workspaces.remove(tag));
    run_in_two_parts(world, start, 9, (steps - 9) as nat);
    ended_load_rests(w9, s9, (steps - 9) as nat);
}

/// Whether the file at place `at` of `plan` comes after the files that it
/// relies on.
pub open spec fn is_in_place(
    plan: Seq<Seq<char>>,
    needs: Map<Seq<char>, Set<Seq<char>>>,
    at: int,
) -> bool {
    needs.contains_key(plan[at]) ==> forall|other: Seq<char>| #[trigger]
        needs[plan[at]].contains(other) ==> plan.take(at).contains(other)
}

/// Whether every file of `plan` comes after the files that it relies on.
pub open spec fn in_dependency_order(
    plan: Seq<Seq<char>>,
    needs: Map<Seq<char>, Set<Seq<char>>>,
) -> bool {
    forall|at: int| 0 <= at < plan.len() ==> #[trigger] is_in_place(plan, needs, at)
}

/// The files of the repository at `identifier`.
pub open spec fn files_at(world: World, identifier: Seq<char>) -> Seq<Seq<char>> {
    if world.trees.contains_key(identifier) {
        world.trees[identifier]
    } else {
        Seq::empty()
    }
}

/// Whether nothing but the definition files themselves can fail a load of
/// `reference` tagged `tag`: the observer listens, the disk and the remote
/// work, the reference stands for `identifier` alone, the cache holds nothing
/// under either of them, and the place where the load would write is free.
pub open spec fn clear_for(
    world: World,
    cache_dir: Seq<char>,
    reference: Seq<char>,
    tag: Seq<char>,
    identifier: Seq<char>,
) -> bool {
    &&& world.channel_open
    &&& world.directory_ok
    &&& world.remote_up
    &&& resolution(world.candidates(reference)) == Ok::<Seq<char>, LoadErrorView>(identifier)
    &&& !world.stores.contains_key(store_path(cache_dir, reference))
    &&& !world.stores.contains_key(store_path(cache_dir, identifier))
    &&& !world.stores.contains_key(staging_path_of(cache_dir, identifier, tag))
}

/// Whether a load of `reference` tagged `tag` finds everything in order:
/// nothing around the load fails, and the definition files rely only on files
/// that the walk reaches before them.
pub open spec fn ready_for(
    world: World,
    cache_dir: Seq<char>,
    reference: Seq<char>,
    tag: Seq<char>,
    extension: Seq<char>,
    identifier: Seq<char>,
) -> bool {
    &&& clear_for(world, cache_dir, reference, tag, identifier)
    &&& in_dependency_order(plan_of(files_at(world, identifier), extension), world.needs)
}

/// The world after a load that built the store of `identifier` from `plan`.
pub open spec fn after_building(
    world: World,
    cache_dir: Seq<char>,
    tag: Seq<char>,
    identifier: Seq<char>,
    plan: Seq<Seq<char>>,
) -> World {
    World {
        events: world.events + served_after_load(identifier),
        clones: world.clones + 1,
        batches: world.batches + plan.len(),
        published: world.published + 1,
        stores: world.stores.insert(store_path(cache_dir, identifier), plan),
        workspaces: world.workspaces.remove(tag),
        ..world
    }
}

proof fn lemma_files_are_applied(world: World, load: PipelineView, upto: nat)
    requires
        load.stage == Stage::Applying,
        load.position < load.plan.len(),
        load.position <= upto <= load.plan.len(),
        world.stores.contains_key(load.staging()),
        world.stores[load.staging()] == load.plan.take(load.position as int),
        forall|at: int| load.position <= at < upto ==> #[trigger] is_in_place(
            load.plan,
            world.needs,
            at,
        ),
    ensures
        run(world, load, (upto - load.position) as nat) == (
            World {
                stores: world.stores.insert(load.staging(), load.plan.take(upto as int)),
                batches: world.batches + (upto - load.position) as nat,
                ..world
            },
            PipelineView {
                stage: if upto == load.plan.len() {
                    Stage::Publishing
                } else {
                    Stage::Applying
                },
                position: upto,
                ..load
            },
        ),
    decreases upto - load.position,
{
    let at = load.position as int;
    reveal_with_fuel(run, 2);
    if load.position == upto {
        assert(world.stores.insert(load.staging(), load.plan.take(at)) =~= world.stores);
    } else {
        let file = load.plan[at];
        assert(is_in_place(load.plan, world.needs, at));
        assert(world.takes(load.staging(), file));
        let (next, moved) = step(world, load);
        assert(load.plan.take(at).push(file) =~= load.plan.take(at + 1));
        assert(next.stores == world.stores.insert(load.staging(), load.plan.take(at + 1)));
        assert(moved.staging() == load.staging());
        if at + 1 < load.plan.len() {
            lemma_files_are_applied(next, moved, upto);
            assert(next.stores.insert(load.staging(), load.plan.take(upto as int))
                =~= world.stores.insert(load.staging(), load.plan.take(upto as int)));
        }
    }
}

proof fn lemma_store_is_begun(
    world: World,
    cache_dir: Seq<char>,
    reference: Seq<char>,
    tag: Seq<char>,
    extension: Seq<char>,
    identifier: Seq<char>,
)
    requires
        clear_for(world, cache_dir, reference, tag, identifier),
    ensures
        ({
            let start = PipelineView::start(cache_dir, reference, tag, extension);
            let plan = plan_of(files_at(world, identifier), extension);
            run(world, start, 10) == (
                World {
                    events: world.events + seq![
                        LoadOptionsEventView::Started,
                        LoadOptionsEventView::Cloning,
                        LoadOptionsEventView::Loading,
                    ],
                    clones: world.clones + 1,
                    workspaces: world.workspaces.insert(tag, Some(identifier)),
                    stores: world.stores.insert(
                        staging_path_of(cache_dir, identifier, tag),
                        Seq::empty(),
                    ),
                    ..world
                },
                PipelineView {
                    stage: if plan.len() == 0 {
                        Stage::Publishing
                    } else {
                        Stage::Applying
                    },
                    resolved: Some(identifier),
                    plan,
                    ..start
                },
            )
        }),
{
    let start = PipelineView::start(cache_dir, reference, tag, extension);
    let plan = plan_of(files_at(world, identifier), extension);
    let (w1, s1) = step(world, start);
    let (w2, s2) = step(w1, s1);
    let (w3, s3) = step(w2, s2);
    let (w4, s4) = step(w3, s3);
    let (w5, s5) = step(w4, s4);
    assert(s5 == PipelineView { stage: Stage::CheckingOut, resolved: Some(identifier), ..start });
    assert(w5 == World {
        events: world.events.push(LoadOptionsEventView::Started).push(
            LoadOptionsEventView::Cloning,
        ),
        clones: world.clones + 1,
        workspaces: world.workspaces.insert(tag, None),
        ..world
    });
    assert(run(world, start, 5) == (w5, s5)) by {
        reveal_with_fuel(run, 6);
    }
    let (w6, s6) = step(w5, s5);
    let (w7, s7) = step(w6, s6);
    let (w8, s8) = step(w7, s7);
    assert(w8.listing(tag) == files_at(world, identifier));
    let (w9, s9) = step(w8, s8);
    let (w10, s10) = step(w9, s9);
    assert(run(w5, s5, 5) == (w10, s10)) by {
        reveal_with_fuel(run, 6);
    }
    run_in_two_parts(world, start, 5, 5);
    assert(w10.workspaces =~= world.workspaces.insert(tag, Some(identifier)));
    assert(w10.events =~= world.events + seq![
        LoadOptionsEventView::Started,
        LoadOptionsEventView::Cloning,
        LoadOptionsEventView::Loading,
    ]);
}

proof fn lemma_store_is_published(world: World, load: PipelineView)
    requires
        load.stage == Stage::Publishing,
        load.verdict is None,
        world.channel_open,
        world.stores.contains_key(load.staging()),
        !world.stores.contains_key(load.destination()),
    ensures
        run(world, load, 3) == (
            World {
                events: world.events.push(
                    LoadOptionsEventView::Completed { identifier: load.served() },
                ),
                published: world.published + 1,
                stores: world.stores.remove(load.staging()).insert(
                    load.destination(),
                    world.stores[load.staging()],
                ),
                workspaces: world.workspaces.remove(load.tag),
                ..world
            },
            PipelineView { stage: Stage::Finished, ..load },
        ),
{
    reveal_with_fuel(run, 4);
}

/// A first load builds the store. Where everything is in order, the load
/// clones the remote once, applies every definition file in walk order to a
/// store of its own, moves that store to its place under the identifier, and
/// removes its workspace. The observer sees `Started`, `Cloning`, `Loading`
/// and `Completed` with the identifier; nothing else in the cache changes.
pub proof fn first_load_builds_the_store(
    world: World,
    cache_dir: Seq<char>,
    reference: Seq<char>,
    tag: Seq<char>,
    extension: Seq<char>,
    identifier: Seq<char>,
    steps: nat,
)
    requires
        ready_for(world, cache_dir, reference, tag, extension, identifier),
        steps >= 13 + plan_of(files_at(world, identifier), extension).len(),
    ensures
        ({
            let start = PipelineView::start(cache_dir, reference, tag, extension);
            let plan = plan_of(files_at(world, identifier), extension);
            let (after, end) = run(world, start, steps);
            &&& end.stage == Stage::Finished
            &&& end.outcome() == Ok::<Seq<char>, LoadErrorView>(identifier)
            &&& after == after_building(world, cache_dir, tag, identifier, plan)
        }),
{
    let start = PipelineView::start(cache_dir, reference, tag, extension);
    let plan = plan_of(files_at(world, identifier), extension);
    let staging = staging_path_of(cache_dir, identifier, tag);
    let destination = store_path(cache_dir, identifier);
    staging_is_never_a_store(cache_dir, identifier, tag, cache_dir, identifier);
    lemma_store_is_begun(world, cache_dir, reference, tag, extension, identifier);
    let (w10, s10) = run(world, start, 10);
    let (w11, s11) = run(w10, s10, plan.len());
    assert(s11 == PipelineView { stage: Stage::Publishing, position: plan.len(), ..s10 } && w11
        == World {
        stores: world.stores.insert(staging, plan),
        batches: world.batches + plan.len(),
        ..w10
    }) by {
        if plan.len() == 0 {
            assert(plan =~= Seq::empty());
        } else {
            assert(plan.take(0) =~= Seq::empty());
            assert(plan.take(plan.len() as int) =~= plan);
            lemma_files_are_applied(w10, s10, plan.len());
            assert(w10.stores.insert(staging, plan) =~= world.stores.insert(staging, plan));
        }
    }
    run_in_two_parts(world, start, 10, plan.len());
    lemma_store_is_published(w11, s11);
    let (w14, s14) = run(w11, s11, 3);
    run_in_two_parts(world, start, 10 + plan.len(), 3);
    assert(w14.stores =~= world.stores.insert(destination, plan));
    assert(w14.events =~= world.events + served_after_load(identifier));
    assert(w14.workspaces =~= world.workspaces.remove(tag));
    run_in_two_parts(world, start, 13 + plan.len(), (steps - 13 - plan.len()) as nat);
    ended_load_rests(w14, s14, (steps - 13 - plan.len()) as nat);
}

/// The order of the files matters. Where a definition file relies on a file
/// that the walk has not reached before it, the load applies the files before
/// it, fails at that file with `IngestBatchFailed`, and leaves no store
/// behind: the cache is as it was. The observer sees `Started`, `Cloning` and
/// `Loading`, and no `Completed`.
pub proof fn misplaced_file_fails_the_load(
    world: World,
    cache_dir: Seq<char>,
    reference: Seq<char>,
    tag: Seq<char>,
    extension: Seq<char>,
    identifier: Seq<char>,
    at: nat,
    steps: nat,
)
    requires
        clear_for(world, cache_dir, reference, tag, identifier),
        at < plan_of(files_at(world, identifier), extension).len(),
        forall|before: int|
            0 <= before < at ==> #[trigger] is_in_place(
                plan_of(files_at(world, identifier), extension),
                world.needs,
                before,
            ),
        !is_in_place(plan_of(files_at(world, identifier), extension), world.needs, at as int),
        steps >= 13 + at,
    ensures
        ({
            let start = PipelineView::start(cache_dir, reference, tag, extension);
            let plan = plan_of(files_at(world, identifier), extension);
            let (after, end) = run(world, start, steps);
            &&& end.stage == Stage::Finished
            &&& end.outcome() == Err::<Seq<char>, LoadErrorView>(
                LoadErrorView::IngestBatchFailed { file: plan[at as int], cause: Seq::empty() },
            )
            &&& after == World {
                events: world.events + seq![
                    LoadOptionsEventView::Started,
                    LoadOptionsEventView::Cloning,
                    LoadOptionsEventView::Loading,
                ],
                clones: world.clones + 1,
                batches: world.batches + at,
                workspaces: world.workspaces.remove(tag),
                ..world
            }
        }),
{
    let start = PipelineView::start(cache_dir, reference, tag, extension);
    let plan = plan_of(files_at(world, identifier), extension);
    let staging = staging_path_of(cache_dir, identifier, tag);
    lemma_store_is_begun(world, cache_dir, reference, tag, extension, identifier);
    let (w10, s10) = run(world, start, 10);
    assert(plan.take(0) =~= Seq::empty());
    lemma_files_are_applied(w10, s10, at);
    let (w11, s11) = run(w10, s10, at);
    run_in_two_parts(world, start, 10, at);
    assert(w11.stores =~= world.stores.insert(staging, plan.take(at as int)));
    assert(s11.staging() == staging);
    assert(!w11.takes(staging, plan[at as int])) by {
        let other = choose|other: Seq<char>| #[trigger]
            world.needs[plan[at as int]].contains(other) && !plan.take(at as int).contains(other);
        assert(w11.needs[plan[at as int]].contains(other));
    }
    let (w12, s12) = step(w11, s11);
    let (w13, s13) = step(w12, s12);
    let (w14, s14) = step(w13, s13);
    assert(run(w11, s11, 3) == (w14, s14)) by {
        reveal_with_fuel(run, 4);
    }
    run_in_two_parts(world, start, 10 + at, 3);
    assert(w14.stores =~= world.stores);
    assert(w14.workspaces =~= world.workspaces.remove(tag));
    run_in_two_parts(world, start, 13 + at, (steps - 13 - at) as nat);
    ended_load_rests(w14, s14, (steps - 13 - at) as nat);
}

/// Loading twice is loading once. After a first load has built the store, a
/// second load of the same reference ends with the same identifier and leaves
/// the cache as it found it: no file is applied, no store is made or moved.
/// The second load does not even clone the remote where the reference is the
/// identifier itself; for any other reference it clones once, to resolve it.
pub proof fn load_is_idempotent(
    world: World,
    cache_dir: Seq<char>,
    reference: Seq<char>,
    tag: Seq<char>,
    again: Seq<char>,
    extension: Seq<char>,
    identifier: Seq<char>,
    steps: nat,
    more: nat,
)
    requires
        ready_for(world, cache_dir, reference, tag, extension, identifier),
        steps >= 13 + plan_of(files_at(world, identifier), extension).len(),
        more >= 9,
    ensures
        ({
            let (between, first) = run(
                world,
                PipelineView::start(cache_dir, reference, tag, extension),
                steps,
            );
            let (after, second) = run(
                between,
                PipelineView::start(cache_dir, reference, again, extension),
                more,
            );
            &&& first.stage == Stage::Finished
            &&& second.stage == Stage::Finished
            &&& first.outcome() == Ok::<Seq<char>, LoadErrorView>(identifier)
            &&& second.outcome() == first.outcome()
            &&& after.stores == between.stores
            &&& after.batches == between.batches
            &&& after.published == between.published
            &&& after.clones == if reference == identifier {
                between.clones
            } else {
                between.clones + 1
            }
        }),
{
    let plan = plan_of(files_at(world, identifier), extension);
    first_load_builds_the_store(world, cache_dir, reference, tag, extension, identifier, steps);
    let between = after_building(world, cache_dir, tag, identifier, plan);
    if reference == identifier {
        cached_reference_is_served_at_once(between, cache_dir, reference, again, extension, more);
    } else {
        store_paths_are_distinct(cache_dir, reference, identifier);
        cached_identifier_is_not_loaded_again(
            between,
            cache_dir,
            reference,
            again,
            extension,
            identifier,
            more,
        );
    }
}

} // verus!
