//! A model of what surrounds a load: the cache on disk, the remote repository,
//! the workspaces and the observer, each as simple as the laws of the load
//! need it.
//!
//! The model answers every action that a load asks for. Running a load in the
//! model shows what the load does to a cache that behaves as a disk does, which
//! no single response can show.

use vstd::prelude::*;
use crate::channel::LoadOptionsEventView;
use crate::dataset::pipeline::{ActionView, PipelineView, ResponseView, Stage};

verus! {

/// The surroundings of the loads.
pub struct World {
    /// Whether the observer still takes events.
    pub channel_open: bool,
    /// Whether the cache directory exists or can be made.
    pub directory_ok: bool,
    /// Whether the remote repository can be cloned.
    pub remote_up: bool,
    /// The points of the remote history that each reference stands for.
    pub history: Map<Seq<char>, Seq<Seq<char>>>,
    /// The files of the repository at each identifier.
    pub trees: Map<Seq<char>, Seq<Seq<char>>>,
    /// The files that each file relies on: its statements can be applied
    /// only to a store to which all of those were applied.
    pub needs: Map<Seq<char>, Set<Seq<char>>>,
    /// The stores on disk, finished or not: for each path the files that
    /// were applied, in the order in which they were.
    pub stores: Map<Seq<char>, Seq<Seq<char>>>,
    /// The workspaces that exist: for the tag of each load that has one, the
    /// identifier at which it is checked out, once it is.
    pub workspaces: Map<Seq<char>, Option<Seq<char>>>,
    /// The events that the observer has seen.
    pub events: Seq<LoadOptionsEventView>,
    /// How often the remote was cloned.
    pub clones: nat,
    /// How many files were applied to stores.
    pub batches: nat,
    /// How many stores were moved to their place in the cache.
    pub published: nat,
}

impl World {
    /// The points of the remote history that `reference` stands for.
    pub open spec fn candidates(self, reference: Seq<char>) -> Seq<Seq<char>> {
        if self.history.contains_key(reference) {
            self.history[reference]
        } else {
            Seq::empty()
        }
    }

    /// The files of the workspace of the load tagged `tag`.
    pub open spec fn listing(self, tag: Seq<char>) -> Seq<Seq<char>> {
        if self.workspaces.contains_key(tag) && self.workspaces[tag] is Some
            && self.trees.contains_key(self.workspaces[tag]->Some_0) {
            self.trees[self.workspaces[tag]->Some_0]
        } else {
            Seq::empty()
        }
    }

    /// Whether the statements of `file` can be applied to the store at
    /// `store`.
    pub open spec fn takes(self, store: Seq<char>, file: Seq<char>) -> bool {
        &&& self.stores.contains_key(store)
        &&& self.needs.contains_key(file) ==> forall|other: Seq<char>| #[trigger]
            self.needs[file].contains(other) ==> self.stores[store].contains(other)
    }

    /// What becomes of the world when the load tagged `tag` has `action`
    /// performed, and the response that the load is given.
    pub open spec fn respond(self, tag: Seq<char>, action: ActionView) -> (World, ResponseView) {
        let failed = ResponseView::Failed { cause: Seq::empty() };
        match action {
            ActionView::Emit { event } => if self.channel_open {
                (World { events: self.events.push(event), ..self }, ResponseView::Succeeded)
            } else {
                (self, failed)
            },
            ActionView::EnsureCacheDir { path } => if self.directory_ok {
                (self, ResponseView::Succeeded)
            } else {
                (self, failed)
            },
            ActionView::Lookup { path } => if self.stores.contains_key(path) {
                (self, ResponseView::Exists)
            } else {
                (self, ResponseView::Absent)
            },
            ActionView::CloneAndResolve { reference } => {
                let cloned = World {
                    clones: self.clones + 1,
                    workspaces: self.workspaces.insert(tag, None),
                    ..self
                };
                if self.remote_up {
                    (cloned, ResponseView::Candidates { identifiers: self.candidates(reference) })
                } else {
                    (cloned, failed)
                }
            },
            ActionView::Checkout { identifier } => (
                World { workspaces: self.workspaces.insert(tag, Some(identifier)), ..self },
                ResponseView::Succeeded,
            ),
            ActionView::ListWorkspace => (self, ResponseView::Listing { files: self.listing(tag) }),
            ActionView::CreateStore { path } => if self.stores.contains_key(path) {
                (self, ResponseView::Exists)
            } else {
                (
                    World { stores: self.stores.insert(path, Seq::empty()), ..self },
                    ResponseView::Succeeded,
                )
            },
            ActionView::ApplyBatch { store, file } => if self.takes(store, file) {
                (
                    World {
                        stores: self.stores.insert(store, self.stores[store].push(file)),
                        batches: self.batches + 1,
                        ..self
                    },
                    ResponseView::Succeeded,
                )
            } else {
                (self, failed)
            },
            ActionView::Publish { from, to } => if self.stores.contains_key(to) {
                (self, ResponseView::Exists)
            } else if self.stores.contains_key(from) {
                (
                    World {
                        stores: self.stores.remove(from).insert(to, self.stores[from]),
                        published: self.published + 1,
                        ..self
                    },
                    ResponseView::Succeeded,
                )
            } else {
                (self, failed)
            },
            ActionView::RemoveStaging { path } => (
                World { stores: self.stores.remove(path), ..self },
                ResponseView::Succeeded,
            ),
            ActionView::DiscardWorkspace => (
                World { workspaces: self.workspaces.remove(tag), ..self },
                ResponseView::Succeeded,
            ),
            ActionView::Finish { outcome } => (self, ResponseView::Succeeded),
        }
    }
}

/// The world and the load after the load's pending action was performed and
/// answered.
pub open spec fn step(world: World, load: PipelineView) -> (World, PipelineView) {
    let (next, response) = world.respond(load.tag, load.pending());
    (next, load.advance(response))
}

/// The world and the load after `steps` actions of the load.
pub open spec fn run(world: World, load: PipelineView, steps: nat) -> (World, PipelineView)
    decreases steps,
{
    if steps == 0 {
        (world, load)
    } else {
        let (next, moved) = step(world, load);
        run(next, moved, (steps - 1) as nat)
    }
}

/// A run of `first + then` steps is a run of `first` steps followed by one of
/// `then` steps.
pub proof fn run_in_two_parts(world: World, load: PipelineView, first: nat, then: nat)
    ensures
        run(world, load, first + then) == run(
            run(world, load, first).0,
            run(world, load, first).1,
            then,
        ),
    decreases first,
{
    if first > 0 {
        let (next, moved) = step(world, load);
        run_in_two_parts(next, moved, (first - 1) as nat, then);
        assert((first + then - 1) as nat == (first - 1) as nat + then);
    }
}

/// A load that has ended stays as it is, and so does the world around it.
pub proof fn ended_load_rests(world: World, load: PipelineView, steps: nat)
    requires
        load.stage == Stage::Finished,
    ensures
        run(world, load, steps) == (world, load),
    decreases steps,
{
    if steps > 0 {
        ended_load_rests(world, load, (steps - 1) as nat);
    }
}

} // verus!
