use std::collections::BTreeMap;

use ffgraph::channel::LoadOptionsEvent;
use ffgraph::dataset::pipeline::{
    load_failure, resolve, Action, LoadError, Pipeline, Response, Stage,
};
use ffgraph::error::Error;
use ffgraph::dataset::reference::RevisionReference;
use ffgraph::dataset::store::path_for;

const CACHE: &str = "/cache/database";

/// A stand-in for the disk, the remote and the observer.
struct World {
    channel_open: bool,
    directory_ok: bool,
    remote_up: bool,
    history: Vec<(&'static str, Vec<&'static str>)>,
    tree: Vec<&'static str>,
    needs: Vec<(&'static str, &'static str)>,
    stores: BTreeMap<String, Vec<String>>,
    workspaces: usize,
    events: Vec<LoadOptionsEvent>,
    asked: Vec<String>,
    clones: usize,
    batches: usize,
    published: usize,
}

impl World {
    fn new() -> World {
        World {
            channel_open: true,
            directory_ok: true,
            remote_up: true,
            history: vec![("main", vec!["abc123"]), ("v1", vec!["abc123"]), ("abc123", vec!["abc123"])],
            tree: vec!["b.def", "notes.txt", "a.def"],
            needs: vec![],
            stores: BTreeMap::new(),
            workspaces: 0,
            events: Vec::new(),
            asked: Vec::new(),
            clones: 0,
            batches: 0,
            published: 0,
        }
    }

    fn perform(&mut self, action: &Action) -> Response {
        self.asked.push(format!("{:?}", action));
        match action {
            Action::Emit { event } => {
                if self.channel_open {
                    self.events.push(event.clone());
                    Response::Succeeded
                } else {
                    Response::Failed { cause: "closed".to_string() }
                }
            }
            Action::EnsureCacheDir { path } => {
                assert_eq!(path, CACHE);
                if self.directory_ok {
                    Response::Succeeded
                } else {
                    Response::Failed { cause: "permission denied".to_string() }
                }
            }
            Action::Lookup { path } => {
                if self.stores.contains_key(path) {
                    Response::Exists
                } else {
                    Response::Absent
                }
            }
            Action::CloneAndResolve { reference } => {
                self.clones += 1;
                self.workspaces += 1;
                if !self.remote_up {
                    return Response::Failed { cause: "no route".to_string() };
                }
                let found = self.history.iter().find(|(name, _)| name == reference);
                let identifiers = match found {
                    Some((_, list)) => list.iter().map(|id| id.to_string()).collect(),
                    None => Vec::new(),
                };
                Response::Candidates { identifiers }
            }
            Action::Checkout { .. } => Response::Succeeded,
            Action::ListWorkspace => {
                Response::Listing { files: self.tree.iter().map(|file| file.to_string()).collect() }
            }
            Action::CreateStore { path } => {
                if self.stores.contains_key(path) {
                    Response::Exists
                } else {
                    self.stores.insert(path.clone(), Vec::new());
                    Response::Succeeded
                }
            }
            Action::ApplyBatch { store, file } => {
                let applied = self.stores.get_mut(store).unwrap();
                for (later, earlier) in self.needs.iter() {
                    if later == file && !applied.iter().any(|done| done == earlier) {
                        return Response::Failed { cause: format!("no such table in {}", earlier) };
                    }
                }
                applied.push(file.clone());
                self.batches += 1;
                Response::Succeeded
            }
            Action::Publish { from, to } => {
                if self.stores.contains_key(to) {
                    Response::Exists
                } else {
                    let content = self.stores.remove(from).unwrap();
                    self.stores.insert(to.clone(), content);
                    self.published += 1;
                    Response::Succeeded
                }
            }
            Action::RemoveStaging { path } => {
                self.stores.remove(path);
                Response::Succeeded
            }
            Action::DiscardWorkspace => {
                self.workspaces -= 1;
                Response::Succeeded
            }
            Action::Finish { .. } => unreachable!(),
        }
    }

    fn load_as(&mut self, reference: &str, tag: &str) -> Result<String, LoadError> {
        let mut pipeline = pipeline_for(reference, tag);
        for _ in 0..1000 {
            match pipeline.action() {
                Action::Finish { outcome } => {
                    assert!(pipeline.is_finished());
                    return outcome;
                }
                action => {
                    assert!(!pipeline.is_finished());
                    let response = self.perform(&action);
                    pipeline = pipeline.advance(response);
                }
            }
        }
        panic!("the load did not end");
    }

    fn load(&mut self, reference: &str) -> Result<String, LoadError> {
        self.load_as(reference, "t1")
    }

    fn asked_for(&self, what: &str) -> usize {
        self.asked.iter().filter(|action| action.starts_with(what)).count()
    }
}

fn pipeline_for(reference: &str, tag: &str) -> Pipeline {
    Pipeline::new(CACHE, &RevisionReference::new(reference).unwrap(), tag, "def")
}

fn completed(identifier: &str) -> LoadOptionsEvent {
    LoadOptionsEvent::Completed { identifier: identifier.to_string() }
}

fn strings(items: &[&str]) -> Vec<String> {
    items.iter().map(|item| item.to_string()).collect()
}

#[test]
fn resolve_takes_the_single_candidate() {
    assert_eq!(resolve(&strings(&["abc"])), Ok("abc".to_string()));
}

#[test]
fn resolve_rejects_no_candidate() {
    assert_eq!(resolve(&Vec::new()), Err(LoadError::UnknownReference));
}

#[test]
fn resolve_rejects_two_points_of_history() {
    assert_eq!(resolve(&strings(&["abc", "abd"])), Err(LoadError::AmbiguousReference));
    assert_eq!(resolve(&strings(&["abc", "abc", "x"])), Err(LoadError::AmbiguousReference));
}

#[test]
fn resolve_accepts_one_point_named_twice() {
    assert_eq!(resolve(&strings(&["abc", "abc"])), Ok("abc".to_string()));
}

#[test]
fn a_new_pipeline_announces_the_start() {
    let pipeline = pipeline_for("main", "t1");
    assert_eq!(pipeline.stage(), Stage::AnnouncingStart);
    assert!(!pipeline.is_finished());
    assert_eq!(pipeline.action(), Action::Emit { event: LoadOptionsEvent::Started });
}

#[test]
fn first_load_builds_the_store() {
    let mut world = World::new();
    assert_eq!(world.load("main"), Ok("abc123".to_string()));
    assert_eq!(
        world.events,
        vec![
            LoadOptionsEvent::Started,
            LoadOptionsEvent::Cloning,
            LoadOptionsEvent::Loading,
            completed("abc123"),
        ]
    );
    assert_eq!(world.stores.len(), 1);
    assert_eq!(world.stores[&path_for(CACHE, "abc123")], strings(&["a.def", "b.def"]));
    assert_eq!(world.clones, 1);
    assert_eq!(world.published, 1);
    assert_eq!(world.workspaces, 0);
}

#[test]
fn actions_of_a_first_load_are_exact() {
    let mut world = World::new();
    let mut pipeline = pipeline_for("main", "t9");
    let mut actions = Vec::new();
    loop {
        let action = pipeline.action();
        if let Action::Finish { .. } = action {
            actions.push(action);
            break;
        }
        let response = world.perform(&action);
        actions.push(action);
        pipeline = pipeline.advance(response);
    }
    let staging = "/cache/database/t9-abc123.partial".to_string();
    let store = "/cache/database/abc123.store".to_string();
    assert_eq!(
        actions,
        vec![
            Action::Emit { event: LoadOptionsEvent::Started },
            Action::EnsureCacheDir { path: CACHE.to_string() },
            Action::Lookup { path: "/cache/database/main.store".to_string() },
            Action::Emit { event: LoadOptionsEvent::Cloning },
            Action::CloneAndResolve { reference: "main".to_string() },
            Action::Checkout { identifier: "abc123".to_string() },
            Action::Lookup { path: store.clone() },
            Action::Emit { event: LoadOptionsEvent::Loading },
            Action::ListWorkspace,
            Action::CreateStore { path: staging.clone() },
            Action::ApplyBatch { store: staging.clone(), file: "a.def".to_string() },
            Action::ApplyBatch { store: staging.clone(), file: "b.def".to_string() },
            Action::Publish { from: staging.clone(), to: store.clone() },
            Action::DiscardWorkspace,
            Action::Emit { event: completed("abc123") },
            Action::Finish { outcome: Ok("abc123".to_string()) },
        ]
    );
}

#[test]
fn load_resolves_to_the_same_identifier_every_time() {
    let mut first = World::new();
    let mut second = World::new();
    second.stores.insert(path_for(CACHE, "abc123"), Vec::new());
    assert_eq!(first.load("main"), Ok("abc123".to_string()));
    assert_eq!(second.load("main"), Ok("abc123".to_string()));
    assert_eq!(first.load("main"), Ok("abc123".to_string()));
}

#[test]
fn second_load_changes_nothing() {
    let mut world = World::new();
    let first = world.load("main");
    let stores = world.stores.clone();
    let batches = world.batches;
    let second = world.load_as("main", "t2");
    assert_eq!(first, second);
    assert_eq!(world.stores, stores);
    assert_eq!(world.batches, batches);
    assert_eq!(world.published, 1);
    assert_eq!(world.asked_for("CreateStore"), 1);
}

#[test]
fn second_load_by_identifier_does_not_clone() {
    let mut world = World::new();
    assert_eq!(world.load("abc123"), Ok("abc123".to_string()));
    assert_eq!(world.clones, 1);
    world.events.clear();
    assert_eq!(world.load_as("abc123", "t2"), Ok("abc123".to_string()));
    assert_eq!(world.clones, 1);
    assert_eq!(world.batches, 2);
    assert_eq!(world.events, vec![LoadOptionsEvent::Started, completed("abc123")]);
}

#[test]
fn second_load_by_branch_clones_to_resolve_but_loads_nothing() {
    let mut world = World::new();
    assert_eq!(world.load("main"), Ok("abc123".to_string()));
    assert_eq!(world.load_as("main", "t2"), Ok("abc123".to_string()));
    assert_eq!(world.clones, 2);
    assert_eq!(world.batches, 2);
}

#[test]
fn references_to_one_identifier_share_the_store() {
    let mut world = World::new();
    assert_eq!(world.load("main"), Ok("abc123".to_string()));
    world.events.clear();
    assert_eq!(world.load_as("v1", "t2"), Ok("abc123".to_string()));
    assert_eq!(
        world.events,
        vec![LoadOptionsEvent::Started, LoadOptionsEvent::Cloning, completed("abc123")]
    );
    assert_eq!(world.batches, 2);
    assert_eq!(world.published, 1);
    assert_eq!(world.stores.len(), 1);
    assert_eq!(world.workspaces, 0);
}

#[test]
fn files_are_applied_in_walk_order() {
    let mut world = World::new();
    world.needs = vec![("b.def", "a.def")];
    assert_eq!(world.load("main"), Ok("abc123".to_string()));
    assert_eq!(world.stores[&path_for(CACHE, "abc123")], strings(&["a.def", "b.def"]));
}

#[test]
fn a_file_that_needs_a_later_one_fails_the_load() {
    let mut world = World::new();
    world.needs = vec![("a.def", "b.def")];
    assert_eq!(
        world.load("main"),
        Err(LoadError::IngestBatchFailed {
            file: "a.def".to_string(),
            cause: "no such table in b.def".to_string(),
        })
    );
    assert!(world.stores.is_empty());
    assert_eq!(world.workspaces, 0);
    assert_eq!(
        world.events,
        vec![LoadOptionsEvent::Started, LoadOptionsEvent::Cloning, LoadOptionsEvent::Loading]
    );
}

#[test]
fn a_failure_in_the_second_file_removes_the_partial_store() {
    let mut world = World::new();
    world.needs = vec![("b.def", "missing.def")];
    assert_eq!(
        world.load("main"),
        Err(LoadError::IngestBatchFailed {
            file: "b.def".to_string(),
            cause: "no such table in missing.def".to_string(),
        })
    );
    assert_eq!(world.batches, 1);
    assert!(world.stores.is_empty());
    assert_eq!(world.asked_for("RemoveStaging"), 1);
    assert_eq!(world.asked_for("Publish"), 0);
}

#[test]
fn racing_loads_create_one_store() {
    let mut world = World::new();
    let mut first = pipeline_for("main", "t1");
    let mut second = pipeline_for("main", "t2");
    let mut outcomes = Vec::new();
    let mut turn = 0;
    while outcomes.len() < 2 {
        turn += 1;
        assert!(turn < 1000);
        let pipeline = if turn % 2 == 0 { &mut first } else { &mut second };
        if pipeline.is_finished() {
            continue;
        }
        let action = pipeline.action();
        let response = world.perform(&action);
        let moved = std::mem::replace(pipeline, pipeline_for("main", "spare"));
        *pipeline = moved.advance(response);
        if let Action::Finish { outcome } = pipeline.action() {
            outcomes.push(outcome);
        }
    }
    assert_eq!(outcomes, vec![Ok("abc123".to_string()), Ok("abc123".to_string())]);
    assert_eq!(world.published, 1);
    assert_eq!(world.stores.len(), 1);
    assert_eq!(world.stores[&path_for(CACHE, "abc123")], strings(&["a.def", "b.def"]));
    assert_eq!(world.workspaces, 0);
    assert_eq!(world.events.iter().filter(|event| **event == completed("abc123")).count(), 2);
}

#[test]
fn a_load_that_loses_the_race_at_the_end_still_completes() {
    let mut world = World::new();
    let mut pipeline = pipeline_for("main", "t1");
    let mut responses = 0;
    loop {
        let action = pipeline.action();
        if let Action::Publish { to, .. } = &action {
            world.stores.insert(to.clone(), strings(&["a.def", "b.def"]));
        }
        if let Action::Finish { outcome } = action {
            assert_eq!(outcome, Ok("abc123".to_string()));
            break;
        }
        let response = world.perform(&action);
        pipeline = pipeline.advance(response);
        responses += 1;
    }
    assert_eq!(responses, 14 + 2);
    assert_eq!(world.published, 0);
    assert_eq!(world.stores.len(), 1);
    assert_eq!(world.asked_for("RemoveStaging"), 1);
    assert_eq!(world.events.last(), Some(&completed("abc123")));
}

#[test]
fn unknown_reference_creates_no_store() {
    let mut world = World::new();
    assert_eq!(world.load("does-not-exist-xyz"), Err(LoadError::UnknownReference));
    assert!(world.stores.is_empty());
    assert_eq!(world.asked_for("CreateStore"), 0);
    assert_eq!(world.workspaces, 0);
    assert_eq!(world.events, vec![LoadOptionsEvent::Started, LoadOptionsEvent::Cloning]);
}

#[test]
fn ambiguous_reference_fails_closed() {
    let mut world = World::new();
    world.history.push(("v", vec!["abc123", "def456"]));
    assert_eq!(world.load("v"), Err(LoadError::AmbiguousReference));
    assert!(world.stores.is_empty());
    assert_eq!(world.workspaces, 0);
}

#[test]
fn unwritable_cache_stops_before_the_remote() {
    let mut world = World::new();
    world.directory_ok = false;
    assert_eq!(world.load("main"), Err(LoadError::CacheDirUnwritable));
    assert_eq!(world.clones, 0);
    assert_eq!(world.asked_for("CloneAndResolve"), 0);
    assert_eq!(world.asked_for("Lookup"), 0);
    assert_eq!(world.events, vec![LoadOptionsEvent::Started]);
}

#[test]
fn an_existing_cache_dir_is_fine() {
    let mut pipeline = pipeline_for("main", "t1");
    pipeline = pipeline.advance(Response::Succeeded);
    pipeline = pipeline.advance(Response::Exists);
    assert_eq!(pipeline.stage(), Stage::FastLookup);
}

#[test]
fn unreachable_remote_is_reported() {
    let mut world = World::new();
    world.remote_up = false;
    assert_eq!(world.load("main"), Err(LoadError::RemoteUnavailable));
    assert!(world.stores.is_empty());
    assert_eq!(world.workspaces, 0);
}

#[test]
fn failed_checkout_is_reported_as_remote_failure() {
    let mut pipeline = pipeline_for("main", "t1");
    for response in [
        Response::Succeeded,
        Response::Succeeded,
        Response::Absent,
        Response::Succeeded,
        Response::Candidates { identifiers: strings(&["abc123"]) },
    ] {
        pipeline = pipeline.advance(response);
    }
    assert_eq!(pipeline.action(), Action::Checkout { identifier: "abc123".to_string() });
    pipeline = pipeline.advance(Response::Failed { cause: "disk full".to_string() });
    assert_eq!(pipeline.action(), Action::DiscardWorkspace);
    pipeline = pipeline.advance(Response::Succeeded);
    assert_eq!(pipeline.action(), Action::Finish { outcome: Err(LoadError::RemoteUnavailable) });
}

#[test]
fn closed_channel_ends_the_load_at_once() {
    let mut world = World::new();
    world.channel_open = false;
    assert_eq!(world.load("main"), Err(LoadError::ProgressChannelClosed));
    assert_eq!(world.asked.len(), 1);
    assert!(world.events.is_empty());
}

#[test]
fn channel_closed_while_loading_discards_the_workspace() {
    let mut world = World::new();
    let mut pipeline = pipeline_for("main", "t1");
    loop {
        let action = pipeline.action();
        if action == (Action::Emit { event: LoadOptionsEvent::Loading }) {
            world.channel_open = false;
        }
        if let Action::Finish { outcome } = action {
            assert_eq!(outcome, Err(LoadError::ProgressChannelClosed));
            break;
        }
        let response = world.perform(&action);
        pipeline = pipeline.advance(response);
    }
    assert_eq!(world.workspaces, 0);
    assert!(world.stores.is_empty());
    assert_eq!(world.events, vec![LoadOptionsEvent::Started, LoadOptionsEvent::Cloning]);
}

#[test]
fn undelivered_completion_is_an_error() {
    let mut world = World::new();
    world.stores.insert(path_for(CACHE, "main"), Vec::new());
    let mut pipeline = pipeline_for("main", "t1");
    pipeline = pipeline.advance(Response::Succeeded);
    pipeline = pipeline.advance(Response::Succeeded);
    pipeline = pipeline.advance(Response::Exists);
    assert_eq!(pipeline.action(), Action::Emit { event: completed("main") });
    pipeline = pipeline.advance(Response::Failed { cause: "closed".to_string() });
    assert_eq!(
        pipeline.action(),
        Action::Finish { outcome: Err(LoadError::ProgressChannelClosed) }
    );
}

#[test]
fn a_taken_staging_path_is_store_already_exists() {
    let mut world = World::new();
    world.stores.insert("/cache/database/t1-abc123.partial".to_string(), Vec::new());
    assert_eq!(world.load("main"), Err(LoadError::StoreAlreadyExists));
    assert_eq!(world.asked_for("RemoveStaging"), 0);
    assert_eq!(world.stores.len(), 1);
    assert_eq!(world.workspaces, 0);
}

#[test]
fn unlistable_workspace_fails_ingestion() {
    let mut pipeline = pipeline_for("main", "t1");
    for response in [
        Response::Succeeded,
        Response::Succeeded,
        Response::Absent,
        Response::Succeeded,
        Response::Candidates { identifiers: strings(&["abc123"]) },
        Response::Succeeded,
        Response::Absent,
        Response::Succeeded,
    ] {
        pipeline = pipeline.advance(response);
    }
    assert_eq!(pipeline.action(), Action::ListWorkspace);
    pipeline = pipeline.advance(Response::Failed { cause: "unreadable".to_string() });
    pipeline = pipeline.advance(Response::Succeeded);
    assert_eq!(
        pipeline.action(),
        Action::Finish {
            outcome: Err(LoadError::IngestBatchFailed {
                file: String::new(),
                cause: "unreadable".to_string(),
            })
        }
    );
}

#[test]
fn a_workspace_without_definition_files_gives_an_empty_store() {
    let mut world = World::new();
    world.tree = vec!["README.md"];
    assert_eq!(world.load("main"), Ok("abc123".to_string()));
    assert_eq!(world.stores[&path_for(CACHE, "abc123")], Vec::<String>::new());
    assert_eq!(world.batches, 0);
}

#[test]
fn cached_reference_is_served_at_once() {
    let mut world = World::new();
    world.stores.insert(path_for(CACHE, "main"), Vec::new());
    assert_eq!(world.load("main"), Ok("main".to_string()));
    assert_eq!(world.events, vec![LoadOptionsEvent::Started, completed("main")]);
    assert_eq!(world.clones, 0);
}

#[test]
fn a_finished_pipeline_stays_finished() {
    let mut world = World::new();
    world.directory_ok = false;
    let mut pipeline = pipeline_for("main", "t1");
    while !pipeline.is_finished() {
        let response = world.perform(&pipeline.action());
        pipeline = pipeline.advance(response);
    }
    let before = pipeline.action();
    pipeline = pipeline.advance(Response::Succeeded);
    pipeline = pipeline.advance(Response::Exists);
    assert!(pipeline.is_finished());
    assert_eq!(pipeline.action(), before);
}

#[test]
fn events_are_always_a_beginning_of_the_full_sequence() {
    let full = [LoadOptionsEvent::Started, LoadOptionsEvent::Cloning, LoadOptionsEvent::Loading];
    let answers = [
        Response::Succeeded,
        Response::Exists,
        Response::Absent,
        Response::Failed { cause: "x".to_string() },
        Response::Candidates { identifiers: strings(&["abc123"]) },
        Response::Listing { files: strings(&["a.def"]) },
    ];
    let mut seed: u64 = 12345;
    for _ in 0..2000 {
        let mut pipeline = pipeline_for("main", "t1");
        let mut events = Vec::new();
        let mut steps = 0;
        while !pipeline.is_finished() {
            steps += 1;
            assert!(steps < 100);
            seed = seed.wrapping_mul(6364136223846793005).wrapping_add(1442695040888963407);
            let response = answers[((seed >> 33) % 6) as usize].clone();
            if let Action::Emit { event } = pipeline.action() {
                if response == Response::Succeeded {
                    events.push(event);
                }
            }
            pipeline = pipeline.advance(response);
        }
        let outcome = match pipeline.action() {
            Action::Finish { outcome } => outcome,
            other => panic!("not finished: {:?}", other),
        };
        let (progress, last) = match &outcome {
            Ok(identifier) => {
                assert_eq!(events.last(), Some(&completed(identifier)));
                (&events[..events.len() - 1], 1)
            }
            Err(_) => (&events[..], 0),
        };
        assert_eq!(events.iter().filter(|e| matches!(e, LoadOptionsEvent::Completed { .. })).count(), last);
        if progress.len() == 1 && last == 1 {
            assert_eq!(progress, &full[..1]);
        } else {
            assert!(progress.len() <= 3);
            assert_eq!(progress, &full[..progress.len()]);
            assert!(last == 0 || progress.len() >= 2);
        }
    }
}

#[test]
fn a_reference_is_not_empty() {
    assert_eq!(RevisionReference::new(""), None);
    assert_eq!(RevisionReference::new("main").unwrap().as_str(), "main");
    assert_eq!(RevisionReference::new(" ").unwrap().as_str(), " ");
}

fn up_to_the_store() -> Pipeline {
    let mut pipeline = pipeline_for("main", "t1");
    for response in [
        Response::Succeeded,
        Response::Succeeded,
        Response::Absent,
        Response::Succeeded,
        Response::Candidates { identifiers: strings(&["abc123"]) },
        Response::Succeeded,
        Response::Absent,
        Response::Succeeded,
        Response::Listing { files: strings(&["b.def", "a.def"]) },
    ] {
        pipeline = pipeline.advance(response);
    }
    pipeline
}

#[test]
fn a_store_that_cannot_be_created_is_an_unwritable_cache() {
    let mut pipeline = up_to_the_store();
    assert_eq!(
        pipeline.action(),
        Action::CreateStore { path: "/cache/database/t1-abc123.partial".to_string() }
    );
    pipeline = pipeline.advance(Response::Failed { cause: "disk full".to_string() });
    assert_eq!(pipeline.action(), Action::DiscardWorkspace);
    pipeline = pipeline.advance(Response::Succeeded);
    assert_eq!(pipeline.action(), Action::Finish { outcome: Err(LoadError::CacheDirUnwritable) });
}

#[test]
fn a_store_that_cannot_be_published_is_removed() {
    let mut pipeline = up_to_the_store();
    for _ in 0..3 {
        pipeline = pipeline.advance(Response::Succeeded);
    }
    assert_eq!(pipeline.stage(), Stage::Publishing);
    pipeline = pipeline.advance(Response::Failed { cause: "read-only".to_string() });
    assert_eq!(
        pipeline.action(),
        Action::RemoveStaging { path: "/cache/database/t1-abc123.partial".to_string() }
    );
    pipeline = pipeline.advance(Response::Failed { cause: "read-only".to_string() });
    assert_eq!(pipeline.action(), Action::DiscardWorkspace);
    pipeline = pipeline.advance(Response::Succeeded);
    assert_eq!(pipeline.action(), Action::Finish { outcome: Err(LoadError::CacheDirUnwritable) });
}

#[test]
fn an_answer_that_fits_no_question_counts_as_a_failure() {
    let mut pipeline = pipeline_for("main", "t1");
    pipeline = pipeline.advance(Response::Listing { files: Vec::new() });
    assert_eq!(
        pipeline.action(),
        Action::Finish { outcome: Err(LoadError::ProgressChannelClosed) }
    );
    let mut pipeline = pipeline_for("main", "t1");
    pipeline = pipeline.advance(Response::Succeeded);
    pipeline = pipeline.advance(Response::Succeeded);
    pipeline = pipeline.advance(Response::Succeeded);
    assert_eq!(pipeline.stage(), Stage::AnnouncingClone);
    pipeline = pipeline.advance(Response::Succeeded);
    pipeline = pipeline.advance(Response::Exists);
    assert_eq!(pipeline.action(), Action::DiscardWorkspace);
    pipeline = pipeline.advance(Response::Succeeded);
    assert_eq!(pipeline.action(), Action::Finish { outcome: Err(LoadError::RemoteUnavailable) });
}

#[test]
fn an_empty_reference_begins_no_load() {
    assert_eq!(Pipeline::begin(CACHE, "", "t1", "def").err(), Some(LoadError::UnknownReference));
}

#[test]
fn a_written_reference_begins_a_load() {
    let pipeline = Pipeline::begin(CACHE, "main", "t1", "def").unwrap();
    assert_eq!(pipeline.stage(), Stage::AnnouncingStart);
    let mut world = World::new();
    let mut pipeline = pipeline;
    while !pipeline.is_finished() {
        let response = world.perform(&pipeline.action());
        pipeline = pipeline.advance(response);
    }
    assert_eq!(pipeline.action(), Action::Finish { outcome: Ok("abc123".to_string()) });
    assert_eq!(
        world.asked[2],
        format!("{:?}", Action::Lookup { path: "/cache/database/main.store".to_string() })
    );
}

fn shown(reference: &str, lines: &[&str]) -> Error {
    Error::new(format!("failed to load options for {reference}"), strings(lines))
}

#[test]
fn load_failures_are_shown_in_words() {
    assert_eq!(
        load_failure("main", &LoadError::RemoteUnavailable),
        shown("main", &["the remote repository is unavailable"])
    );
    assert_eq!(
        load_failure("v9", &LoadError::UnknownReference),
        shown("v9", &["the reference names nothing"])
    );
    assert_eq!(
        load_failure("v", &LoadError::AmbiguousReference),
        shown("v", &["the reference names more than one revision"])
    );
    assert_eq!(
        load_failure("main", &LoadError::CacheDirUnwritable),
        shown("main", &["the cache directory cannot be written"])
    );
    assert_eq!(
        load_failure("main", &LoadError::StoreAlreadyExists),
        shown("main", &["the store is already being written"])
    );
    assert_eq!(
        load_failure("", &LoadError::ProgressChannelClosed),
        shown("", &["the progress channel is closed"])
    );
}

#[test]
fn a_failed_batch_is_shown_with_its_file_and_cause() {
    let error = LoadError::IngestBatchFailed {
        file: "dir/b.def".to_string(),
        cause: "no such table: a".to_string(),
    };
    assert_eq!(
        load_failure("main", &error),
        shown("main", &["the statements of dir/b.def could not be applied", "no such table: a"])
    );
}
