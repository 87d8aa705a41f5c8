//! The load of one dataset, as a machine that decides and never acts.
//!
//! A [`Pipeline`] always has one pending [`Action`]. Whoever drives it performs
//! that action (sends the event, touches the disk, talks to the remote) and
//! hands back a [`Response`]; the pipeline then moves to its next stage. The
//! last action is [`Action::Finish`], which carries the outcome of the load.

use vstd::prelude::*;
use crate::channel::{LoadOptionsEvent, LoadOptionsEventView};
use crate::dataset::ingest::{plan_ingestion, plan_of};
use crate::dataset::reference::RevisionReference;
use crate::dataset::store::{path_for, staging_path, staging_path_of, store_path};
use crate::error::{Error, ErrorView};
use crate::text::{joined, same_text, texts};
use vstd::string::StringExecFns;

verus! {

broadcast use vstd::string::group_string_axioms;

/// Why a load failed.
#[derive(Clone, Debug, PartialEq, Eq)]
pub enum LoadError {
    /// The remote repository could not be cloned or checked out.
    RemoteUnavailable,
    /// The reference names nothing in the remote history.
    UnknownReference,
    /// The reference names more than one point of the remote history.
    AmbiguousReference,
    /// The cache directory could not be created or written.
    CacheDirUnwritable,
    /// A store was already being written where this load was to write its own.
    StoreAlreadyExists,
    /// A definition file could not be applied to the store.
    IngestBatchFailed {
        /// The file whose statements failed; empty where the workspace could
        /// not even be listed.
        file: String,
        /// What the store said.
        cause: String,
    },
    /// The observer of the progress events is gone.
    ProgressChannelClosed,
}

/// What a [`LoadError`] holds, as mathematical values.
pub enum LoadErrorView {
    RemoteUnavailable,
    UnknownReference,
    AmbiguousReference,
    CacheDirUnwritable,
    StoreAlreadyExists,
    IngestBatchFailed { file: Seq<char>, cause: Seq<char> },
    ProgressChannelClosed,
}

impl View for LoadError {
    type V = LoadErrorView;

    open spec fn view(&self) -> LoadErrorView {
        match self {
            LoadError::RemoteUnavailable => LoadErrorView::RemoteUnavailable,
            LoadError::UnknownReference => LoadErrorView::UnknownReference,
            LoadError::AmbiguousReference => LoadErrorView::AmbiguousReference,
            LoadError::CacheDirUnwritable => LoadErrorView::CacheDirUnwritable,
            LoadError::StoreAlreadyExists => LoadErrorView::StoreAlreadyExists,
            LoadError::IngestBatchFailed { file, cause } => LoadErrorView::IngestBatchFailed {
                file: file@,
                cause: cause@,
            },
            LoadError::ProgressChannelClosed => LoadErrorView::ProgressChannelClosed,
        }
    }
}

impl LoadErrorView {
    /// What the user is told of the error, line by line.
    pub open spec fn descriptions(self) -> Seq<Seq<char>> {
        match self {
            LoadErrorView::RemoteUnavailable => seq!["the remote repository is unavailable"@],
            LoadErrorView::UnknownReference => seq!["the reference names nothing"@],
            LoadErrorView::AmbiguousReference => seq![
                "the reference names more than one revision"@,
            ],
            LoadErrorView::CacheDirUnwritable => seq!["the cache directory cannot be written"@],
            LoadErrorView::StoreAlreadyExists => seq!["the store is already being written"@],
            LoadErrorView::IngestBatchFailed { file, cause } => seq![
                "the statements of "@ + file + " could not be applied"@,
                cause,
            ],
            LoadErrorView::ProgressChannelClosed => seq!["the progress channel is closed"@],
        }
    }
}

/// The error that is shown when the load of `reference` has failed with
/// `error`.
pub fn load_failure(reference: &str, error: &LoadError) -> (out: Error)
    ensures
        out@ == (ErrorView {
            message: "failed to load options for "@ + reference@,
            errors: error@.descriptions(),
        }),
{
    let mut errors: Vec<String> = Vec::new();
    match error {
        LoadError::RemoteUnavailable => {
            errors.push("the remote repository is unavailable".to_string());
        },
        LoadError::UnknownReference => {
            errors.push("the reference names nothing".to_string());
        },
        LoadError::AmbiguousReference => {
            errors.push("the reference names more than one revision".to_string());
        },
        LoadError::CacheDirUnwritable => {
            errors.push("the cache directory cannot be written".to_string());
        },
        LoadError::StoreAlreadyExists => {
            errors.push("the store is already being written".to_string());
        },
        LoadError::IngestBatchFailed { file, cause } => {
            let mut line = joined("the statements of ", file.as_str());
            line.append(" could not be applied");
            errors.push(line);
            errors.push(cause.clone());
        },
        LoadError::ProgressChannelClosed => {
            errors.push("the progress channel is closed".to_string());
        },
    }
    assert(texts(errors@) =~= error@.descriptions());
    Error::new(joined("failed to load options for ", reference), errors)
}

/// How a load ended: the identifier under which the dataset can be opened, or
/// the reason why there is none.
pub type Outcome = Result<Seq<char>, LoadErrorView>;

/// The outcome as mathematical values.
pub open spec fn outcome_view(outcome: Result<String, LoadError>) -> Outcome {
    match outcome {
        Ok(identifier) => Ok(identifier@),
        Err(error) => Err(error@),
    }
}

/// What the pipeline asks its driver to do.
#[derive(Debug, PartialEq, Eq)]
pub enum Action {
    /// Send this event to the observer.
    Emit { event: LoadOptionsEvent },
    /// Make sure that the cache directory exists.
    EnsureCacheDir { path: String },
    /// Say whether a store lies at this path.
    Lookup { path: String },
    /// Clone the remote repository into a fresh workspace and name every
    /// point of its history that the reference stands for.
    CloneAndResolve { reference: String },
    /// Check the workspace out at this identifier, detached.
    Checkout { identifier: String },
    /// List the files of the workspace, by their paths below its root.
    ListWorkspace,
    /// Create a new, empty store at this path, and fail if the path is taken.
    CreateStore { path: String },
    /// Apply the statements of this file of the workspace to the store at
    /// this path, as one batch.
    ApplyBatch { store: String, file: String },
    /// Move the complete store to its place in the cache, unless that place
    /// is taken.
    Publish { from: String, to: String },
    /// Delete the store at this staging path.
    RemoveStaging { path: String },
    /// Delete the workspace.
    DiscardWorkspace,
    /// Nothing is left to do: the load has ended with this outcome.
    Finish { outcome: Result<String, LoadError> },
}

/// What an [`Action`] holds, as mathematical values.
pub enum ActionView {
    Emit { event: LoadOptionsEventView },
    EnsureCacheDir { path: Seq<char> },
    Lookup { path: Seq<char> },
    CloneAndResolve { reference: Seq<char> },
    Checkout { identifier: Seq<char> },
    ListWorkspace,
    CreateStore { path: Seq<char> },
    ApplyBatch { store: Seq<char>, file: Seq<char> },
    Publish { from: Seq<char>, to: Seq<char> },
    RemoveStaging { path: Seq<char> },
    DiscardWorkspace,
    Finish { outcome: Outcome },
}

impl View for Action {
    type V = ActionView;

    open spec fn view(&self) -> ActionView {
        match self {
            Action::Emit { event } => ActionView::Emit { event: event@ },
            Action::EnsureCacheDir { path } => ActionView::EnsureCacheDir { path: path@ },
            Action::Lookup { path } => ActionView::Lookup { path: path@ },
            Action::CloneAndResolve { reference } => ActionView::CloneAndResolve {
                reference: reference@,
            },
            Action::Checkout { identifier } => ActionView::Checkout { identifier: identifier@ },
            Action::ListWorkspace => ActionView::ListWorkspace,
            Action::CreateStore { path } => ActionView::CreateStore { path: path@ },
            Action::ApplyBatch { store, file } => ActionView::ApplyBatch {
                store: store@,
                file: file@,
            },
            Action::Publish { from, to } => ActionView::Publish { from: from@, to: to@ },
            Action::RemoveStaging { path } => ActionView::RemoveStaging { path: path@ },
            Action::DiscardWorkspace => ActionView::DiscardWorkspace,
            Action::Finish { outcome } => ActionView::Finish { outcome: outcome_view(*outcome) },
        }
    }
}

/// What came of an action.
#[derive(Clone, Debug, PartialEq, Eq)]
pub enum Response {
    /// The action was done.
    Succeeded,
    /// What was looked for is there; what was to be created was there
    /// already.
    Exists,
    /// What was looked for is not there.
    Absent,
    /// The action could not be done.
    Failed { cause: String },
    /// The points of the remote history that the reference stands for.
    Candidates { identifiers: Vec<String> },
    /// The files of the workspace.
    Listing { files: Vec<String> },
}

/// What a [`Response`] holds, as mathematical values.
pub enum ResponseView {
    Succeeded,
    Exists,
    Absent,
    Failed { cause: Seq<char> },
    Candidates { identifiers: Seq<Seq<char>> },
    Listing { files: Seq<Seq<char>> },
}

impl View for Response {
    type V = ResponseView;

    open spec fn view(&self) -> ResponseView {
        match self {
            Response::Succeeded => ResponseView::Succeeded,
            Response::Exists => ResponseView::Exists,
            Response::Absent => ResponseView::Absent,
            Response::Failed { cause } => ResponseView::Failed { cause: cause@ },
            Response::Candidates { identifiers } => ResponseView::Candidates {
                identifiers: texts(identifiers@),
            },
            Response::Listing { files } => ResponseView::Listing { files: texts(files@) },
        }
    }
}

/// Where a load stands. Each stage waits for the response to one action.
#[derive(Clone, Copy, Debug, PartialEq, Eq, Structural)]
pub enum Stage {
    /// Sending `Started`.
    AnnouncingStart,
    /// Making sure that the cache directory exists.
    EnsuringCacheDir,
    /// Looking for a store under the reference as it was given.
    FastLookup,
    /// Sending `Cloning`.
    AnnouncingClone,
    /// Cloning the remote and resolving the reference.
    Resolving,
    /// Checking the workspace out at the resolved identifier.
    CheckingOut,
    /// Looking for a store under the resolved identifier.
    CanonicalLookup,
    /// Sending `Loading`.
    AnnouncingLoad,
    /// Listing the files of the workspace.
    Listing,
    /// Creating the store at its staging path.
    CreatingStore,
    /// Applying the definition files, one after the other.
    Applying,
    /// Moving the complete store to its place in the cache.
    Publishing,
    /// Deleting the staging store.
    RemovingStaging,
    /// Deleting the workspace.
    Discarding,
    /// Sending `Completed`.
    AnnouncingCompletion,
    /// The load has ended.
    Finished,
}

/// The state of a load, as mathematical values.
pub struct PipelineView {
    /// Where the load stands.
    pub stage: Stage,
    /// The directory of the cache.
    pub cache_dir: Seq<char>,
    /// The reference that is to be loaded.
    pub reference: Seq<char>,
    /// What tells this load's staging store from those of other loads.
    pub tag: Seq<char>,
    /// The extension of the definition files.
    pub extension: Seq<char>,
    /// The identifier that the reference resolved to, once it has.
    pub resolved: Option<Seq<char>>,
    /// The definition files, in the order in which they are applied.
    pub plan: Seq<Seq<char>>,
    /// How many files of the plan have been applied.
    pub position: nat,
    /// Why the load fails, once it is known to.
    pub verdict: Option<LoadErrorView>,
}

/// What the candidates for a reference resolve to: the one point of history
/// that all of them name, if there is exactly one.
pub open spec fn resolution(candidates: Seq<Seq<char>>) -> Outcome {
    if candidates.len() == 0 {
        Err(LoadErrorView::UnknownReference)
    } else if forall|i: int| 0 <= i < candidates.len() ==> #[trigger] candidates[i] == candidates[0] {
        Ok(candidates[0])
    } else {
        Err(LoadErrorView::AmbiguousReference)
    }
}

/// The cause that a response gives for a failure.
pub open spec fn cause_of(response: ResponseView) -> Seq<char> {
    match response {
        ResponseView::Failed { cause } => cause,
        _ => Seq::empty(),
    }
}

impl PipelineView {
    /// The state in which a load begins.
    pub open spec fn start(
        cache_dir: Seq<char>,
        reference: Seq<char>,
        tag: Seq<char>,
        extension: Seq<char>,
    ) -> PipelineView {
        PipelineView {
            stage: Stage::AnnouncingStart,
            cache_dir,
            reference,
            tag,
            extension,
            resolved: None,
            plan: Seq::empty(),
            position: 0,
            verdict: None,
        }
    }

    /// The identifier under which the dataset is served: the resolved
    /// identifier, or the reference itself where the cache knew it.
    pub open spec fn served(self) -> Seq<char> {
        match self.resolved {
            Some(identifier) => identifier,
            None => self.reference,
        }
    }

    /// The path of the store in the cache.
    pub open spec fn destination(self) -> Seq<char> {
        store_path(self.cache_dir, self.served())
    }

    /// The path at which the store is written.
    pub open spec fn staging(self) -> Seq<char> {
        staging_path_of(self.cache_dir, self.served(), self.tag)
    }

    /// The outcome that the load has, once it has ended.
    pub open spec fn outcome(self) -> Outcome {
        match self.verdict {
            Some(error) => Err(error),
            None => Ok(self.served()),
        }
    }

    /// Whether the state can arise: while files are applied, one is left to
    /// apply.
    pub open spec fn well_formed(self) -> bool {
        self.stage == Stage::Applying ==> self.position < self.plan.len()
    }

    /// This state, at another stage.
    pub open spec fn at(self, stage: Stage) -> PipelineView {
        PipelineView { stage, ..self }
    }

    /// This state, failing with `error` once `stage` is dealt with.
    pub open spec fn failing(self, error: LoadErrorView, stage: Stage) -> PipelineView {
        PipelineView { stage, verdict: Some(error), ..self }
    }

    /// The action that the load waits for.
    pub open spec fn pending(self) -> ActionView {
        match self.stage {
            Stage::AnnouncingStart => ActionView::Emit { event: LoadOptionsEventView::Started },
            Stage::EnsuringCacheDir => ActionView::EnsureCacheDir { path: self.cache_dir },
            Stage::FastLookup => ActionView::Lookup {
                path: store_path(self.cache_dir, self.reference),
            },
            Stage::AnnouncingClone => ActionView::Emit { event: LoadOptionsEventView::Cloning },
            Stage::Resolving => ActionView::CloneAndResolve { reference: self.reference },
            Stage::CheckingOut => ActionView::Checkout { identifier: self.served() },
            Stage::CanonicalLookup => ActionView::Lookup { path: self.destination() },
            Stage::AnnouncingLoad => ActionView::Emit { event: LoadOptionsEventView::Loading },
            Stage::Listing => ActionView::ListWorkspace,
            Stage::CreatingStore => ActionView::CreateStore { path: self.staging() },
            Stage::Applying => ActionView::ApplyBatch {
                store: self.staging(),
                file: self.plan[self.position as int],
            },
            Stage::Publishing => ActionView::Publish {
                from: self.staging(),
                to: self.destination(),
            },
            Stage::RemovingStaging => ActionView::RemoveStaging { path: self.staging() },
            Stage::Discarding => ActionView::DiscardWorkspace,
            Stage::AnnouncingCompletion => ActionView::Emit {
                event: LoadOptionsEventView::Completed { identifier: self.served() },
            },
            Stage::Finished => ActionView::Finish { outcome: self.outcome() },
        }
    }

    /// The state after `response` to the pending action.
    ///
    /// A response that the action cannot have counts as the action's failure
    /// (for a lookup: as a miss), so every response moves the load on.
    pub open spec fn advance(self, response: ResponseView) -> PipelineView {
        match self.stage {
            Stage::AnnouncingStart => if response is Succeeded {
                self.at(Stage::EnsuringCacheDir)
            } else {
                self.failing(LoadErrorView::ProgressChannelClosed, Stage::Finished)
            },
            Stage::EnsuringCacheDir => if response is Succeeded || response is Exists {
                self.at(Stage::FastLookup)
            } else {
                self.failing(LoadErrorView::CacheDirUnwritable, Stage::Finished)
            },
            Stage::FastLookup => if response is Exists {
                self.at(Stage::AnnouncingCompletion)
            } else {
                self.at(Stage::AnnouncingClone)
            },
            Stage::AnnouncingClone => if response is Succeeded {
                self.at(Stage::Resolving)
            } else {
                self.failing(LoadErrorView::ProgressChannelClosed, Stage::Finished)
            },
            Stage::Resolving => match response {
                ResponseView::Candidates { identifiers } => match resolution(identifiers) {
                    Ok(identifier) => PipelineView {
                        stage: Stage::CheckingOut,
                        resolved: Some(identifier),
                        ..self
                    },
                    Err(error) => self.failing(error, Stage::Discarding),
                },
                _ => self.failing(LoadErrorView::RemoteUnavailable, Stage::Discarding),
            },
            Stage::CheckingOut => if response is Succeeded {
                self.at(Stage::CanonicalLookup)
            } else {
                self.failing(LoadErrorView::RemoteUnavailable, Stage::Discarding)
            },
            Stage::CanonicalLookup => if response is Exists {
                self.at(Stage::Discarding)
            } else {
                self.at(Stage::AnnouncingLoad)
            },
            Stage::AnnouncingLoad => if response is Succeeded {
                self.at(Stage::Listing)
            } else {
                self.failing(LoadErrorView::ProgressChannelClosed, Stage::Discarding)
            },
            Stage::Listing => match response {
                ResponseView::Listing { files } => PipelineView {
                    stage: Stage::CreatingStore,
                    plan: plan_of(files, self.extension),
                    position: 0,
                    ..self
                },
                _ => self.failing(
                    LoadErrorView::IngestBatchFailed {
                        file: Seq::empty(),
                        cause: cause_of(response),
                    },
                    Stage::Discarding,
                ),
            },
            Stage::CreatingStore => if response is Succeeded {
                if self.plan.len() == 0 {
                    PipelineView { stage: Stage::Publishing, position: 0, ..self }
                } else {
                    PipelineView { stage: Stage::Applying, position: 0, ..self }
                }
            } else if response is Exists {
                self.failing(LoadErrorView::StoreAlreadyExists, Stage::Discarding)
            } else {
                self.failing(LoadErrorView::CacheDirUnwritable, Stage::Discarding)
            },
            Stage::Applying => if response is Succeeded {
                if self.position + 1 < self.plan.len() {
                    PipelineView { position: self.position + 1, ..self }
                } else {
                    PipelineView { stage: Stage::Publishing, position: self.plan.len(), ..self }
                }
            } else {
                self.failing(
                    LoadErrorView::IngestBatchFailed {
                        file: self.plan[self.position as int],
                        cause: cause_of(response),
                    },
                    Stage::RemovingStaging,
                )
            },
            Stage::Publishing => if response is Succeeded {
                self.at(Stage::Discarding)
            } else if response is Exists {
                self.at(Stage::RemovingStaging)
            } else {
                self.failing(LoadErrorView::CacheDirUnwritable, Stage::RemovingStaging)
            },
            Stage::RemovingStaging => self.at(Stage::Discarding),
            Stage::Discarding => if self.verdict is Some {
                self.at(Stage::Finished)
            } else {
                self.at(Stage::AnnouncingCompletion)
            },
            Stage::AnnouncingCompletion => if response is Succeeded {
                self.at(Stage::Finished)
            } else {
                self.failing(LoadErrorView::ProgressChannelClosed, Stage::Finished)
            },
            Stage::Finished => self,
        }
    }
}

/// A state that can arise stays one that can arise, whatever the response.
pub proof fn advance_keeps_well_formed(state: PipelineView, response: ResponseView)
    requires
        state.well_formed(),
    ensures
        state.advance(response).well_formed(),
{
}

/// What the candidates for a reference resolve to.
pub fn resolve(candidates: &Vec<String>) -> (out: Result<String, LoadError>)
    ensures
        outcome_view(out) == resolution(texts(candidates@)),
{
    if candidates.len() == 0 {
        return Err(LoadError::UnknownReference);
    }
    let mut i: usize = 1;
    while i < candidates.len()
        invariant
            1 <= i <= candidates.len(),
            forall|k: int| 0 <= k < i ==> #[trigger] texts(candidates@)[k] == texts(candidates@)[0],
        decreases candidates.len() - i,
    {
        if !same_text(candidates[i].as_str(), candidates[0].as_str()) {
            assert(texts(candidates@)[i as int] != texts(candidates@)[0]);
            return Err(LoadError::AmbiguousReference);
        }
        i = i + 1;
    }
    Ok(candidates[0].clone())
}

/// The load of one dataset.
#[derive(Debug)]
pub struct Pipeline {
    stage: Stage,
    cache_dir: String,
    reference: String,
    tag: String,
    extension: String,
    resolved: Option<String>,
    plan: Vec<String>,
    position: usize,
    verdict: Option<LoadError>,
}

impl View for Pipeline {
    type V = PipelineView;

    closed spec fn view(&self) -> PipelineView {
        PipelineView {
            stage: self.stage,
            cache_dir: self.cache_dir@,
            reference: self.reference@,
            tag: self.tag@,
            extension: self.extension@,
            resolved: match self.resolved {
                Some(identifier) => Some(identifier@),
                None => None,
            },
            plan: texts(self.plan@),
            position: self.position as nat,
            verdict: match self.verdict {
                Some(error) => Some(error@),
                None => None,
            },
        }
    }
}

impl Pipeline {
    #[verifier::type_invariant]
    spec fn can_arise(self) -> bool {
        self@.well_formed()
    }

    /// A load of `reference` into the cache at `cache_dir`. The staging store
    /// of this load carries `tag` in its name; the definition files are those
    /// with `extension`.
    pub fn new(
        cache_dir: &str,
        reference: &RevisionReference,
        tag: &str,
        extension: &str,
    ) -> (out: Self)
        ensures
            out@ == PipelineView::start(cache_dir@, reference@, tag@, extension@),
    {
        let plan: Vec<String> = Vec::new();
        assert(texts(plan@) =~= Seq::<Seq<char>>::empty());
        Pipeline {
            stage: Stage::AnnouncingStart,
            cache_dir: cache_dir.to_string(),
            reference: reference.as_str().to_string(),
            tag: tag.to_string(),
            extension: extension.to_string(),
            resolved: None,
            plan,
            position: 0,
            verdict: None,
        }
    }

    /// A load of the reference that `reference` writes, as [`Pipeline::new`]
    /// makes it. An empty text names nothing: no load begins, and that is an
    /// unknown reference.
    pub fn begin(cache_dir: &str, reference: &str, tag: &str, extension: &str) -> (out: Result<
        Self,
        LoadError,
    >)
        ensures
            match out {
                Ok(load) => reference@.len() > 0 && load@ == PipelineView::start(
                    cache_dir@,
                    reference@,
                    tag@,
                    extension@,
                ),
                Err(error) => reference@.len() == 0 && error@ == LoadErrorView::UnknownReference,
            },
    {
        match RevisionReference::new(reference) {
            Some(given) => Ok(Pipeline::new(cache_dir, &given, tag, extension)),
            None => Err(LoadError::UnknownReference),
        }
    }

    /// Where the load stands.
    pub fn stage(&self) -> (out: Stage)
        ensures
            out == self@.stage,
    {
        self.stage
    }

    /// Whether the load has ended.
    pub fn is_finished(&self) -> (out: bool)
        ensures
            out == (self@.stage == Stage::Finished),
    {
        self.stage == Stage::Finished
    }

    fn served(&self) -> (out: String)
        ensures
            out@ == self@.served(),
    {
        match &self.resolved {
            Some(identifier) => identifier.clone(),
            None => self.reference.clone(),
        }
    }

    fn outcome(&self) -> (out: Result<String, LoadError>)
        ensures
            outcome_view(out) == self@.outcome(),
    {
        match &self.verdict {
            Some(error) => Err(copy_of(error)),
            None => Ok(self.served()),
        }
    }

    /// The action that the load waits for.
    pub fn action(&self) -> (out: Action)
        ensures
            out@ == self@.pending(),
    {
        proof {
            use_type_invariant(self);
        }
        let served = self.served();
        match self.stage {
            Stage::AnnouncingStart => Action::Emit { event: LoadOptionsEvent::Started },
            Stage::EnsuringCacheDir => Action::EnsureCacheDir { path: self.cache_dir.clone() },
            Stage::FastLookup => Action::Lookup {
                path: path_for(self.cache_dir.as_str(), self.reference.as_str()),
            },
            Stage::AnnouncingClone => Action::Emit { event: LoadOptionsEvent::Cloning },
            Stage::Resolving => Action::CloneAndResolve { reference: self.reference.clone() },
            Stage::CheckingOut => Action::Checkout { identifier: served },
            Stage::CanonicalLookup => Action::Lookup {
                path: path_for(self.cache_dir.as_str(), served.as_str()),
            },
            Stage::AnnouncingLoad => Action::Emit { event: LoadOptionsEvent::Loading },
            Stage::Listing => Action::ListWorkspace,
            Stage::CreatingStore => Action::CreateStore {
                path: staging_path(self.cache_dir.as_str(), served.as_str(), self.tag.as_str()),
            },
            Stage::Applying => Action::ApplyBatch {
                store: staging_path(self.cache_dir.as_str(), served.as_str(), self.tag.as_str()),
                file: self.plan[self.position].clone(),
            },
            Stage::Publishing => Action::Publish {
                from: staging_path(self.cache_dir.as_str(), served.as_str(), self.tag.as_str()),
                to: path_for(self.cache_dir.as_str(), served.as_str()),
            },
            Stage::RemovingStaging => Action::RemoveStaging {
                path: staging_path(self.cache_dir.as_str(), served.as_str(), self.tag.as_str()),
            },
            Stage::Discarding => Action::DiscardWorkspace,
            Stage::AnnouncingCompletion => Action::Emit {
                event: LoadOptionsEvent::Completed { identifier: served },
            },
            Stage::Finished => Action::Finish { outcome: self.outcome() },
        }
    }

    fn at(self, stage: Stage) -> (out: Self)
        requires
            stage != Stage::Applying,
        ensures
            out@ == self@.at(stage),
    {
        Pipeline {
            stage,
            cache_dir: self.cache_dir,
            reference: self.reference,
            tag: self.tag,
            extension: self.extension,
            resolved: self.resolved,
            plan: self.plan,
            position: self.position,
            verdict: self.verdict,
        }
    }

    fn failing(self, error: LoadError, stage: Stage) -> (out: Self)
        requires
            stage != Stage::Applying,
        ensures
            out@ == self@.failing(error@, stage),
    {
        Pipeline {
            stage,
            cache_dir: self.cache_dir,
            reference: self.reference,
            tag: self.tag,
            extension: self.extension,
            resolved: self.resolved,
            plan: self.plan,
            position: self.position,
            verdict: Some(error),
        }
    }

    /// The load after `response` to its pending action.
    pub fn advance(self, response: Response) -> (out: Self)
        ensures
            out@ == self@.advance(response@),
    {
        proof {
            use_type_invariant(&self);
        }
        match self.stage {
            Stage::AnnouncingStart => match response {
                Response::Succeeded => self.at(Stage::EnsuringCacheDir),
                _ => self.failing(LoadError::ProgressChannelClosed, Stage::Finished),
            },
            Stage::EnsuringCacheDir => match response {
                Response::Succeeded => self.at(Stage::FastLookup),
                Response::Exists => self.at(Stage::FastLookup),
                _ => self.failing(LoadError::CacheDirUnwritable, Stage::Finished),
            },
            Stage::FastLookup => match response {
                Response::Exists => self.at(Stage::AnnouncingCompletion),
                _ => self.at(Stage::AnnouncingClone),
            },
            Stage::AnnouncingClone => match response {
                Response::Succeeded => self.at(Stage::Resolving),
                _ => self.failing(LoadError::ProgressChannelClosed, Stage::Finished),
            },
            Stage::Resolving => match response {
                Response::Candidates { identifiers } => match resolve(&identifiers) {
                    Ok(identifier) => Pipeline {
                        stage: Stage::CheckingOut,
                        cache_dir: self.cache_dir,
                        reference: self.reference,
                        tag: self.tag,
                        extension: self.extension,
                        resolved: Some(identifier),
                        plan: self.plan,
                        position: self.position,
                        verdict: self.verdict,
                    },
                    Err(error) => self.failing(error, Stage::Discarding),
                },
                _ => self.failing(LoadError::RemoteUnavailable, Stage::Discarding),
            },
            Stage::CheckingOut => match response {
                Response::Succeeded => self.at(Stage::CanonicalLookup),
                _ => self.failing(LoadError::RemoteUnavailable, Stage::Discarding),
            },
            Stage::CanonicalLookup => match response {
                Response::Exists => self.at(Stage::Discarding),
                _ => self.at(Stage::AnnouncingLoad),
            },
            Stage::AnnouncingLoad => match response {
                Response::Succeeded => self.at(Stage::Listing),
                _ => self.failing(LoadError::ProgressChannelClosed, Stage::Discarding),
            },
            Stage::Listing => match response {
                Response::Listing { files } => {
                    let plan = plan_ingestion(&files, self.extension.as_str());
                    Pipeline {
                        stage: Stage::CreatingStore,
                        cache_dir: self.cache_dir,
                        reference: self.reference,
                        tag: self.tag,
                        extension: self.extension,
                        resolved: self.resolved,
                        plan,
                        position: 0,
                        verdict: self.verdict,
                    }
                },
                other => {
                    let cause = cause_text(other);
                    self.failing(
                        LoadError::IngestBatchFailed { file: String::new(), cause },
                        Stage::Discarding,
                    )
                },
            },
            Stage::CreatingStore => match response {
                Response::Succeeded => {
                    let stage = if self.plan.len() == 0 {
                        Stage::Publishing
                    } else {
                        Stage::Applying
                    };
                    Pipeline {
                        stage,
                        cache_dir: self.cache_dir,
                        reference: self.reference,
                        tag: self.tag,
                        extension: self.extension,
                        resolved: self.resolved,
                        plan: self.plan,
                        position: 0,
                        verdict: self.verdict,
                    }
                },
                Response::Exists => self.failing(LoadError::StoreAlreadyExists, Stage::Discarding),
                _ => self.failing(LoadError::CacheDirUnwritable, Stage::Discarding),
            },
            Stage::Applying => match response {
                Response::Succeeded => {
                    assert(texts(self.plan@).len() == self.plan@.len());
                    assert(self.position < self.plan.len());
                    let last = self.position + 1 >= self.plan.len();
                    let stage = if last {
                        Stage::Publishing
                    } else {
                        Stage::Applying
                    };
                    let position = self.position + 1;
                    Pipeline {
                        stage,
                        cache_dir: self.cache_dir,
                        reference: self.reference,
                        tag: self.tag,
                        extension: self.extension,
                        resolved: self.resolved,
                        plan: self.plan,
                        position,
                        verdict: self.verdict,
                    }
                },
                other => {
                    let cause = cause_text(other);
                    let file = self.plan[self.position].clone();
                    self.failing(
                        LoadError::IngestBatchFailed { file, cause },
                        Stage::RemovingStaging,
                    )
                },
            },
            Stage::Publishing => match response {
                Response::Succeeded => self.at(Stage::Discarding),
                Response::Exists => self.at(Stage::RemovingStaging),
                _ => self.failing(LoadError::CacheDirUnwritable, Stage::RemovingStaging),
            },
            Stage::RemovingStaging => self.at(Stage::Discarding),
            Stage::Discarding => {
                if self.verdict.is_some() {
                    self.at(Stage::Finished)
                } else {
                    self.at(Stage::AnnouncingCompletion)
                }
            },
            Stage::AnnouncingCompletion => match response {
                Response::Succeeded => self.at(Stage::Finished),
                _ => self.failing(LoadError::ProgressChannelClosed, Stage::Finished),
            },
            Stage::Finished => self,
        }
    }
}

/// The cause that a response gives for a failure.
fn cause_text(response: Response) -> (out: String)
    ensures
        out@ == cause_of(response@),
{
    match response {
        Response::Failed { cause } => cause,
        _ => String::new(),
    }
}

/// An error equal to `error`.
fn copy_of(error: &LoadError) -> (out: LoadError)
    ensures
        out@ == error@,
{
    match error {
        LoadError::RemoteUnavailable => LoadError::RemoteUnavailable,
        LoadError::UnknownReference => LoadError::UnknownReference,
        LoadError::AmbiguousReference => LoadError::AmbiguousReference,
        LoadError::CacheDirUnwritable => LoadError::CacheDirUnwritable,
        LoadError::StoreAlreadyExists => LoadError::StoreAlreadyExists,
        LoadError::IngestBatchFailed { file, cause } => LoadError::IngestBatchFailed {
            file: file.clone(),
            cause: cause.clone(),
        },
        LoadError::ProgressChannelClosed => LoadError::ProgressChannelClosed,
    }
}

} // verus!
