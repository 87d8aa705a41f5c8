//! Progress reports of a dataset load, in the order in which they are sent.

use vstd::prelude::*;

verus! {

/// One stage in the life of a dataset load.
#[derive(Clone, Debug, PartialEq, Eq)]
pub enum LoadOptionsEvent {
    /// The load has started.
    Started,
    /// The remote repository is being cloned and checked out.
    Cloning,
    /// The definition files are being loaded into a new store.
    Loading,
    /// The load is complete.
    Completed {
        /// The identifier under which the dataset can now be opened.
        identifier: String,
    },
}

/// What a [`LoadOptionsEvent`] holds, as mathematical values.
pub enum LoadOptionsEventView {
    Started,
    Cloning,
    Loading,
    Completed { identifier: Seq<char> },
}

impl View for LoadOptionsEvent {
    type V = LoadOptionsEventView;

    open spec fn view(&self) -> LoadOptionsEventView {
        match self {
            LoadOptionsEvent::Started => LoadOptionsEventView::Started,
            LoadOptionsEvent::Cloning => LoadOptionsEventView::Cloning,
            LoadOptionsEvent::Loading => LoadOptionsEventView::Loading,
            LoadOptionsEvent::Completed { identifier } => LoadOptionsEventView::Completed {
                identifier: identifier@,
            },
        }
    }
}

} // verus!
