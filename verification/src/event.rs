//! Events that the backend sends to the window.

use vstd::prelude::*;
use crate::error::Error;

verus! {

/// Tells the window to show an error.
#[derive(Clone, Debug, PartialEq, Eq)]
pub struct ErrorMessage(pub Error);

/// Asks the window to start a new graph.
#[derive(Clone, Copy, Debug, PartialEq, Eq)]
pub struct NewGraph;

/// Asks the window to open a graph.
#[derive(Clone, Copy, Debug, PartialEq, Eq)]
pub struct OpenGraph;

/// Asks the window to save the graph to its file.
#[derive(Clone, Copy, Debug, PartialEq, Eq)]
pub struct SaveGraph;

/// Asks the window to save the graph to a file that the user picks.
#[derive(Clone, Copy, Debug, PartialEq, Eq)]
pub struct SaveAsGraph;

/// Asks the window to close the graph.
#[derive(Clone, Copy, Debug, PartialEq, Eq)]
pub struct CloseGraph;

} // verus!
