//! Backend logic of the `FFgraph` desktop application: the catalogue of global
//! options, error values, the menu's layout, the framing of graph files, and
//! the provisioning of versioned datasets into a local cache.

pub mod channel;
pub mod command;
pub mod dataset;
pub mod error;
pub mod event;
pub mod graph;
pub mod menu;
pub mod options;
pub mod state;
pub mod text;
