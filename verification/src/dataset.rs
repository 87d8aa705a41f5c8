//! Provisioning of versioned datasets: a revision of the remote dataset
//! repository is resolved to an identifier, loaded once into a local store that
//! the cache keeps under that identifier, and every stage is reported.

pub mod history;
pub mod ingest;
pub mod pipeline;
pub mod race;
pub mod reference;
pub mod runs;
pub mod safety;
pub mod store;
pub mod world;
