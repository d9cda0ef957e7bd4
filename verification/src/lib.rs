//! Short-link allocation for a static redirect site kept in a Git repository.
//!
//! The library chooses short names, renders redirect pages and index entries,
//! plans commits, and sequences one allocation cycle as a state machine whose
//! actions are carried out by the caller.

pub mod artifact;
pub mod commit;
pub mod config;
pub mod ledger;
pub mod link;
pub mod name;
pub mod run;
pub mod site;
pub mod target;
