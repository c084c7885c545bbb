//! Mod-repository synchronization engine for a game mod manager.
//!
//! The library classifies archive packages for multiplayer safety,
//! builds validated mod records from a pair of package folders,
//! keeps an observable ordered collection of those records, and
//! drives a debounced filesystem-watch state machine.

pub mod archive;
pub mod classifier;
pub mod jsonmeta;
pub mod mod_data;
pub mod model;
pub mod scanner;
pub mod settings;
pub mod text;
pub mod watcher;
