//! Live status tracking for agent sessions.
//!
//! Hook events report what a session and its agents are doing. This crate
//! derives their status from those events, keeps it in a store whose
//! conditional updates never overwrite a status that waits for the user,
//! lists what observers are to see, and sweeps out completed sessions after
//! a retention time. Everything here is verified; what is taken on trust
//! from other crates is marked where it stands.
//!
//! - `models`: statuses, sessions, agents, logged events, hook events.
//! - `stamp`: the identifier and the time that a write is made with.
//! - `tables`: the three tables as mathematical values, and every operation
//!   on them.
//! - `db`: the store that holds the tables in memory.
//! - `rows`: reading rows that another storage engine hands back as text.
//! - `api`: from a hook event to its writes and to the snapshot to publish.
//! - `ws`: the lifecycle of one subscriber.
//! - `config`: the constants that a deployment starts from.
//! - `laws`, `isolation`, `invariants`, `lookup`, `filters`: what holds of
//!   all of it.

pub mod api;
pub mod config;
pub mod db;
pub mod filters;
pub mod invariants;
pub mod isolation;
pub mod laws;
pub mod lookup;
pub mod models;
pub mod rows;
pub mod stamp;
pub mod tables;
pub mod ws;
