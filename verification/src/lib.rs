//! A small backend library for managing automation bots, the tasks they run,
//! and the social sources they draw from.
//!
//! Records live in an in-memory document store ([`store::Db`]). List and
//! detail queries are expressed as sparse per-resource filters that match on
//! exact field equality; partial updates are applied by explicit merge
//! policies; and creating a bot or a task runs a hydration step that
//! validates the request (against the verdict of the external social
//! platform, or against the task-type catalog) before anything is persisted.

pub mod config;
pub mod errors;
pub mod ids;
pub mod platform;
pub mod text;
pub mod bots;
pub mod tasks;
pub mod sources;
pub mod laws;
pub mod store;

use vstd::prelude::*;

verus! {

/// Outcome of removing records by filter: how many records were removed.
pub struct DeleteResult {
    pub deleted_count: u64,
}

} // verus!
