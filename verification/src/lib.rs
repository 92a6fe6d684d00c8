//! Sequential ID allocation and ownership-gated creation of child records
//! (tasks attached to quests, questions attached to quizzes) against a
//! document store.
//!
//! The allocator reconciles an in-process cached counter with the largest ID
//! present in the store, so that IDs stay unique and monotone even when the
//! cache is stale. The creation protocol gates every insert behind parent
//! resolution and an ownership check, aborting with no visible effect on any
//! failure.

pub mod counter;
pub mod errors;
pub mod felt;
pub mod records;
pub mod protocol;
pub mod store;
