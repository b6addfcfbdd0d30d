//! Core of a publication server: the versioned registry of publishers, the
//! queue of pending background work, and the policy that turns queued work
//! into workflows for the scheduler.
pub mod uri;
pub mod publisher_list;
pub mod event_queue;
pub mod scheduler;
