//! State-change detection and notification pipeline for a facility whose
//! open/closed status is published by a remote endpoint.
//!
//! The crate holds the decisions of one reconciliation cycle: how a fetched
//! reading becomes a status, how it is compared with the last persisted
//! observation, who the change is attributed to, how the notification reads,
//! and how it is fanned out. Network, database and messaging work is left to
//! the caller, who performs the requests that the state machine hands out.

pub mod clock;
pub mod model;
pub mod remote;
pub mod attribution;
pub mod message;
pub mod state_store;
pub mod subscriber_store;
pub mod notifier;
pub mod reconciler;
pub mod onboarding;
pub mod cycle;
pub mod config;
