//! Core logic of an application auto-update flow: the policy deciding whether
//! a startup update check runs at all, the bookkeeping of download progress,
//! and the state machine that sequences one update attempt
//! (checking, then no-update / check-failed / download, install, restart)
//! while planning exactly which presentation events are shown to the user.
//!
//! Everything that touches the network, the platform dialog surface or the
//! process environment lives outside this crate; this crate receives plain
//! values (argument lists, check outcomes, transfer chunk sizes) and returns
//! plain values (decisions and presentation events).

pub mod errors;
pub mod events;
pub mod orchestrator;
pub mod progress;
pub mod startup;
