//! Periodic refresh and snapshotting of a fixed collection of monitors.
//!
//! The library holds the rules of the update/store subsystem: what one update
//! tick does to the collection, when the snapshot writer produces a file and
//! how that file is named, and the lifecycle that starts and stops both
//! workers. Threads, locks, sleeping and file access belong to the caller,
//! who performs what the library decides and reports back what happened.
//!
//! - [`config`]: the settings of a run.
//! - [`monitor`]: the monitor and its measurement.
//! - [`store`]: the collection and the update tick.
//! - [`updater`]: the worker that refreshes the store.
//! - [`clock`]: the readings of the wall clock.
//! - [`naming`]: the names of snapshot files.
//! - [`snapshot`]: the worker that decides when a snapshot is written.
//! - [`lifecycle`]: the controller of a run.
//! - [`run`]: what holds of every state of a run.
//! - [`cli`]: the command line.

pub mod cli;
pub mod clock;
pub mod config;
pub mod lifecycle;
pub mod monitor;
pub mod naming;
pub mod run;
pub mod snapshot;
pub mod store;
pub mod updater;
