//! Native launcher logic for the `brz` program.
//!
//! The launcher boots an embedded interpreter runtime, checks that the hosted
//! application's version agrees with the launcher's compiled-in version,
//! forwards the process arguments, optionally installs an import-profiling
//! hook, and dispatches into the hosted application's entry point.
//!
//! Everything that decides or computes lives here, verified; the embedding
//! calls themselves are performed by the surrounding binary, which drives the
//! bootstrap state machine in [`bootstrap`].

pub mod args;
pub mod bootstrap;
pub mod decimal;
pub mod messages;
pub mod version;
