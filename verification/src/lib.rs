//! Verified decision logic for a desktop launcher that supervises a single
//! long-running child server process: dependency-staleness detection, port
//! negotiation, package-manager location, launch argument construction,
//! health-check scheduling, and the vendor update/stash workflow.
//!
//! All I/O (environment reads, filesystem probes, subprocess spawning, HTTP
//! probes) is performed by a thin unverified shell, which hands plain values
//! to the functions here and carries out the actions they decide on.

pub mod charsync;
pub mod config;
pub mod health;
pub mod port;
pub mod staleness;
pub mod supervisor;
pub mod text;
pub mod tool;
pub mod update;
