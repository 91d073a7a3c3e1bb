//! Evaluation plane of a Kubernetes admission-control policy server: request
//! routing and response framing, the per-worker policy table, module
//! acquisition with signature and digest checks, startup sequencing, and the
//! lease naming of the leader-elected maintainer.
pub mod text;
pub mod admission;
pub mod api;
pub mod acquire;
pub mod worker;
pub mod config;
pub mod startup;
pub mod lease;
