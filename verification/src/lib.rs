//! Core infrastructure for assembling a validated catalog of installation
//! media: bounded-concurrency admission pools, a retrying fetch policy, a
//! family of fan-out flatten combinators, a link-liveness validator, and the
//! per-source catalog assembly that ties them together.
pub mod flatten;
pub mod pool;
pub mod fetch;
pub mod store_data;
pub mod validate;
pub mod assembly;
pub mod checksum;
pub mod utils;
pub mod sort;
pub mod bsd;
pub mod linux;
pub mod other;
pub mod windows;
pub mod registry;

