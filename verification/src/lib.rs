//! A one-shot reconciliation pass that keeps a zone's DNS records in step
//! with the machine's public addresses, or with an explicit proxy override.
//!
//! The crate verifies the three pieces with real decision logic: the
//! dual-stack address merge with its partial-failure tolerance, the
//! classification of provider responses into the error taxonomy, and the
//! reconciliation engine that plans the provider calls needed to converge
//! the live record set. The surrounding process (argument handling,
//! configuration files, the HTTP transport) hands these functions plain
//! values and carries out the actions they decide on.

pub mod api;
pub mod configuration;
pub mod engine;
pub mod record_types;
pub mod rest_api;
