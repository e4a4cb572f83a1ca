//! Control-plane logic of a tunnel operator.
//!
//! The crate models and verifies the reconciliation engine of a cluster
//! controller that provisions remote tunnels for declarative tunnel
//! resources: the watch-fed stores, the class-based binding resolver, the
//! per-resource lifecycle state machine and the retry policy. All network
//! and cluster I/O is performed by a thin unverified driver that executes
//! the effects this library decides on and feeds the outcomes back in.

pub mod binding;
pub mod crd;
pub mod credentials;
pub mod policy;
pub mod reconcile;
pub mod store;
pub mod strings;
pub mod tunnel_ingress;
