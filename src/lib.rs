//! A registry of VPN node operators: the nodes they run, the bandwidth those
//! nodes contribute and the tokens earned for it, kept as a verified state
//! machine over plain records.
//!
//! `records` holds the records and their single-record transitions, which a
//! host that keeps each record under its own storage key can apply one
//! transaction at a time; `registry` holds the whole registry and the laws
//! that its operations obey.

pub mod records;
pub mod registry;

pub use records::{
    reward_for, NetworkStats, NodeBook, Operator, RegistryError, VPNNode, REWARD_PER_GB,
    ZERO_ACCOUNT,
};
pub use registry::{DecentralizedVPNContract, RegistryView};
