//! Derivation of the backend configuration parameters from a registered
//! update-proof descriptor.
//!
//! The backend fixes all of these as functions of the sector size alone: the
//! node count is the sector size in 32-byte nodes, the partition count and the
//! challenge-bit count `h` follow fixed thresholds on the node count.

use vstd::prelude::*;

use crate::types::RegisteredUpdateProof;

verus! {

/// The size of one commitment-tree node, in bytes.
pub const NODE_SIZE: u64 = 32;

/// The parameters the backend is configured with for one update operation.
#[derive(Clone, Copy, Debug, PartialEq, Eq, Structural)]
pub struct UpdateConfig {
    /// Sector size in bytes.
    pub sector_size: u64,
    /// Sector size in 32-byte nodes.
    pub nodes_count: u64,
    /// Number of partitions of an update proof.
    pub update_partitions: u64,
    /// Number of high bits taken from each challenge.
    pub h: u64,
}

/// Sector size in nodes: the byte count divided by the node size.
pub open spec fn spec_nodes_count(sector_size: u64) -> u64 {
    sector_size / NODE_SIZE
}

/// The backend's partition-count table, keyed by the sector size in nodes.
pub open spec fn spec_partition_count(nodes_count: u64) -> u64 {
    if nodes_count <= 256 {
        1
    } else if nodes_count <= 1024 {
        2
    } else if nodes_count <= 524288 {
        4
    } else {
        16
    }
}

/// The backend's default challenge-bit count, keyed by the sector size in
/// nodes: 1 for the small test sizes, 10 for the production sizes.
pub open spec fn spec_h(nodes_count: u64) -> u64 {
    if nodes_count <= 1024 {
        1
    } else {
        10
    }
}

/// The full configuration derived from a sector size.
pub open spec fn spec_v1_config(sector_size: u64) -> UpdateConfig {
    UpdateConfig {
        sector_size,
        nodes_count: spec_nodes_count(sector_size),
        update_partitions: spec_partition_count(spec_nodes_count(sector_size)),
        h: spec_h(spec_nodes_count(sector_size)),
    }
}

impl RegisteredUpdateProof {
    /// Derives the backend configuration for this descriptor. Every field is a
    /// fixed function of the sector size; nothing else of the descriptor is
    /// read.
    pub fn as_v1_config(&self) -> (c: UpdateConfig)
        ensures
            c == spec_v1_config(self.sector_size),
    {
        let nodes_count: u64 = self.sector_size / NODE_SIZE;
        let update_partitions: u64 = if nodes_count <= 256 {
            1
        } else if nodes_count <= 1024 {
            2
        } else if nodes_count <= 524288 {
            4
        } else {
            16
        };
        let h: u64 = if nodes_count <= 1024 {
            1
        } else {
            10
        };
        UpdateConfig { sector_size: self.sector_size, nodes_count, update_partitions, h }
    }
}

} // verus!
