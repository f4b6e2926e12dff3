use sector_update::config::NODE_SIZE;
use sector_update::error::{backend_failure_to_error, BackendFailure, OpKind, UpdateError};
use sector_update::types::RegisteredUpdateProof;

fn config_of(sector_size: u64) -> sector_update::config::UpdateConfig {
    RegisteredUpdateProof {
        major_version: 1,
        sector_size,
    }
    .as_v1_config()
}

#[test]
fn node_size_is_32_bytes() {
    assert_eq!(NODE_SIZE, 32);
}

#[test]
fn config_for_the_smallest_sector() {
    let c = config_of(2048);
    assert_eq!(c.sector_size, 2048);
    assert_eq!(c.nodes_count, 64);
    assert_eq!(c.update_partitions, 1);
    assert_eq!(c.h, 1);
}

#[test]
fn config_partition_thresholds() {
    // 8 KiB of nodes is the last single-partition size; the table then steps
    // at 32 KiB and 16 MiB sectors.
    assert_eq!(config_of(4096).update_partitions, 1);
    assert_eq!(config_of(16384).update_partitions, 2);
    assert_eq!(config_of(32768).update_partitions, 2);
    assert_eq!(config_of(8388608).update_partitions, 4);
    assert_eq!(config_of(16777216).update_partitions, 4);
    assert_eq!(config_of(536870912).update_partitions, 16);
    assert_eq!(config_of(34359738368).update_partitions, 16);
}

#[test]
fn config_challenge_bits() {
    // Test sizes take one challenge bit, production sizes ten.
    assert_eq!(config_of(2048).h, 1);
    assert_eq!(config_of(32768).h, 1);
    assert_eq!(config_of(8388608).h, 10);
    assert_eq!(config_of(68719476736).h, 10);
}

#[test]
fn config_node_counts() {
    assert_eq!(config_of(32768).nodes_count, 1024);
    assert_eq!(config_of(536870912).nodes_count, 16777216);
    assert_eq!(config_of(68719476736).nodes_count, 2147483648);
}

#[test]
fn descriptor_accessors() {
    let d = RegisteredUpdateProof {
        major_version: 1,
        sector_size: 4096,
    };
    assert_eq!(d.major_version(), 1);
    assert_eq!(d.sector_size(), 4096);
}

#[test]
fn backend_failures_keep_their_kind_and_gain_the_operation() {
    assert_eq!(
        backend_failure_to_error(OpKind::Decode, BackendFailure::CommitmentMismatch),
        UpdateError::CommitmentMismatch { op: OpKind::Decode }
    );
    assert_eq!(
        backend_failure_to_error(OpKind::Encode, BackendFailure::Io),
        UpdateError::IoFailure { op: OpKind::Encode }
    );
    assert_eq!(
        backend_failure_to_error(OpKind::GenerateProof, BackendFailure::Computation),
        UpdateError::BackendComputationFailure {
            op: OpKind::GenerateProof
        }
    );
    assert_eq!(
        backend_failure_to_error(OpKind::RemoveData, BackendFailure::CommitmentMismatch),
        UpdateError::CommitmentMismatch {
            op: OpKind::RemoveData
        }
    );
    assert_eq!(
        backend_failure_to_error(OpKind::VerifyProof, BackendFailure::Computation),
        UpdateError::BackendComputationFailure {
            op: OpKind::VerifyProof
        }
    );
}
