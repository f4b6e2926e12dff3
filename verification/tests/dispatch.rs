use sector_update::error::UpdateError;
use sector_update::shape::{sector_shape, SectorShape};
use sector_update::types::{Commitment, PieceInfo, RegisteredUpdateProof};
use sector_update::update::{
    empty_sector_update_decode_from, empty_sector_update_decode_from_inner,
    empty_sector_update_encode_into, empty_sector_update_encode_into_inner,
    empty_sector_update_remove_encoded_data, generate_empty_sector_update_proof,
    verify_empty_sector_update_proof,
};

fn v1(sector_size: u64) -> RegisteredUpdateProof {
    RegisteredUpdateProof {
        major_version: 1,
        sector_size,
    }
}

#[test]
fn every_supported_size_selects_its_shape() {
    let table: [(u64, SectorShape); 10] = [
        (2048, SectorShape::Base),
        (4096, SectorShape::Sub2),
        (16384, SectorShape::Sub8),
        (32768, SectorShape::Top2),
        (8388608, SectorShape::Base),
        (16777216, SectorShape::Sub2),
        (536870912, SectorShape::Base),
        (1073741824, SectorShape::Sub2),
        (34359738368, SectorShape::Sub8),
        (68719476736, SectorShape::Top2),
    ];
    for (size, shape) in table {
        assert_eq!(sector_shape(size), Ok(shape), "sector size {}", size);
    }
}

#[test]
fn unsupported_sizes_are_rejected() {
    for size in [0u64, 1, 1024, 2047, 2049, 4095, 1 << 20, 1 << 40, u64::MAX] {
        assert_eq!(
            sector_shape(size),
            Err(UpdateError::UnsupportedShape { sector_size: size })
        );
    }
}

#[test]
fn version_gate_rejects_every_operation() {
    let d = RegisteredUpdateProof {
        major_version: 2,
        sector_size: 2048,
    };
    let err = UpdateError::UnsupportedVersion { major_version: 2 };
    let c = Commitment([7u8; 32]);
    let pieces = [PieceInfo {
        commitment: c,
        size: 2048,
    }];

    let r = empty_sector_update_encode_into(
        d,
        "r".to_string(),
        "rc".to_string(),
        "k".to_string(),
        "kc".to_string(),
        "s".to_string(),
        &pieces,
    );
    assert_eq!(r.unwrap_err(), err);

    let r = empty_sector_update_decode_from(
        d,
        "out".to_string(),
        "rep".to_string(),
        "k".to_string(),
        "kc".to_string(),
        c,
    );
    assert_eq!(r.unwrap_err(), err);

    let r = empty_sector_update_remove_encoded_data(
        d,
        "k".to_string(),
        "kc".to_string(),
        "rep".to_string(),
        "repc".to_string(),
        "data".to_string(),
        c,
    );
    assert_eq!(r.unwrap_err(), err);

    let r = generate_empty_sector_update_proof(
        d,
        c,
        c,
        c,
        "k".to_string(),
        "kc".to_string(),
        "rep".to_string(),
        "repc".to_string(),
    );
    assert_eq!(r.unwrap_err(), err);

    let r = verify_empty_sector_update_proof(d, &[1, 2, 3], c, c, c, "kc".to_string());
    assert_eq!(r.unwrap_err(), err);
}

#[test]
fn version_gate_runs_before_shape_dispatch() {
    // Unsupported version and unsupported size together: the version gate wins.
    let d = RegisteredUpdateProof {
        major_version: 0,
        sector_size: 12345,
    };
    let r = empty_sector_update_decode_from(
        d,
        "out".to_string(),
        "rep".to_string(),
        "k".to_string(),
        "kc".to_string(),
        Commitment([0u8; 32]),
    );
    assert_eq!(
        r.unwrap_err(),
        UpdateError::UnsupportedVersion { major_version: 0 }
    );
}

#[test]
fn inner_operations_gate_the_version_too() {
    let d = RegisteredUpdateProof {
        major_version: 3,
        sector_size: 2048,
    };
    let r = empty_sector_update_decode_from_inner(
        SectorShape::Base,
        d,
        "out".to_string(),
        "rep".to_string(),
        "k".to_string(),
        "kc".to_string(),
        Commitment([0u8; 32]),
    );
    assert_eq!(
        r.unwrap_err(),
        UpdateError::UnsupportedVersion { major_version: 3 }
    );
}

#[test]
fn unsupported_size_rejected_in_every_operation() {
    let d = v1(3000);
    let err = UpdateError::UnsupportedShape { sector_size: 3000 };
    let c = Commitment([1u8; 32]);

    let r = empty_sector_update_decode_from(
        d,
        "out".to_string(),
        "rep".to_string(),
        "k".to_string(),
        "kc".to_string(),
        c,
    );
    assert_eq!(r.unwrap_err(), err);

    let r = generate_empty_sector_update_proof(
        d,
        c,
        c,
        c,
        "k".to_string(),
        "kc".to_string(),
        "rep".to_string(),
        "repc".to_string(),
    );
    assert_eq!(r.unwrap_err(), err);

    let r = verify_empty_sector_update_proof(d, &[], c, c, c, "kc".to_string());
    assert_eq!(r.unwrap_err(), err);
}

#[test]
fn encode_forwards_every_field_unchanged() {
    // One full-sector piece in a 2 KiB sector: the scenario's staged layout.
    let d = v1(2048);
    let d0 = Commitment([9u8; 32]);
    let pieces = [PieceInfo {
        commitment: d0,
        size: 2048,
    }];
    let call = empty_sector_update_encode_into(
        d,
        "new-replica".to_string(),
        "new-cache".to_string(),
        "sector-key".to_string(),
        "sector-key-cache".to_string(),
        "staged-data".to_string(),
        &pieces,
    )
    .unwrap();
    assert_eq!(call.shape, SectorShape::Base);
    assert_eq!(call.config.sector_size, 2048);
    assert_eq!(call.new_replica_path, "new-replica");
    assert_eq!(call.new_cache_path, "new-cache");
    assert_eq!(call.sector_key_path, "sector-key");
    assert_eq!(call.sector_key_cache_path, "sector-key-cache");
    assert_eq!(call.staged_data_path, "staged-data");
    assert_eq!(call.piece_infos, vec![pieces[0]]);
}

#[test]
fn encode_keeps_piece_order_exactly() {
    let d = v1(34359738368);
    let pieces = [
        PieceInfo {
            commitment: Commitment([1u8; 32]),
            size: 1024,
        },
        PieceInfo {
            commitment: Commitment([2u8; 32]),
            size: 512,
        },
        PieceInfo {
            commitment: Commitment([1u8; 32]),
            size: 1024,
        },
    ];
    let call = empty_sector_update_encode_into(
        d,
        "a".to_string(),
        "b".to_string(),
        "c".to_string(),
        "d".to_string(),
        "e".to_string(),
        &pieces,
    )
    .unwrap();
    assert_eq!(call.shape, SectorShape::Sub8);
    assert_eq!(call.piece_infos, pieces.to_vec());
}

#[test]
fn encode_inner_uses_the_given_shape() {
    let d = v1(2048);
    let call = empty_sector_update_encode_into_inner(
        SectorShape::Top2,
        d,
        "a".to_string(),
        "b".to_string(),
        "c".to_string(),
        "d".to_string(),
        "e".to_string(),
        &[],
    )
    .unwrap();
    assert_eq!(call.shape, SectorShape::Top2);
    assert!(call.piece_infos.is_empty());
}

#[test]
fn decode_forwards_every_field_unchanged() {
    let d = v1(536870912);
    let comm_d_new = Commitment([42u8; 32]);
    let call = empty_sector_update_decode_from(
        d,
        "out-data".to_string(),
        "replica".to_string(),
        "sector-key".to_string(),
        "sector-key-cache".to_string(),
        comm_d_new,
    )
    .unwrap();
    assert_eq!(call.shape, SectorShape::Base);
    assert_eq!(call.config.sector_size, 536870912);
    assert_eq!(call.out_data_path, "out-data");
    assert_eq!(call.replica_path, "replica");
    assert_eq!(call.sector_key_path, "sector-key");
    assert_eq!(call.sector_key_cache_path, "sector-key-cache");
    assert_eq!(call.comm_d_new, comm_d_new);
}

#[test]
fn remove_forwards_every_field_unchanged() {
    let d = v1(16777216);
    let comm_d_new = Commitment([3u8; 32]);
    let call = empty_sector_update_remove_encoded_data(
        d,
        "sector-key".to_string(),
        "sector-key-cache".to_string(),
        "replica".to_string(),
        "replica-cache".to_string(),
        "data".to_string(),
        comm_d_new,
    )
    .unwrap();
    assert_eq!(call.shape, SectorShape::Sub2);
    assert_eq!(call.config.sector_size, 16777216);
    assert_eq!(call.sector_key_path, "sector-key");
    assert_eq!(call.sector_key_cache_path, "sector-key-cache");
    assert_eq!(call.replica_path, "replica");
    assert_eq!(call.replica_cache_path, "replica-cache");
    assert_eq!(call.data_path, "data");
    assert_eq!(call.comm_d_new, comm_d_new);
}

#[test]
fn prove_forwards_the_commitment_triple_unchanged() {
    let d = v1(68719476736);
    let c_old = Commitment([10u8; 32]);
    let c_new = Commitment([11u8; 32]);
    let c_d = Commitment([12u8; 32]);
    let call = generate_empty_sector_update_proof(
        d,
        c_old,
        c_new,
        c_d,
        "sector-key".to_string(),
        "sector-key-cache".to_string(),
        "replica".to_string(),
        "replica-cache".to_string(),
    )
    .unwrap();
    assert_eq!(call.shape, SectorShape::Top2);
    assert_eq!(call.comm_r_old, c_old);
    assert_eq!(call.comm_r_new, c_new);
    assert_eq!(call.comm_d_new, c_d);
    assert_eq!(call.sector_key_path, "sector-key");
    assert_eq!(call.sector_key_cache_path, "sector-key-cache");
    assert_eq!(call.replica_path, "replica");
    assert_eq!(call.replica_cache_path, "replica-cache");
}

#[test]
fn verify_forwards_proof_bytes_and_commitments_unchanged() {
    let d = v1(4096);
    let proof = [0xde, 0xad, 0xbe, 0xef];
    let c_old = Commitment([20u8; 32]);
    let c_new = Commitment([21u8; 32]);
    let c_d = Commitment([22u8; 32]);
    let call =
        verify_empty_sector_update_proof(d, &proof, c_old, c_new, c_d, "kc".to_string()).unwrap();
    assert_eq!(call.shape, SectorShape::Sub2);
    assert_eq!(call.proof_bytes, proof.to_vec());
    assert_eq!(call.comm_r_old, c_old);
    assert_eq!(call.comm_r_new, c_new);
    assert_eq!(call.comm_d_new, c_d);
    assert_eq!(call.sector_key_cache_path, "kc");
}

#[test]
fn repeated_verification_resolves_identically() {
    let d = v1(32768);
    let proof = [5u8, 6, 7];
    let c = Commitment([30u8; 32]);
    let r1 = verify_empty_sector_update_proof(d, &proof, c, c, c, "kc".to_string()).unwrap();
    let r2 = verify_empty_sector_update_proof(d, &proof, c, c, c, "kc".to_string()).unwrap();
    assert_eq!(r1.shape, r2.shape);
    assert_eq!(r1.config, r2.config);
    assert_eq!(r1.proof_bytes, r2.proof_bytes);
    assert_eq!(r1.comm_r_old, r2.comm_r_old);
    assert_eq!(r1.comm_r_new, r2.comm_r_new);
    assert_eq!(r1.comm_d_new, r2.comm_d_new);
    assert_eq!(r1.sector_key_cache_path, r2.sector_key_cache_path);
}
