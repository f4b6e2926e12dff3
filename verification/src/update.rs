//! The five protocol operations of the empty-sector-update protocol.
//!
//! Each operation gates the protocol version, resolves the sector size to its
//! registered shape, derives the backend configuration, and marshals its
//! arguments — unchanged and in order — into a call description for the
//! external proving backend. No path is touched and no commitment is
//! interpreted here: everything past the two pre-flight checks is the
//! backend's work, and the caller hands the returned call description to it.
//!
//! Each operation comes in two layers, as the backend's specialization
//! demands: an outer entry point that resolves the shape at runtime, and an
//! inner one that is handed the shape and stands for the shape-specialized
//! instantiation.

use vstd::prelude::*;

use crate::config::{spec_v1_config, UpdateConfig};
use crate::error::UpdateError;
use crate::shape::{sector_shape, shape_of, supported_sector_size, SectorShape};
use crate::types::{Commitment, PieceInfo, RegisteredUpdateProof};

verus! {

/// The two pre-flight checks every operation runs, in order: the version gate
/// first, then shape resolution. An operation reaches the backend exactly when
/// this yields a shape; it fails with exactly this error otherwise, before any
/// backend call and without touching any path.
pub open spec fn preflight(d: RegisteredUpdateProof) -> Result<SectorShape, UpdateError> {
    if d.major_version != 1 {
        Err(UpdateError::UnsupportedVersion { major_version: d.major_version })
    } else if !supported_sector_size(d.sector_size) {
        Err(UpdateError::UnsupportedShape { sector_size: d.sector_size })
    } else {
        Ok(shape_of(d.sector_size))
    }
}

/// The version gate runs first in every operation: a descriptor whose major
/// version is not 1 is rejected with `UnsupportedVersion` before any shape is
/// resolved, any configuration derived, or any backend call described.
pub proof fn lemma_version_gate(d: RegisteredUpdateProof)
    requires
        d.major_version != 1,
    ensures
        preflight(d) == Err::<SectorShape, UpdateError>(
            UpdateError::UnsupportedVersion { major_version: d.major_version },
        ),
{
}

/// A sector size outside the registered table is rejected with
/// `UnsupportedShape` before any backend call is described.
pub proof fn lemma_unsupported_shape_rejected(d: RegisteredUpdateProof)
    requires
        d.major_version == 1,
        !supported_sector_size(d.sector_size),
    ensures
        preflight(d) == Err::<SectorShape, UpdateError>(
            UpdateError::UnsupportedShape { sector_size: d.sector_size },
        ),
{
}

/// Every supported sector size resolves to its registered shape: dispatch is
/// total over the table and never falls through to a default.
pub proof fn lemma_supported_size_resolves(d: RegisteredUpdateProof)
    requires
        d.major_version == 1,
        supported_sector_size(d.sector_size),
    ensures
        preflight(d) == Ok::<SectorShape, UpdateError>(shape_of(d.sector_size)),
{
}

/// Copies a piece sequence exactly: same pieces, same order, nothing dropped,
/// reordered or deduplicated.
fn copy_pieces(pieces: &[PieceInfo]) -> (v: Vec<PieceInfo>)
    ensures
        v@ == pieces@,
{
    let mut v: Vec<PieceInfo> = Vec::new();
    let mut i: usize = 0;
    while i < pieces.len()
        invariant
            i <= pieces@.len(),
            v@ == pieces@.subrange(0, i as int),
        decreases pieces@.len() - i,
    {
        v.push(pieces[i]);
        i = i + 1;
    }
    proof {
        assert(v@ =~= pieces@);
    }
    v
}

/// Copies opaque proof bytes exactly, in order.
fn copy_bytes(bytes: &[u8]) -> (v: Vec<u8>)
    ensures
        v@ == bytes@,
{
    let mut v: Vec<u8> = Vec::new();
    let mut i: usize = 0;
    while i < bytes.len()
        invariant
            i <= bytes@.len(),
            v@ == bytes@.subrange(0, i as int),
        decreases bytes@.len() - i,
    {
        v.push(bytes[i]);
        i = i + 1;
    }
    proof {
        assert(v@ =~= bytes@);
    }
    v
}

/// The backend call an encode operation resolves to: the shape and derived
/// configuration, and every argument exactly as the caller supplied it.
#[derive(Debug)]
pub struct EncodeCall {
    pub shape: SectorShape,
    pub config: UpdateConfig,
    pub new_replica_path: String,
    pub new_cache_path: String,
    pub sector_key_path: String,
    pub sector_key_cache_path: String,
    pub staged_data_path: String,
    pub piece_infos: Vec<PieceInfo>,
}

/// Field-for-field: the encode call carries the given shape and configuration
/// and forwards every argument unchanged, the piece sequence in its exact
/// order.
pub open spec fn encode_call_matches(
    c: EncodeCall,
    shape: SectorShape,
    config: UpdateConfig,
    new_replica_path: Seq<char>,
    new_cache_path: Seq<char>,
    sector_key_path: Seq<char>,
    sector_key_cache_path: Seq<char>,
    staged_data_path: Seq<char>,
    piece_infos: Seq<PieceInfo>,
) -> bool {
    &&& c.shape == shape
    &&& c.config == config
    &&& c.new_replica_path@ == new_replica_path
    &&& c.new_cache_path@ == new_cache_path
    &&& c.sector_key_path@ == sector_key_path
    &&& c.sector_key_cache_path@ == sector_key_cache_path
    &&& c.staged_data_path@ == staged_data_path
    &&& c.piece_infos@ == piece_infos
}

/// Shape-specialized entry of the encode operation: gates the version, derives
/// the configuration, and describes the backend call that folds the staged
/// data into the sector-key replica, writing the new replica and cache.
pub fn empty_sector_update_encode_into_inner(
    shape: SectorShape,
    registered_proof: RegisteredUpdateProof,
    new_replica_path: String,
    new_cache_path: String,
    sector_key_path: String,
    sector_key_cache_path: String,
    staged_data_path: String,
    piece_infos: &[PieceInfo],
) -> (r: Result<EncodeCall, UpdateError>)
    ensures
        r is Ok <==> registered_proof.major_version == 1,
        registered_proof.major_version != 1 ==> r == Err::<EncodeCall, UpdateError>(
            UpdateError::UnsupportedVersion { major_version: registered_proof.major_version },
        ),
        r matches Ok(c) ==> encode_call_matches(
            c,
            shape,
            spec_v1_config(registered_proof.sector_size),
            new_replica_path@,
            new_cache_path@,
            sector_key_path@,
            sector_key_cache_path@,
            staged_data_path@,
            piece_infos@,
        ),
{
    if registered_proof.major_version() != 1 {
        return Err(
            UpdateError::UnsupportedVersion { major_version: registered_proof.major_version() },
        );
    }
    let config = registered_proof.as_v1_config();
    Ok(
        EncodeCall {
            shape,
            config,
            new_replica_path,
            new_cache_path,
            sector_key_path,
            sector_key_cache_path,
            staged_data_path,
            piece_infos: copy_pieces(piece_infos),
        },
    )
}

/// Encodes data into an existing replica: after the version gate and shape
/// dispatch, describes the backend call whose result is the commitment triple
/// (comm_r_new, comm_r_last_new, comm_d_new).
pub fn empty_sector_update_encode_into(
    registered_proof: RegisteredUpdateProof,
    new_replica_path: String,
    new_cache_path: String,
    sector_key_path: String,
    sector_key_cache_path: String,
    staged_data_path: String,
    piece_infos: &[PieceInfo],
) -> (r: Result<EncodeCall, UpdateError>)
    ensures
        r is Ok <==> preflight(registered_proof) is Ok,
        r matches Err(e) ==> preflight(registered_proof) == Err::<SectorShape, UpdateError>(e),
        r matches Ok(c) ==> encode_call_matches(
            c,
            shape_of(registered_proof.sector_size),
            spec_v1_config(registered_proof.sector_size),
            new_replica_path@,
            new_cache_path@,
            sector_key_path@,
            sector_key_cache_path@,
            staged_data_path@,
            piece_infos@,
        ),
{
    if registered_proof.major_version() != 1 {
        return Err(
            UpdateError::UnsupportedVersion { major_version: registered_proof.major_version() },
        );
    }
    let shape = match sector_shape(registered_proof.sector_size()) {
        Ok(s) => s,
        Err(e) => {
            return Err(e);
        },
    };
    empty_sector_update_encode_into_inner(
        shape,
        registered_proof,
        new_replica_path,
        new_cache_path,
        sector_key_path,
        sector_key_cache_path,
        staged_data_path,
        piece_infos,
    )
}

/// The backend call a decode operation resolves to.
#[derive(Debug)]
pub struct DecodeCall {
    pub shape: SectorShape,
    pub config: UpdateConfig,
    pub out_data_path: String,
    pub replica_path: String,
    pub sector_key_path: String,
    pub sector_key_cache_path: String,
    pub comm_d_new: Commitment,
}

/// Field-for-field: the decode call carries the given shape and configuration
/// and forwards every argument unchanged.
pub open spec fn decode_call_matches(
    c: DecodeCall,
    shape: SectorShape,
    config: UpdateConfig,
    out_data_path: Seq<char>,
    replica_path: Seq<char>,
    sector_key_path: Seq<char>,
    sector_key_cache_path: Seq<char>,
    comm_d_new: Commitment,
) -> bool {
    &&& c.shape == shape
    &&& c.config == config
    &&& c.out_data_path@ == out_data_path
    &&& c.replica_path@ == replica_path
    &&& c.sector_key_path@ == sector_key_path
    &&& c.sector_key_cache_path@ == sector_key_cache_path
    &&& c.comm_d_new == comm_d_new
}

/// Shape-specialized entry of the decode operation: gates the version, derives
/// the configuration, and describes the backend call that reverses the encode
/// transform into the output path, validated against `comm_d_new`.
pub fn empty_sector_update_decode_from_inner(
    shape: SectorShape,
    registered_proof: RegisteredUpdateProof,
    out_data_path: String,
    replica_path: String,
    sector_key_path: String,
    sector_key_cache_path: String,
    comm_d_new: Commitment,
) -> (r: Result<DecodeCall, UpdateError>)
    ensures
        r is Ok <==> registered_proof.major_version == 1,
        registered_proof.major_version != 1 ==> r == Err::<DecodeCall, UpdateError>(
            UpdateError::UnsupportedVersion { major_version: registered_proof.major_version },
        ),
        r matches Ok(c) ==> decode_call_matches(
            c,
            shape,
            spec_v1_config(registered_proof.sector_size),
            out_data_path@,
            replica_path@,
            sector_key_path@,
            sector_key_cache_path@,
            comm_d_new,
        ),
{
    if registered_proof.major_version() != 1 {
        return Err(
            UpdateError::UnsupportedVersion { major_version: registered_proof.major_version() },
        );
    }
    let config = registered_proof.as_v1_config();
    Ok(
        DecodeCall {
            shape,
            config,
            out_data_path,
            replica_path,
            sector_key_path,
            sector_key_cache_path,
            comm_d_new,
        },
    )
}

/// Reverses the encoding process into the output path: after the version gate
/// and shape dispatch, describes the backend call that recovers the staged
/// data and checks its recomputed commitment against `comm_d_new`.
pub fn empty_sector_update_decode_from(
    registered_proof: RegisteredUpdateProof,
    out_data_path: String,
    replica_path: String,
    sector_key_path: String,
    sector_key_cache_path: String,
    comm_d_new: Commitment,
) -> (r: Result<DecodeCall, UpdateError>)
    ensures
        r is Ok <==> preflight(registered_proof) is Ok,
        r matches Err(e) ==> preflight(registered_proof) == Err::<SectorShape, UpdateError>(e),
        r matches Ok(c) ==> decode_call_matches(
            c,
            shape_of(registered_proof.sector_size),
            spec_v1_config(registered_proof.sector_size),
            out_data_path@,
            replica_path@,
            sector_key_path@,
            sector_key_cache_path@,
            comm_d_new,
        ),
{
    if registered_proof.major_version() != 1 {
        return Err(
            UpdateError::UnsupportedVersion { major_version: registered_proof.major_version() },
        );
    }
    let shape = match sector_shape(registered_proof.sector_size()) {
        Ok(s) => s,
        Err(e) => {
            return Err(e);
        },
    };
    empty_sector_update_decode_from_inner(
        shape,
        registered_proof,
        out_data_path,
        replica_path,
        sector_key_path,
        sector_key_cache_path,
        comm_d_new,
    )
}

/// The backend call a remove-encoded-data operation resolves to.
#[derive(Debug)]
pub struct RemoveDataCall {
    pub shape: SectorShape,
    pub config: UpdateConfig,
    pub sector_key_path: String,
    pub sector_key_cache_path: String,
    pub replica_path: String,
    pub replica_cache_path: String,
    pub data_path: String,
    pub comm_d_new: Commitment,
}

/// Field-for-field: the remove call carries the given shape and configuration
/// and forwards every argument unchanged.
pub open spec fn remove_data_call_matches(
    c: RemoveDataCall,
    shape: SectorShape,
    config: UpdateConfig,
    sector_key_path: Seq<char>,
    sector_key_cache_path: Seq<char>,
    replica_path: Seq<char>,
    replica_cache_path: Seq<char>,
    data_path: Seq<char>,
    comm_d_new: Commitment,
) -> bool {
    &&& c.shape == shape
    &&& c.config == config
    &&& c.sector_key_path@ == sector_key_path
    &&& c.sector_key_cache_path@ == sector_key_cache_path
    &&& c.replica_path@ == replica_path
    &&& c.replica_cache_path@ == replica_cache_path
    &&& c.data_path@ == data_path
    &&& c.comm_d_new == comm_d_new
}

/// Shape-specialized entry of the remove operation: gates the version, derives
/// the configuration, and describes the backend call that subtracts the
/// encoded contribution from the replica, restoring the sector key — the
/// inverse of the encode operation.
pub fn empty_sector_update_remove_encoded_data_inner(
    shape: SectorShape,
    registered_proof: RegisteredUpdateProof,
    sector_key_path: String,
    sector_key_cache_path: String,
    replica_path: String,
    replica_cache_path: String,
    data_path: String,
    comm_d_new: Commitment,
) -> (r: Result<RemoveDataCall, UpdateError>)
    ensures
        r is Ok <==> registered_proof.major_version == 1,
        registered_proof.major_version != 1 ==> r == Err::<RemoveDataCall, UpdateError>(
            UpdateError::UnsupportedVersion { major_version: registered_proof.major_version },
        ),
        r matches Ok(c) ==> remove_data_call_matches(
            c,
            shape,
            spec_v1_config(registered_proof.sector_size),
            sector_key_path@,
            sector_key_cache_path@,
            replica_path@,
            replica_cache_path@,
            data_path@,
            comm_d_new,
        ),
{
    if registered_proof.major_version() != 1 {
        return Err(
            UpdateError::UnsupportedVersion { major_version: registered_proof.major_version() },
        );
    }
    let config = registered_proof.as_v1_config();
    Ok(
        RemoveDataCall {
            shape,
            config,
            sector_key_path,
            sector_key_cache_path,
            replica_path,
            replica_cache_path,
            data_path,
            comm_d_new,
        },
    )
}

/// Removes encoded data and restores the sector key: after the version gate
/// and shape dispatch, describes the backend call that undoes the encode
/// operation at the given paths, consistent with `comm_d_new`.
pub fn empty_sector_update_remove_encoded_data(
    registered_proof: RegisteredUpdateProof,
    sector_key_path: String,
    sector_key_cache_path: String,
    replica_path: String,
    replica_cache_path: String,
    data_path: String,
    comm_d_new: Commitment,
) -> (r: Result<RemoveDataCall, UpdateError>)
    ensures
        r is Ok <==> preflight(registered_proof) is Ok,
        r matches Err(e) ==> preflight(registered_proof) == Err::<SectorShape, UpdateError>(e),
        r matches Ok(c) ==> remove_data_call_matches(
            c,
            shape_of(registered_proof.sector_size),
            spec_v1_config(registered_proof.sector_size),
            sector_key_path@,
            sector_key_cache_path@,
            replica_path@,
            replica_cache_path@,
            data_path@,
            comm_d_new,
        ),
{
    if registered_proof.major_version() != 1 {
        return Err(
            UpdateError::UnsupportedVersion { major_version: registered_proof.major_version() },
        );
    }
    let shape = match sector_shape(registered_proof.sector_size()) {
        Ok(s) => s,
        Err(e) => {
            return Err(e);
        },
    };
    empty_sector_update_remove_encoded_data_inner(
        shape,
        registered_proof,
        sector_key_path,
        sector_key_cache_path,
        replica_path,
        replica_cache_path,
        data_path,
        comm_d_new,
    )
}

/// The backend call a proof-generation operation resolves to.
#[derive(Debug)]
pub struct ProveCall {
    pub shape: SectorShape,
    pub config: UpdateConfig,
    pub comm_r_old: Commitment,
    pub comm_r_new: Commitment,
    pub comm_d_new: Commitment,
    pub sector_key_path: String,
    pub sector_key_cache_path: String,
    pub replica_path: String,
    pub replica_cache_path: String,
}

/// Field-for-field: the prove call carries the given shape and configuration
/// and forwards the commitment triple and every path unchanged.
pub open spec fn prove_call_matches(
    c: ProveCall,
    shape: SectorShape,
    config: UpdateConfig,
    comm_r_old: Commitment,
    comm_r_new: Commitment,
    comm_d_new: Commitment,
    sector_key_path: Seq<char>,
    sector_key_cache_path: Seq<char>,
    replica_path: Seq<char>,
    replica_cache_path: Seq<char>,
) -> bool {
    &&& c.shape == shape
    &&& c.config == config
    &&& c.comm_r_old == comm_r_old
    &&& c.comm_r_new == comm_r_new
    &&& c.comm_d_new == comm_d_new
    &&& c.sector_key_path@ == sector_key_path
    &&& c.sector_key_cache_path@ == sector_key_cache_path
    &&& c.replica_path@ == replica_path
    &&& c.replica_cache_path@ == replica_cache_path
}

/// Shape-specialized entry of proof generation: gates the version, derives the
/// configuration, and describes the backend call that proves the new replica
/// correctly derives from the sector key and data bound by the commitment
/// triple.
pub fn generate_empty_sector_update_proof_inner(
    shape: SectorShape,
    registered_proof: RegisteredUpdateProof,
    comm_r_old: Commitment,
    comm_r_new: Commitment,
    comm_d_new: Commitment,
    sector_key_path: String,
    sector_key_cache_path: String,
    replica_path: String,
    replica_cache_path: String,
) -> (r: Result<ProveCall, UpdateError>)
    ensures
        r is Ok <==> registered_proof.major_version == 1,
        registered_proof.major_version != 1 ==> r == Err::<ProveCall, UpdateError>(
            UpdateError::UnsupportedVersion { major_version: registered_proof.major_version },
        ),
        r matches Ok(c) ==> prove_call_matches(
            c,
            shape,
            spec_v1_config(registered_proof.sector_size),
            comm_r_old,
            comm_r_new,
            comm_d_new,
            sector_key_path@,
            sector_key_cache_path@,
            replica_path@,
            replica_cache_path@,
        ),
{
    if registered_proof.major_version() != 1 {
        return Err(
            UpdateError::UnsupportedVersion { major_version: registered_proof.major_version() },
        );
    }
    let config = registered_proof.as_v1_config();
    Ok(
        ProveCall {
            shape,
            config,
            comm_r_old,
            comm_r_new,
            comm_d_new,
            sector_key_path,
            sector_key_cache_path,
            replica_path,
            replica_cache_path,
        },
    )
}

/// Generates a succinct update proof: after the version gate and shape
/// dispatch, describes the backend call whose result is the opaque proof
/// artifact for the given commitment triple.
pub fn generate_empty_sector_update_proof(
    registered_proof: RegisteredUpdateProof,
    comm_r_old: Commitment,
    comm_r_new: Commitment,
    comm_d_new: Commitment,
    sector_key_path: String,
    sector_key_cache_path: String,
    replica_path: String,
    replica_cache_path: String,
) -> (r: Result<ProveCall, UpdateError>)
    ensures
        r is Ok <==> preflight(registered_proof) is Ok,
        r matches Err(e) ==> preflight(registered_proof) == Err::<SectorShape, UpdateError>(e),
        r matches Ok(c) ==> prove_call_matches(
            c,
            shape_of(registered_proof.sector_size),
            spec_v1_config(registered_proof.sector_size),
            comm_r_old,
            comm_r_new,
            comm_d_new,
            sector_key_path@,
            sector_key_cache_path@,
            replica_path@,
            replica_cache_path@,
        ),
{
    if registered_proof.major_version() != 1 {
        return Err(
            UpdateError::UnsupportedVersion { major_version: registered_proof.major_version() },
        );
    }
    let shape = match sector_shape(registered_proof.sector_size()) {
        Ok(s) => s,
        Err(e) => {
            return Err(e);
        },
    };
    generate_empty_sector_update_proof_inner(
        shape,
        registered_proof,
        comm_r_old,
        comm_r_new,
        comm_d_new,
        sector_key_path,
        sector_key_cache_path,
        replica_path,
        replica_cache_path,
    )
}

/// The backend call a proof-verification operation resolves to. Verification
/// is read-only: the backend checks the proof against the commitment triple
/// and mutates no sector state.
#[derive(Debug)]
pub struct VerifyCall {
    pub shape: SectorShape,
    pub config: UpdateConfig,
    pub proof_bytes: Vec<u8>,
    pub comm_r_old: Commitment,
    pub comm_r_new: Commitment,
    pub comm_d_new: Commitment,
    pub sector_key_cache_path: String,
}

/// Field-for-field: the verify call carries the given shape and configuration
/// and forwards the proof bytes, the commitment triple and the cache path
/// unchanged.
pub open spec fn verify_call_matches(
    c: VerifyCall,
    shape: SectorShape,
    config: UpdateConfig,
    proof_bytes: Seq<u8>,
    comm_r_old: Commitment,
    comm_r_new: Commitment,
    comm_d_new: Commitment,
    sector_key_cache_path: Seq<char>,
) -> bool {
    &&& c.shape == shape
    &&& c.config == config
    &&& c.proof_bytes@ == proof_bytes
    &&& c.comm_r_old == comm_r_old
    &&& c.comm_r_new == comm_r_new
    &&& c.comm_d_new == comm_d_new
    &&& c.sector_key_cache_path@ == sector_key_cache_path
}

/// The whole contract of a verification result, as one predicate: a result is
/// acceptable exactly when it is the pre-flight error, or the backend call
/// whose every field the inputs determine.
pub open spec fn verify_result_matches(
    r: Result<VerifyCall, UpdateError>,
    d: RegisteredUpdateProof,
    proof_bytes: Seq<u8>,
    comm_r_old: Commitment,
    comm_r_new: Commitment,
    comm_d_new: Commitment,
    sector_key_cache_path: Seq<char>,
) -> bool {
    match r {
        Ok(c) => preflight(d) is Ok && verify_call_matches(
            c,
            shape_of(d.sector_size),
            spec_v1_config(d.sector_size),
            proof_bytes,
            comm_r_old,
            comm_r_new,
            comm_d_new,
            sector_key_cache_path,
        ),
        Err(e) => preflight(d) == Err::<SectorShape, UpdateError>(e),
    }
}

/// Shape-specialized entry of proof verification: gates the version, derives
/// the configuration, and describes the read-only backend call that checks the
/// proof against the commitment triple.
pub fn verify_empty_sector_update_proof_inner(
    shape: SectorShape,
    registered_proof: RegisteredUpdateProof,
    proof_bytes: &[u8],
    comm_r_old: Commitment,
    comm_r_new: Commitment,
    comm_d_new: Commitment,
    sector_key_cache_path: String,
) -> (r: Result<VerifyCall, UpdateError>)
    ensures
        r is Ok <==> registered_proof.major_version == 1,
        registered_proof.major_version != 1 ==> r == Err::<VerifyCall, UpdateError>(
            UpdateError::UnsupportedVersion { major_version: registered_proof.major_version },
        ),
        r matches Ok(c) ==> verify_call_matches(
            c,
            shape,
            spec_v1_config(registered_proof.sector_size),
            proof_bytes@,
            comm_r_old,
            comm_r_new,
            comm_d_new,
            sector_key_cache_path@,
        ),
{
    if registered_proof.major_version() != 1 {
        return Err(
            UpdateError::UnsupportedVersion { major_version: registered_proof.major_version() },
        );
    }
    let config = registered_proof.as_v1_config();
    Ok(
        VerifyCall {
            shape,
            config,
            proof_bytes: copy_bytes(proof_bytes),
            comm_r_old,
            comm_r_new,
            comm_d_new,
            sector_key_cache_path,
        },
    )
}

/// Verifies an update proof: after the version gate and shape dispatch,
/// describes the read-only backend call whose boolean result says whether the
/// proof is valid for the commitment triple. A well-formed but invalid proof
/// yields `false` from the backend, not an error; only unprocessable inputs
/// are errors.
pub fn verify_empty_sector_update_proof(
    registered_proof: RegisteredUpdateProof,
    proof_bytes: &[u8],
    comm_r_old: Commitment,
    comm_r_new: Commitment,
    comm_d_new: Commitment,
    sector_key_cache_path: String,
) -> (r: Result<VerifyCall, UpdateError>)
    ensures
        r is Ok <==> preflight(registered_proof) is Ok,
        verify_result_matches(
            r,
            registered_proof,
            proof_bytes@,
            comm_r_old,
            comm_r_new,
            comm_d_new,
            sector_key_cache_path@,
        ),
{
    if registered_proof.major_version() != 1 {
        return Err(
            UpdateError::UnsupportedVersion { major_version: registered_proof.major_version() },
        );
    }
    let shape = match sector_shape(registered_proof.sector_size()) {
        Ok(s) => s,
        Err(e) => {
            return Err(e);
        },
    };
    verify_empty_sector_update_proof_inner(
        shape,
        registered_proof,
        proof_bytes,
        comm_r_old,
        comm_r_new,
        comm_d_new,
        sector_key_cache_path,
    )
}

/// Two verification results agree: the same shape, configuration, proof bytes,
/// commitments and cache path are handed to the backend.
pub open spec fn verify_calls_agree(c1: VerifyCall, c2: VerifyCall) -> bool {
    &&& c1.shape == c2.shape
    &&& c1.config == c2.config
    &&& c1.proof_bytes@ == c2.proof_bytes@
    &&& c1.comm_r_old == c2.comm_r_old
    &&& c1.comm_r_new == c2.comm_r_new
    &&& c1.comm_d_new == c2.comm_d_new
    &&& c1.sector_key_cache_path@ == c2.sector_key_cache_path@
}

/// Proof verification is repeatable at this layer with no side effect: the
/// backend call it resolves to is a function of the inputs alone, so any two
/// results that meet the verification contract for identical inputs agree —
/// the same error, or backend calls that agree field for field.
pub proof fn lemma_verify_planning_deterministic(
    r1: Result<VerifyCall, UpdateError>,
    r2: Result<VerifyCall, UpdateError>,
    d: RegisteredUpdateProof,
    proof_bytes: Seq<u8>,
    comm_r_old: Commitment,
    comm_r_new: Commitment,
    comm_d_new: Commitment,
    sector_key_cache_path: Seq<char>,
)
    requires
        verify_result_matches(
            r1,
            d,
            proof_bytes,
            comm_r_old,
            comm_r_new,
            comm_d_new,
            sector_key_cache_path,
        ),
        verify_result_matches(
            r2,
            d,
            proof_bytes,
            comm_r_old,
            comm_r_new,
            comm_d_new,
            sector_key_cache_path,
        ),
    ensures
        r1 is Ok <==> r2 is Ok,
        r1 matches Err(e1) ==> r2 matches Err(e2) && e1 == e2,
        r1 matches Ok(c1) ==> r2 matches Ok(c2) && verify_calls_agree(c1, c2),
{
}

/// The layer's share of the encode/decode round trip: for one descriptor, the
/// encode call and the decode call are dispatched to the same shape under the
/// same backend configuration, and the decode call checks exactly the
/// `comm_d_new` the caller carried over from encoding. That the recovered
/// data's recomputed commitment then equals `comm_d_new` — and that any other
/// commitment fails with a mismatch — is the backend's recomputation, outside
/// this layer.
pub proof fn lemma_encode_decode_share_parameters(
    ec: EncodeCall,
    dc: DecodeCall,
    d: RegisteredUpdateProof,
    comm_d_new: Commitment,
)
    requires
        ec.shape == shape_of(d.sector_size),
        ec.config == spec_v1_config(d.sector_size),
        dc.shape == shape_of(d.sector_size),
        dc.config == spec_v1_config(d.sector_size),
        dc.comm_d_new == comm_d_new,
    ensures
        dc.shape == ec.shape,
        dc.config == ec.config,
        dc.comm_d_new == comm_d_new,
{
}

/// The layer's share of the encode/remove inverse: for one descriptor, the
/// encode call and the remove call are dispatched to the same shape under the
/// same backend configuration, and the remove call is validated against
/// exactly the `comm_d_new` that encoding produced. That removal then restores
/// a sector key bit-identical to the pre-encode one is the backend's
/// transform, outside this layer.
pub proof fn lemma_encode_remove_share_parameters(
    ec: EncodeCall,
    rc: RemoveDataCall,
    d: RegisteredUpdateProof,
    comm_d_new: Commitment,
)
    requires
        ec.shape == shape_of(d.sector_size),
        ec.config == spec_v1_config(d.sector_size),
        rc.shape == shape_of(d.sector_size),
        rc.config == spec_v1_config(d.sector_size),
        rc.comm_d_new == comm_d_new,
    ensures
        rc.shape == ec.shape,
        rc.config == ec.config,
        rc.comm_d_new == comm_d_new,
{
}

/// The layer's share of proof soundness: generation and verification for one
/// descriptor and one commitment triple hand the backend the same shape, the
/// same configuration and the same triple — this layer introduces no
/// parameter skew between proving and verifying. Whether the proof itself is
/// then cryptographically valid is the backend's circuit, outside this layer.
pub proof fn lemma_prove_verify_share_parameters(
    pc: ProveCall,
    vc: VerifyCall,
    d: RegisteredUpdateProof,
    comm_r_old: Commitment,
    comm_r_new: Commitment,
    comm_d_new: Commitment,
)
    requires
        pc.shape == shape_of(d.sector_size),
        pc.config == spec_v1_config(d.sector_size),
        pc.comm_r_old == comm_r_old,
        pc.comm_r_new == comm_r_new,
        pc.comm_d_new == comm_d_new,
        vc.shape == shape_of(d.sector_size),
        vc.config == spec_v1_config(d.sector_size),
        vc.comm_r_old == comm_r_old,
        vc.comm_r_new == comm_r_new,
        vc.comm_d_new == comm_d_new,
    ensures
        vc.shape == pc.shape,
        vc.config == pc.config,
        vc.comm_r_old == pc.comm_r_old,
        vc.comm_r_new == pc.comm_r_new,
        vc.comm_d_new == pc.comm_d_new,
{
}

} // verus!

