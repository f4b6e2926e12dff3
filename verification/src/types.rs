//! The plain data the update layer interprets or passes through.

use vstd::prelude::*;

verus! {

/// A fixed-width cryptographic digest. This layer never interprets its bytes:
/// commitments are carried through and compared for equality only.
#[derive(Clone, Copy, Debug, PartialEq, Eq)]
pub struct Commitment(pub [u8; 32]);

/// One discrete unit of user data staged into a sector: its commitment and its
/// size in bytes (a power of two). The order of a sequence of pieces is
/// semantically significant — it fixes each piece's position in the sector's
/// commitment tree — so this layer forwards piece sequences exactly as given.
#[derive(Clone, Copy, Debug, PartialEq, Eq)]
pub struct PieceInfo {
    pub commitment: Commitment,
    pub size: u64,
}

/// The registered update-proof descriptor: the protocol version and the sector
/// size are the only fields this layer interprets; everything else about the
/// backend's configuration is derived from them.
#[derive(Clone, Copy, Debug, PartialEq, Eq, Structural)]
pub struct RegisteredUpdateProof {
    pub major_version: u64,
    pub sector_size: u64,
}

impl RegisteredUpdateProof {
    /// The protocol major version this descriptor was registered under.
    pub fn major_version(&self) -> (v: u64)
        ensures
            v == self.major_version,
    {
        self.major_version
    }

    /// The sector size, as a byte count.
    pub fn sector_size(&self) -> (s: u64)
        ensures
            s == self.sector_size,
    {
        self.sector_size
    }
}

} // verus!
