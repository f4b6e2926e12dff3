//! The sector-size → tree-shape dispatch table.
//!
//! Each supported sector size is bound to one of four statically distinct tree
//! configurations. The lookup is total over the registered sizes and fails
//! with `UnsupportedShape` for every other size — never a silent default.

use vstd::prelude::*;

use crate::error::UpdateError;

verus! {

pub const SECTOR_SIZE_2_KIB: u64 = 2048;

pub const SECTOR_SIZE_4_KIB: u64 = 4096;

pub const SECTOR_SIZE_16_KIB: u64 = 16384;

pub const SECTOR_SIZE_32_KIB: u64 = 32768;

pub const SECTOR_SIZE_8_MIB: u64 = 8388608;

pub const SECTOR_SIZE_16_MIB: u64 = 16777216;

pub const SECTOR_SIZE_512_MIB: u64 = 536870912;

pub const SECTOR_SIZE_1_GIB: u64 = 1073741824;

pub const SECTOR_SIZE_32_GIB: u64 = 34359738368;

pub const SECTOR_SIZE_64_GIB: u64 = 68719476736;

/// The four statically distinct tree configurations the backend is
/// specialized against. Which sector sizes share a shape is fixed by the
/// backend's tree layout: `Base` is the single-level base tree, `Sub2` and
/// `Sub8` add a sub-tree of arity 2 or 8, and `Top2` adds a top tree of
/// arity 2 above an arity-8 sub-tree.
#[derive(Clone, Copy, Debug, PartialEq, Eq, Structural)]
pub enum SectorShape {
    Base,
    Sub2,
    Sub8,
    Top2,
}

/// The registered sector sizes: exactly these resolve to a shape.
pub open spec fn supported_sector_size(sector_size: u64) -> bool {
    ||| sector_size == SECTOR_SIZE_2_KIB
    ||| sector_size == SECTOR_SIZE_4_KIB
    ||| sector_size == SECTOR_SIZE_16_KIB
    ||| sector_size == SECTOR_SIZE_32_KIB
    ||| sector_size == SECTOR_SIZE_8_MIB
    ||| sector_size == SECTOR_SIZE_16_MIB
    ||| sector_size == SECTOR_SIZE_512_MIB
    ||| sector_size == SECTOR_SIZE_1_GIB
    ||| sector_size == SECTOR_SIZE_32_GIB
    ||| sector_size == SECTOR_SIZE_64_GIB
}

/// The dispatch table: which shape each registered sector size selects.
pub open spec fn shape_of(sector_size: u64) -> SectorShape
    recommends
        supported_sector_size(sector_size),
{
    if sector_size == SECTOR_SIZE_2_KIB || sector_size == SECTOR_SIZE_8_MIB
        || sector_size == SECTOR_SIZE_512_MIB {
        SectorShape::Base
    } else if sector_size == SECTOR_SIZE_4_KIB || sector_size == SECTOR_SIZE_16_MIB
        || sector_size == SECTOR_SIZE_1_GIB {
        SectorShape::Sub2
    } else if sector_size == SECTOR_SIZE_16_KIB || sector_size == SECTOR_SIZE_32_GIB {
        SectorShape::Sub8
    } else {
        SectorShape::Top2
    }
}

/// Resolves a sector size to its registered shape, or fails with
/// `UnsupportedShape`. Total over all sizes: every supported size resolves,
/// every other size is rejected, and nothing defaults silently.
pub fn sector_shape(sector_size: u64) -> (r: Result<SectorShape, UpdateError>)
    ensures
        supported_sector_size(sector_size) ==> r == Ok::<SectorShape, UpdateError>(
            shape_of(sector_size),
        ),
        !supported_sector_size(sector_size) ==> r == Err::<SectorShape, UpdateError>(
            UpdateError::UnsupportedShape { sector_size },
        ),
{
    if sector_size == SECTOR_SIZE_2_KIB || sector_size == SECTOR_SIZE_8_MIB
        || sector_size == SECTOR_SIZE_512_MIB {
        Ok(SectorShape::Base)
    } else if sector_size == SECTOR_SIZE_4_KIB || sector_size == SECTOR_SIZE_16_MIB
        || sector_size == SECTOR_SIZE_1_GIB {
        Ok(SectorShape::Sub2)
    } else if sector_size == SECTOR_SIZE_16_KIB || sector_size == SECTOR_SIZE_32_GIB {
        Ok(SectorShape::Sub8)
    } else if sector_size == SECTOR_SIZE_32_KIB || sector_size == SECTOR_SIZE_64_GIB {
        Ok(SectorShape::Top2)
    } else {
        Err(UpdateError::UnsupportedShape { sector_size })
    }
}

} // verus!
