use crate::pattern::PatternType;
use vstd::prelude::*;

verus! {

/// What can go wrong while attaching to the game and reading its state.
#[derive(Debug, Clone, Copy, PartialEq, Eq, Structural)]
pub enum HuntError {
    /// The game process could not be found.
    NotAttached,
    /// The memory-map table of the process could not be read.
    MapReadFailure,
    /// The regions are not in ascending order, or two of them overlap.
    RegionOrderingInvariant,
    /// A region's bytes could not be read in full.
    RegionReadFailure,
    /// A signature was not found in any region.
    PatternMissing(PatternType),
    /// A read during a refresh tick failed.
    TickReadFailure,
    /// Writing a memory dump failed.
    DumpIoFailure,
    /// The monster id is not in the metadata table.
    UnknownMonster(u32),
}

} // verus!
