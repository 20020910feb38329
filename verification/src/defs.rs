//! What this library takes from the `igvm_defs` crate: the size of a
//! memory-map entry and the entry type that marks usable memory.
//!
//! Verus does not read that crate. The contracts in this file are stated from
//! its source and are believed, not proved.

use vstd::prelude::*;

verus! {

/// Size in bytes of one memory-map entry.
pub const MEMORY_MAP_ENTRY_SIZE: usize = 24;

/// The entry type of normal, usable memory.
pub const MEMORY_ENTRY_TYPE: u16 = 0;

/// The size of `igvm_defs::IGVM_VHS_MEMORY_MAP_ENTRY`, through
/// `core::mem::size_of`.
///
/// Trusted: that structure is `repr(C)` and holds two `u64`, two 16-bit
/// values (the entry type is a transparent `u16`) and a `u32`, so it takes
/// 24 bytes with no padding.
#[verifier::external_body]
pub(crate) fn memory_map_entry_size() -> (r: usize)
    ensures
        r == MEMORY_MAP_ENTRY_SIZE,
{
    core::mem::size_of::<igvm_defs::IGVM_VHS_MEMORY_MAP_ENTRY>()
}

/// The number behind `igvm_defs::MemoryMapEntryType::MEMORY`.
///
/// Trusted: the crate declares `MEMORY = 0x0`, in a type that wraps a public
/// `u16`.
#[verifier::external_body]
pub(crate) fn memory_entry_type() -> (r: u16)
    ensures
        r == MEMORY_ENTRY_TYPE,
{
    igvm_defs::MemoryMapEntryType::MEMORY.0
}

} // verus!
