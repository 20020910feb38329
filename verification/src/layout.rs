//! The fixed layouts of the parameter area: the parameter block, the
//! parameter page and one memory-map entry.
//!
//! All integers are little-endian and the records are packed: a field's
//! offset is the sum of the widths of the fields before it.

use crate::defs::{memory_entry_type, MEMORY_ENTRY_TYPE, MEMORY_MAP_ENTRY_SIZE};
use crate::le::{le_value, read_u16, read_u32, read_u64};
use vstd::prelude::*;

verus! {

/// Size in bytes of the parameter block.
pub const PARAM_BLOCK_SIZE: usize = 32;

/// Size in bytes of the parameter page's fields.
pub const PARAM_PAGE_SIZE: usize = 8;

/// The header of the parameter area. It lies at the base of the area.
#[derive(Clone, Copy, Debug, PartialEq, Eq, Structural)]
pub struct IgvmParamBlock {
    /// Total size in bytes of the parameter area (offset 0).
    pub param_area_size: u32,
    /// Offset in bytes from the base to the parameter page (offset 4).
    pub param_page_offset: u32,
    /// Offset in bytes from the base to the memory map (offset 8).
    pub memory_map_offset: u32,
    /// Guest-physical address of the CPUID page (offset 12).
    pub cpuid_page: u32,
    /// Guest-physical address of the secrets page (offset 16).
    pub secrets_page: u32,
    /// Size in bytes of the kernel image (offset 20).
    pub kernel_size: u32,
    /// Guest-physical address of the kernel image (offset 24).
    pub kernel_base: u64,
}

impl IgvmParamBlock {
    /// The parameter block that the bytes of `mem` from `off` on encode.
    pub open spec fn decode_spec(mem: Seq<u8>, off: int) -> IgvmParamBlock {
        IgvmParamBlock {
            param_area_size: le_value(mem, off, 4) as u32,
            param_page_offset: le_value(mem, off + 4, 4) as u32,
            memory_map_offset: le_value(mem, off + 8, 4) as u32,
            cpuid_page: le_value(mem, off + 12, 4) as u32,
            secrets_page: le_value(mem, off + 16, 4) as u32,
            kernel_size: le_value(mem, off + 20, 4) as u32,
            kernel_base: le_value(mem, off + 24, 8) as u64,
        }
    }

    /// Decodes the parameter block at `off`.
    pub fn decode(mem: &[u8], off: usize) -> (r: Self)
        requires
            off + PARAM_BLOCK_SIZE <= mem.len(),
        ensures
            r == Self::decode_spec(mem@, off as int),
    {
        IgvmParamBlock {
            param_area_size: read_u32(mem, off),
            param_page_offset: read_u32(mem, off + 4),
            memory_map_offset: read_u32(mem, off + 8),
            cpuid_page: read_u32(mem, off + 12),
            secrets_page: read_u32(mem, off + 16),
            kernel_size: read_u32(mem, off + 20),
            kernel_base: read_u64(mem, off + 24),
        }
    }
}

/// The secondary header: parameters that the host supplies unmeasured.
#[derive(Clone, Copy, Debug, PartialEq, Eq, Structural)]
pub struct IgvmParamPage {
    /// Number of virtual CPUs of the guest (offset 0).
    pub cpu_count: u32,
    /// Non-zero where guest pages start out shared (offset 4).
    pub default_shared_pages: u32,
}

impl IgvmParamPage {
    /// The parameter page that the bytes of `mem` from `off` on encode.
    pub open spec fn decode_spec(mem: Seq<u8>, off: int) -> IgvmParamPage {
        IgvmParamPage {
            cpu_count: le_value(mem, off, 4) as u32,
            default_shared_pages: le_value(mem, off + 4, 4) as u32,
        }
    }

    /// Decodes the parameter page at `off`.
    pub fn decode(mem: &[u8], off: usize) -> (r: Self)
        requires
            off + PARAM_PAGE_SIZE <= mem.len(),
        ensures
            r == Self::decode_spec(mem@, off as int),
    {
        IgvmParamPage {
            cpu_count: read_u32(mem, off),
            default_shared_pages: read_u32(mem, off + 4),
        }
    }
}

/// One entry of the memory map: a run of guest pages of one type.
#[derive(Clone, Copy, Debug, PartialEq, Eq, Structural)]
pub struct IgvmMemoryMapEntry {
    /// Page number of the first page (offset 0).
    pub starting_gpa_page_number: u64,
    /// Number of pages; zero ends the populated part of the map (offset 8).
    pub number_of_pages: u64,
    /// The kind of memory (offset 16).
    pub entry_type: u16,
    /// Flags (offset 18). The four bytes after them are reserved.
    pub flags: u16,
}

impl IgvmMemoryMapEntry {
    /// The entry that the bytes of `mem` from `off` on encode.
    pub open spec fn decode_spec(mem: Seq<u8>, off: int) -> IgvmMemoryMapEntry {
        IgvmMemoryMapEntry {
            starting_gpa_page_number: le_value(mem, off, 8) as u64,
            number_of_pages: le_value(mem, off + 8, 8) as u64,
            entry_type: le_value(mem, off + 16, 2) as u16,
            flags: le_value(mem, off + 18, 2) as u16,
        }
    }

    /// Decodes the entry at `off`.
    pub fn decode(mem: &[u8], off: usize) -> (r: Self)
        requires
            off + MEMORY_MAP_ENTRY_SIZE <= mem.len(),
        ensures
            r == Self::decode_spec(mem@, off as int),
    {
        IgvmMemoryMapEntry {
            starting_gpa_page_number: read_u64(mem, off),
            number_of_pages: read_u64(mem, off + 8),
            entry_type: read_u16(mem, off + 16),
            flags: read_u16(mem, off + 18),
        }
    }

    /// Whether the entry describes usable memory.
    pub open spec fn is_usable_spec(&self) -> bool {
        self.entry_type == MEMORY_ENTRY_TYPE
    }

    /// Whether the entry describes usable memory.
    pub fn is_usable(&self) -> (r: bool)
        ensures
            r == self.is_usable_spec(),
    {
        self.entry_type == memory_entry_type()
    }

    /// The page number one past the entry's last page, reduced modulo 2^64.
    pub open spec fn end_page_spec(&self) -> u64 {
        if self.starting_gpa_page_number + self.number_of_pages > u64::MAX {
            (self.starting_gpa_page_number + self.number_of_pages - 0x1_0000_0000_0000_0000) as u64
        } else {
            (self.starting_gpa_page_number + self.number_of_pages) as u64
        }
    }

    /// The page number one past the entry's last page, reduced modulo 2^64.
    pub fn end_page(&self) -> (r: u64)
        ensures
            r == self.end_page_spec(),
    {
        self.starting_gpa_page_number.wrapping_add(self.number_of_pages)
    }
}

} // verus!
