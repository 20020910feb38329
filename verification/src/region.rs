//! Contiguous spans of guest-physical memory, in byte units.

use vstd::prelude::*;

verus! {

/// Size in bytes of one machine page.
pub const PAGE_SIZE: usize = 4096;

/// A span of `len` bytes of guest-physical memory that begins at `start`.
#[derive(Clone, Copy, Debug, PartialEq, Eq, Structural)]
pub struct MemoryRegion {
    pub start: u64,
    pub len: usize,
}

impl MemoryRegion {
    /// The region of `len` bytes at `start`.
    pub fn new(start: u64, len: usize) -> (r: Self)
        ensures
            r == (MemoryRegion { start, len }),
    {
        MemoryRegion { start, len }
    }

    /// The address of the first byte.
    pub fn start(&self) -> (r: u64)
        ensures
            r == self.start,
    {
        self.start
    }

    /// The number of bytes.
    pub fn len(&self) -> (r: usize)
        ensures
            r == self.len,
    {
        self.len
    }

    /// The address one past the last byte, as a mathematical integer.
    pub open spec fn end(&self) -> int {
        self.start + self.len
    }
}

} // verus!
