//! Little-endian integers in a byte image.

use vstd::prelude::*;

verus! {

/// The unsigned integer that the `width` bytes of `mem` from `off` on encode,
/// least significant byte first.
pub open spec fn le_value(mem: Seq<u8>, off: int, width: nat) -> nat
    recommends
        0 <= off,
        off + width <= mem.len(),
    decreases width,
{
    if width == 0 {
        0
    } else {
        mem[off] as nat + 256 * le_value(mem, off + 1, (width - 1) as nat)
    }
}

/// A little-endian value of `width` bytes is below `256^width`; stated here
/// for the three widths that the parameter area uses.
pub proof fn lemma_le_value_bounds(mem: Seq<u8>, off: int)
    ensures
        le_value(mem, off, 2) <= u16::MAX,
        le_value(mem, off, 4) <= u32::MAX,
        le_value(mem, off, 8) <= u64::MAX,
{
    reveal_with_fuel(le_value, 9);
}

/// Reads the 16-bit little-endian integer at `off`.
pub fn read_u16(mem: &[u8], off: usize) -> (r: u16)
    requires
        off + 2 <= mem.len(),
    ensures
        r == le_value(mem@, off as int, 2),
{
    proof {
        reveal_with_fuel(le_value, 3);
    }
    let b0: u16 = mem[off] as u16;
    let b1: u16 = mem[off + 1] as u16;
    b0 + b1 * 0x100
}

/// Reads the 32-bit little-endian integer at `off`.
pub fn read_u32(mem: &[u8], off: usize) -> (r: u32)
    requires
        off + 4 <= mem.len(),
    ensures
        r == le_value(mem@, off as int, 4),
{
    proof {
        reveal_with_fuel(le_value, 5);
    }
    let b0: u32 = mem[off] as u32;
    let b1: u32 = mem[off + 1] as u32;
    let b2: u32 = mem[off + 2] as u32;
    let b3: u32 = mem[off + 3] as u32;
    b0 + b1 * 0x100 + b2 * 0x1_0000 + b3 * 0x100_0000
}

/// Reads the 64-bit little-endian integer at `off`.
pub fn read_u64(mem: &[u8], off: usize) -> (r: u64)
    requires
        off + 8 <= mem.len(),
    ensures
        r == le_value(mem@, off as int, 8),
{
    proof {
        reveal_with_fuel(le_value, 9);
    }
    let b0: u64 = mem[off] as u64;
    let b1: u64 = mem[off + 1] as u64;
    let b2: u64 = mem[off + 2] as u64;
    let b3: u64 = mem[off + 3] as u64;
    let b4: u64 = mem[off + 4] as u64;
    let b5: u64 = mem[off + 5] as u64;
    let b6: u64 = mem[off + 6] as u64;
    let b7: u64 = mem[off + 7] as u64;
    b0 + b1 * 0x100 + b2 * 0x1_0000 + b3 * 0x100_0000 + b4 * 0x1_0000_0000 + b5
        * 0x100_0000_0000 + b6 * 0x1_0000_0000_0000 + b7 * 0x100_0000_0000_0000
}

} // verus!
