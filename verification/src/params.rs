//! The parameter area as a whole: locating its three parts in a byte image
//! and answering the boot sequence's questions about them.

use crate::defs::{memory_map_entry_size, MEMORY_MAP_ENTRY_SIZE};
use crate::error::SvsmError;
use crate::layout::{
    IgvmMemoryMapEntry, IgvmParamBlock, IgvmParamPage, PARAM_BLOCK_SIZE, PARAM_PAGE_SIZE,
};
use crate::memory_map::{
    entry_in_order, high_water_mark, lemma_populated_count_is, lemma_populated_from,
    lemma_region_fits, lemma_usable_regions_step, populated_count, region_fits, regions_fit,
    usable_regions, usable_regions_of_prefix, well_ordered,
};
use crate::region::{MemoryRegion, PAGE_SIZE};
use vstd::prelude::*;

verus! {

/// Number of entries in a memory map: as many as fit in one page.
pub const IGVM_MEMORY_ENTRIES_PER_PAGE: usize = 170;

/// The memory-map table: one page of entries, of which those before the
/// first entry without pages are populated.
#[derive(Debug)]
pub struct IgvmMemoryMap {
    memory_map: Vec<IgvmMemoryMapEntry>,
}

impl View for IgvmMemoryMap {
    type V = Seq<IgvmMemoryMapEntry>;

    /// All entries of the table, populated or not, in table order.
    closed spec fn view(&self) -> Seq<IgvmMemoryMapEntry> {
        self.memory_map@
    }
}

impl Clone for IgvmMemoryMap {
    fn clone(&self) -> (r: Self)
        ensures
            r@ == self@,
    {
        proof {
            use_type_invariant(self);
        }
        let memory_map = self.memory_map.clone();
        assert(memory_map@ =~= self.memory_map@);
        IgvmMemoryMap { memory_map }
    }
}

impl IgvmMemoryMap {
    #[verifier::type_invariant]
    spec fn full_page(&self) -> bool {
        self.memory_map@.len() == IGVM_MEMORY_ENTRIES_PER_PAGE
    }

    /// The table that the page of `mem` from `off` on encodes: entry `i`
    /// lies `i` entry sizes behind `off`.
    pub open spec fn decode_spec(mem: Seq<u8>, off: int) -> Seq<IgvmMemoryMapEntry> {
        Seq::new(
            IGVM_MEMORY_ENTRIES_PER_PAGE as nat,
            |i: int| IgvmMemoryMapEntry::decode_spec(mem, off + i * MEMORY_MAP_ENTRY_SIZE),
        )
    }

    /// Decodes the table in the page at `off`.
    pub fn decode(mem: &[u8], off: usize) -> (r: Self)
        requires
            off + PAGE_SIZE <= mem.len(),
        ensures
            r@ == Self::decode_spec(mem@, off as int),
    {
        let entry_size: usize = memory_map_entry_size();
        let count: usize = PAGE_SIZE / entry_size;
        let mut memory_map: Vec<IgvmMemoryMapEntry> = Vec::new();
        let mut i: usize = 0;
        while i < count
            invariant
                entry_size == MEMORY_MAP_ENTRY_SIZE,
                count == IGVM_MEMORY_ENTRIES_PER_PAGE,
                off + PAGE_SIZE <= mem.len(),
                i <= count,
                memory_map@.len() == i,
                forall|j: int|
                    0 <= j < i ==> memory_map@[j] == IgvmMemoryMapEntry::decode_spec(
                        mem@,
                        off + j * MEMORY_MAP_ENTRY_SIZE,
                    ),
            decreases count - i,
        {
            let entry = IgvmMemoryMapEntry::decode(mem, off + i * entry_size);
            memory_map.push(entry);
            i += 1;
        }
        assert(memory_map@ =~= Self::decode_spec(mem@, off as int));
        IgvmMemoryMap { memory_map }
    }
}

/// The parameter area: its header, its secondary header and its memory map.
#[derive(Clone, Debug)]
pub struct IgvmParams {
    igvm_param_block: IgvmParamBlock,
    igvm_param_page: IgvmParamPage,
    igvm_memory_map: IgvmMemoryMap,
}

impl IgvmParams {
    /// The header.
    pub closed spec fn param_block(&self) -> IgvmParamBlock {
        self.igvm_param_block
    }

    /// The secondary header.
    pub closed spec fn param_page(&self) -> IgvmParamPage {
        self.igvm_param_page
    }

    /// The entries of the memory map.
    pub closed spec fn memory_map(&self) -> Seq<IgvmMemoryMapEntry> {
        self.igvm_memory_map@
    }

    /// The header at `base`, and both parts that its offsets point to, lie
    /// within `mem`.
    pub open spec fn in_bounds(mem: Seq<u8>, base: int) -> bool {
        let block = IgvmParamBlock::decode_spec(mem, base);
        &&& 0 <= base
        &&& base + PARAM_BLOCK_SIZE <= mem.len()
        &&& base + block.param_page_offset + PARAM_PAGE_SIZE <= mem.len()
        &&& base + block.memory_map_offset + PAGE_SIZE <= mem.len()
    }

    /// Tests whether `mem` holds a whole parameter area at `base`.
    pub fn fits(mem: &[u8], base: usize) -> (r: bool)
        ensures
            r == Self::in_bounds(mem@, base as int),
    {
        let len: usize = mem.len();
        if len < PARAM_BLOCK_SIZE || base > len - PARAM_BLOCK_SIZE {
            return false;
        }
        let block = IgvmParamBlock::decode(mem, base);
        let room: usize = len - base;
        let param_page_offset: usize = block.param_page_offset as usize;
        let memory_map_offset: usize = block.memory_map_offset as usize;
        room >= PARAM_PAGE_SIZE && param_page_offset <= room - PARAM_PAGE_SIZE && room >= PAGE_SIZE
            && memory_map_offset <= room - PAGE_SIZE
    }

    /// Locates the parameter area at `base`: the header there, the secondary
    /// header at the header's parameter-page offset from `base`, and the
    /// memory map at its memory-map offset from `base`.
    pub fn new(mem: &[u8], base: usize) -> (r: Self)
        requires
            Self::in_bounds(mem@, base as int),
        ensures
            r.param_block() == IgvmParamBlock::decode_spec(mem@, base as int),
            r.param_page() == IgvmParamPage::decode_spec(
                mem@,
                base + r.param_block().param_page_offset,
            ),
            r.memory_map() == IgvmMemoryMap::decode_spec(
                mem@,
                base + r.param_block().memory_map_offset,
            ),
    {
        assert(mem.len() == mem@.len());
        let param_block = IgvmParamBlock::decode(mem, base);
        let param_page_address: usize = base + param_block.param_page_offset as usize;
        let param_page = IgvmParamPage::decode(mem, param_page_address);
        let memory_map_address: usize = base + param_block.memory_map_offset as usize;
        let memory_map = IgvmMemoryMap::decode(mem, memory_map_address);

        IgvmParams {
            igvm_param_block: param_block,
            igvm_param_page: param_page,
            igvm_memory_map: memory_map,
        }
    }

    /// The total size in bytes of the parameter area.
    pub fn size(&self) -> (r: usize)
        ensures
            r == self.param_block().param_area_size,
    {
        self.igvm_param_block.param_area_size as usize
    }

    /// The region that the kernel image occupies.
    pub fn find_kernel_region(&self) -> (r: Result<MemoryRegion, SvsmError>)
        ensures
            r == Ok::<MemoryRegion, SvsmError>(
                MemoryRegion {
                    start: self.param_block().kernel_base,
                    len: self.param_block().kernel_size as usize,
                },
            ),
    {
        let kernel_base: u64 = self.igvm_param_block.kernel_base;
        let kernel_size: usize = self.igvm_param_block.kernel_size as usize;
        Ok(MemoryRegion::new(kernel_base, kernel_size))
    }

    /// Whether pages start out shared, so that a page must change state
    /// before the guest uses it as private memory.
    pub fn page_state_change_required(&self) -> (r: bool)
        ensures
            r == (self.param_page().default_shared_pages != 0),
    {
        self.igvm_param_page.default_shared_pages != 0
    }

    /// The guest-physical address of the CPUID page.
    pub fn get_cpuid_page_address(&self) -> (r: u64)
        ensures
            r == self.param_block().cpuid_page,
    {
        self.igvm_param_block.cpuid_page as u64
    }

    /// The guest-physical address of the secrets page.
    pub fn get_secrets_page_address(&self) -> (r: u64)
        ensures
            r == self.param_block().secrets_page,
    {
        self.igvm_param_block.secrets_page as u64
    }

    /// Counts the populated entries of the memory map, or reports the
    /// firmware error where they are not in order.
    fn count_memory_entries(&self) -> (r: Result<usize, SvsmError>)
        ensures
            match r {
                Ok(n) => well_ordered(self.memory_map()) && n == populated_count(
                    self.memory_map(),
                ) && n <= self.memory_map().len(),
                Err(e) => e == SvsmError::Firmware && !well_ordered(self.memory_map()),
            },
    {
        proof {
            use_type_invariant(&self.igvm_memory_map);
        }
        let ghost entries = self.igvm_memory_map@;

        // Count the number of memory entries present.  They must be
        // non-overlapping and strictly increasing.
        let mut number_of_entries: usize = 0;
        let mut next_page_number: u64 = 0;
        let mut i: usize = 0;
        while i < IGVM_MEMORY_ENTRIES_PER_PAGE
            invariant
                entries == self.igvm_memory_map@,
                entries.len() == IGVM_MEMORY_ENTRIES_PER_PAGE,
                i <= IGVM_MEMORY_ENTRIES_PER_PAGE,
                number_of_entries == i,
                next_page_number == high_water_mark(entries, i as int),
                forall|j: int| 0 <= j < i ==> (#[trigger] entries[j]).number_of_pages != 0,
                forall|j: int| 0 <= j < i ==> #[trigger] entry_in_order(entries, j),
                i == IGVM_MEMORY_ENTRIES_PER_PAGE ==> populated_count(entries) == i,
            ensures
                number_of_entries == populated_count(entries),
                number_of_entries <= IGVM_MEMORY_ENTRIES_PER_PAGE,
                well_ordered(entries),
            decreases IGVM_MEMORY_ENTRIES_PER_PAGE - i,
        {
            let entry = &self.igvm_memory_map.memory_map[i];
            if entry.number_of_pages == 0 {
                proof {
                    lemma_populated_count_is(entries, i as int);
                }
                break ;
            }
            proof {
                // Entry `i` is populated, so it is among those that must be
                // in order.
                lemma_populated_from(entries, 0);
                if populated_count(entries) <= i {
                    assert(entries[populated_count(entries)].number_of_pages != 0);
                }
            }
            if entry.starting_gpa_page_number < next_page_number {
                assert(!entry_in_order(entries, i as int));
                return Err(SvsmError::Firmware);
            }
            let next_supplied_page_number: u64 = entry.end_page();
            if next_supplied_page_number < next_page_number {
                assert(!entry_in_order(entries, i as int));
                return Err(SvsmError::Firmware);
            }
            next_page_number = next_supplied_page_number;
            number_of_entries += 1;
            i += 1;
            proof {
                if i == IGVM_MEMORY_ENTRIES_PER_PAGE {
                    lemma_populated_count_is(entries, i as int);
                }
            }
        }
        Ok(number_of_entries)
    }

    /// Tests whether `get_memory_regions` can answer: the map is out of
    /// order, or each of its usable populated entries has a start address
    /// and a length in bytes that fit a region.
    pub fn memory_regions_representable(&self) -> (r: bool)
        ensures
            r == (well_ordered(self.memory_map()) ==> regions_fit(self.memory_map())),
    {
        let number_of_entries: usize = match self.count_memory_entries() {
            Ok(n) => n,
            Err(_) => {
                return true;
            },
        };
        let ghost entries = self.igvm_memory_map@;
        let last_page: u64 = u64::MAX / (PAGE_SIZE as u64);
        let most_pages: u64 = (usize::MAX / PAGE_SIZE) as u64;
        for i in 0..number_of_entries
            invariant
                entries == self.igvm_memory_map@,
                number_of_entries == populated_count(entries),
                number_of_entries <= entries.len(),
                well_ordered(entries),
                last_page == u64::MAX / (PAGE_SIZE as u64),
                most_pages == usize::MAX / PAGE_SIZE,
                forall|j: int|
                    0 <= j < i && (#[trigger] entries[j]).is_usable_spec() ==> region_fits(
                        entries[j],
                    ),
        {
            let entry = &self.igvm_memory_map.memory_map[i];
            proof {
                lemma_region_fits(entries[i as int]);
            }
            if entry.is_usable() && (entry.starting_gpa_page_number > last_page
                || entry.number_of_pages > most_pages) {
                return false;
            }
        }
        true
    }

    /// The regions of usable memory, in table order, or the firmware error
    /// where the populated entries of the map are not in order.
    ///
    /// A map that is in order and holds a usable entry whose start address
    /// or length in bytes does not fit a region is outside what this
    /// function accepts; `memory_regions_representable` tests for it.
    pub fn get_memory_regions(&self) -> (r: Result<Vec<MemoryRegion>, SvsmError>)
        requires
            well_ordered(self.memory_map()) ==> regions_fit(self.memory_map()),
        ensures
            match r {
                Ok(regions) => well_ordered(self.memory_map()) && regions@ == usable_regions(
                    self.memory_map(),
                ),
                Err(e) => e == SvsmError::Firmware && !well_ordered(self.memory_map()),
            },
    {
        let number_of_entries: usize = self.count_memory_entries()?;
        let ghost entries = self.igvm_memory_map@;

        // Now loop over the supplied entries and add a region for each
        // usable one.
        let mut regions: Vec<MemoryRegion> = Vec::new();
        assert(entries.take(0) =~= Seq::<IgvmMemoryMapEntry>::empty());
        for i in 0..number_of_entries
            invariant
                entries == self.igvm_memory_map@,
                number_of_entries == populated_count(entries),
                number_of_entries <= entries.len(),
                regions_fit(entries),
                regions@ == usable_regions_of_prefix(entries, i as int),
        {
            let entry = &self.igvm_memory_map.memory_map[i];
            proof {
                lemma_usable_regions_step(entries, i as int);
            }
            if entry.is_usable() {
                assert(entries[i as int].is_usable_spec());
                let starting_page: u64 = entry.starting_gpa_page_number;
                let number_of_pages: usize = entry.number_of_pages as usize;
                regions.push(
                    MemoryRegion::new(
                        starting_page * (PAGE_SIZE as u64),
                        number_of_pages * PAGE_SIZE,
                    ),
                );
            }
        }

        Ok(regions)
    }
}

} // verus!
