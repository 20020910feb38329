use igvm_params::defs::{MEMORY_ENTRY_TYPE, MEMORY_MAP_ENTRY_SIZE};
use igvm_params::le::{read_u16, read_u32, read_u64};
use igvm_params::{
    IgvmMemoryMap, IgvmMemoryMapEntry, IgvmParamBlock, IgvmParamPage, IgvmParams, MemoryRegion,
    SvsmError, IGVM_MEMORY_ENTRIES_PER_PAGE, PAGE_SIZE,
};

/// Writes a header at `base` whose offsets are `page_offset` and
/// `map_offset`, a parameter page with the given flag, and a one-entry map.
fn area(
    len: usize,
    base: usize,
    page_offset: u32,
    map_offset: u32,
    shared: u32,
    first: (u64, u64, u16),
) -> Vec<u8> {
    let mut mem = vec![0xa5u8; len];
    mem[base..base + 4].copy_from_slice(&0x0001_2000u32.to_le_bytes());
    mem[base + 4..base + 8].copy_from_slice(&page_offset.to_le_bytes());
    mem[base + 8..base + 12].copy_from_slice(&map_offset.to_le_bytes());
    mem[base + 12..base + 16].copy_from_slice(&0x0080_1000u32.to_le_bytes());
    mem[base + 16..base + 20].copy_from_slice(&0x0080_2000u32.to_le_bytes());
    mem[base + 20..base + 24].copy_from_slice(&0x0040_0000u32.to_le_bytes());
    mem[base + 24..base + 32].copy_from_slice(&0x0000_0001_0020_0000u64.to_le_bytes());
    let page = base + page_offset as usize;
    mem[page..page + 4].copy_from_slice(&4u32.to_le_bytes());
    mem[page + 4..page + 8].copy_from_slice(&shared.to_le_bytes());
    let map = base + map_offset as usize;
    for b in mem[map..map + PAGE_SIZE].iter_mut() {
        *b = 0;
    }
    mem[map..map + 8].copy_from_slice(&first.0.to_le_bytes());
    mem[map + 8..map + 16].copy_from_slice(&first.1.to_le_bytes());
    mem[map + 16..map + 18].copy_from_slice(&first.2.to_le_bytes());
    mem
}

#[test]
fn little_endian_readers() {
    let mem = [0x01u8, 0x02, 0x03, 0x04, 0x05, 0x06, 0x07, 0x08, 0x09, 0xff];
    assert_eq!(read_u16(&mem, 0), 0x0201);
    assert_eq!(read_u16(&mem, 8), 0xff09);
    assert_eq!(read_u32(&mem, 0), 0x0403_0201);
    assert_eq!(read_u32(&mem, 6), 0xff09_0807);
    assert_eq!(read_u64(&mem, 0), 0x0807_0605_0403_0201);
    assert_eq!(read_u64(&mem, 2), 0xff09_0807_0605_0403);
    assert_eq!(read_u64(&[0xff; 8], 0), u64::MAX);
    assert_eq!(read_u32(&[0xff; 4], 0), u32::MAX);
    assert_eq!(read_u16(&[0xff; 2], 0), u16::MAX);
}

#[test]
fn readers_agree_with_std() {
    let mem: Vec<u8> = (0..64u32).map(|i| (i * 37 + 11) as u8).collect();
    for off in 0..56 {
        let mut two = [0u8; 2];
        two.copy_from_slice(&mem[off..off + 2]);
        assert_eq!(read_u16(&mem, off), u16::from_le_bytes(two));
        let mut four = [0u8; 4];
        four.copy_from_slice(&mem[off..off + 4]);
        assert_eq!(read_u32(&mem, off), u32::from_le_bytes(four));
        let mut eight = [0u8; 8];
        eight.copy_from_slice(&mem[off..off + 8]);
        assert_eq!(read_u64(&mem, off), u64::from_le_bytes(eight));
    }
}

#[test]
fn param_block_fields_by_offset() {
    let mem = area(3 * PAGE_SIZE, 16, 0x40, 0x1000, 0, (0, 0, 0));
    let block = IgvmParamBlock::decode(&mem, 16);
    assert_eq!(
        block,
        IgvmParamBlock {
            param_area_size: 0x0001_2000,
            param_page_offset: 0x40,
            memory_map_offset: 0x1000,
            cpuid_page: 0x0080_1000,
            secrets_page: 0x0080_2000,
            kernel_size: 0x0040_0000,
            kernel_base: 0x0000_0001_0020_0000,
        }
    );
}

#[test]
fn param_page_fields_by_offset() {
    let mem = [1u8, 0, 0, 0, 0, 0, 1, 0, 9];
    assert_eq!(
        IgvmParamPage::decode(&mem, 0),
        IgvmParamPage { cpu_count: 1, default_shared_pages: 0x0001_0000 }
    );
    assert_eq!(
        IgvmParamPage::decode(&mem, 1),
        IgvmParamPage { cpu_count: 0, default_shared_pages: 0x0900_0100 }
    );
}

#[test]
fn memory_map_entry_fields_by_offset() {
    let mut mem = vec![0u8; 30];
    mem[3..11].copy_from_slice(&0x1122_3344_5566_7788u64.to_le_bytes());
    mem[11..19].copy_from_slice(&0x0000_0000_0001_0000u64.to_le_bytes());
    mem[19..21].copy_from_slice(&2u16.to_le_bytes());
    mem[21..23].copy_from_slice(&0x8001u16.to_le_bytes());
    mem[23..27].copy_from_slice(&0xdead_beefu32.to_le_bytes());
    let entry = IgvmMemoryMapEntry::decode(&mem, 3);
    assert_eq!(
        entry,
        IgvmMemoryMapEntry {
            starting_gpa_page_number: 0x1122_3344_5566_7788,
            number_of_pages: 0x1_0000,
            entry_type: 2,
            flags: 0x8001,
        }
    );
    assert!(!entry.is_usable());
    assert_eq!(entry.end_page(), 0x1122_3344_5567_7788);
}

#[test]
fn entry_matches_the_format_definition() {
    assert_eq!(MEMORY_MAP_ENTRY_SIZE, std::mem::size_of::<igvm_defs::IGVM_VHS_MEMORY_MAP_ENTRY>());
    assert_eq!(MEMORY_ENTRY_TYPE, igvm_defs::MemoryMapEntryType::MEMORY.0);
    assert_eq!(IGVM_MEMORY_ENTRIES_PER_PAGE, PAGE_SIZE / MEMORY_MAP_ENTRY_SIZE);
    let theirs = igvm_defs::IGVM_VHS_MEMORY_MAP_ENTRY {
        starting_gpa_page_number: 0x1234,
        number_of_pages: 0x56,
        entry_type: igvm_defs::MemoryMapEntryType::PLATFORM_RESERVED,
        flags: 0x789a,
        reserved: 0,
    };
    let mut mem = Vec::new();
    mem.extend_from_slice(&theirs.starting_gpa_page_number.to_le_bytes());
    mem.extend_from_slice(&theirs.number_of_pages.to_le_bytes());
    mem.extend_from_slice(&theirs.entry_type.0.to_le_bytes());
    mem.extend_from_slice(&theirs.flags.to_le_bytes());
    mem.extend_from_slice(&theirs.reserved.to_le_bytes());
    assert_eq!(mem.len(), MEMORY_MAP_ENTRY_SIZE);
    let ours = IgvmMemoryMapEntry::decode(&mem, 0);
    assert_eq!(ours.starting_gpa_page_number, theirs.starting_gpa_page_number);
    assert_eq!(ours.number_of_pages, theirs.number_of_pages);
    assert_eq!(ours.entry_type, theirs.entry_type.0);
    assert_eq!(ours.flags, theirs.flags);
    assert_eq!(ours.is_usable(), theirs.entry_type == igvm_defs::MemoryMapEntryType::MEMORY);
}

#[test]
fn usable_is_the_memory_type_only() {
    let mut entry = IgvmMemoryMapEntry {
        starting_gpa_page_number: 0,
        number_of_pages: 1,
        entry_type: igvm_defs::MemoryMapEntryType::MEMORY.0,
        flags: 0,
    };
    assert!(entry.is_usable());
    for other in [
        igvm_defs::MemoryMapEntryType::PLATFORM_RESERVED.0,
        igvm_defs::MemoryMapEntryType::PERSISTENT.0,
        igvm_defs::MemoryMapEntryType::VTL2_PROTECTABLE.0,
        0x100,
        u16::MAX,
    ] {
        entry.entry_type = other;
        assert!(!entry.is_usable());
    }
}

#[test]
fn end_page_wraps() {
    let entry = IgvmMemoryMapEntry {
        starting_gpa_page_number: u64::MAX,
        number_of_pages: 7,
        entry_type: 0,
        flags: 0,
    };
    assert_eq!(entry.end_page(), 6);
    let entry = IgvmMemoryMapEntry {
        starting_gpa_page_number: u64::MAX - 7,
        number_of_pages: 7,
        entry_type: 0,
        flags: 0,
    };
    assert_eq!(entry.end_page(), u64::MAX);
    let entry = IgvmMemoryMapEntry {
        starting_gpa_page_number: 5,
        number_of_pages: 0,
        entry_type: 0,
        flags: 0,
    };
    assert_eq!(entry.end_page(), 5);
}

#[test]
fn parts_are_read_where_the_header_points() {
    // The same header values with the parts at other offsets and another base.
    for (base, page_offset, map_offset) in
        [(0usize, 32u32, 4096u32), (24, 0x1800, 0x40), (4096, 4096 + 4000, 100), (7, 33, 41)]
    {
        let mem = area(4 * PAGE_SIZE, base, page_offset, map_offset, 1, (3, 2, 0));
        assert!(IgvmParams::fits(&mem, base));
        let params = IgvmParams::new(&mem, base);
        assert!(params.page_state_change_required());
        assert_eq!(
            params.get_memory_regions(),
            Ok(vec![MemoryRegion::new(3 * PAGE_SIZE as u64, 2 * PAGE_SIZE)])
        );

        // Changing a byte at base + offset changes what the query reads.
        let mut other = mem.clone();
        let page = base + page_offset as usize;
        other[page + 4..page + 8].copy_from_slice(&0u32.to_le_bytes());
        let map = base + map_offset as usize;
        other[map..map + 8].copy_from_slice(&9u64.to_le_bytes());
        let params = IgvmParams::new(&other, base);
        assert!(!params.page_state_change_required());
        assert_eq!(
            params.get_memory_regions(),
            Ok(vec![MemoryRegion::new(9 * PAGE_SIZE as u64, 2 * PAGE_SIZE)])
        );
    }
}

#[test]
fn parts_may_overlap_the_header() {
    // Offsets of zero place both parts on the header itself.
    let mut mem = vec![0u8; PAGE_SIZE];
    mem[0..4].copy_from_slice(&5u32.to_le_bytes());
    assert!(IgvmParams::fits(&mem, 0));
    let params = IgvmParams::new(&mem, 0);
    assert_eq!(params.size(), 5);
    // The table's first entry is the header's first sixteen bytes: start page
    // 5, no pages.
    assert_eq!(params.get_memory_regions(), Ok(vec![]));
    assert!(!params.page_state_change_required());
}

#[test]
fn area_must_lie_within_the_image() {
    let mem = area(2 * PAGE_SIZE, 0, 32, 4096, 0, (0, 0, 0));
    assert!(IgvmParams::fits(&mem, 0));
    // One byte short of the table's page.
    assert!(!IgvmParams::fits(&mem[..2 * PAGE_SIZE - 1], 0));
    // No room for the header.
    assert!(!IgvmParams::fits(&mem[..31], 0));
    assert!(!IgvmParams::fits(&[], 0));
    assert!(!IgvmParams::fits(&mem, 2 * PAGE_SIZE - 31));
    assert!(!IgvmParams::fits(&mem, usize::MAX));
    // The parameter page ends behind the image.
    let far = area(2 * PAGE_SIZE, 0, 2 * PAGE_SIZE as u32 - 8, 4096, 0, (0, 0, 0));
    assert!(IgvmParams::fits(&far, 0));
    let mut beyond = far.clone();
    beyond[4..8].copy_from_slice(&(2 * PAGE_SIZE as u32 - 7).to_le_bytes());
    assert!(!IgvmParams::fits(&beyond, 0));
    beyond[4..8].copy_from_slice(&u32::MAX.to_le_bytes());
    assert!(!IgvmParams::fits(&beyond, 0));
    // The table starts one byte too far.
    let mut late = mem.clone();
    late[8..12].copy_from_slice(&4097u32.to_le_bytes());
    assert!(!IgvmParams::fits(&late, 0));
}

#[test]
fn memory_map_holds_one_page_of_entries() {
    let mut mem = vec![0u8; PAGE_SIZE + 8];
    mem[8 + 24 * 169..8 + 24 * 169 + 8].copy_from_slice(&77u64.to_le_bytes());
    let map = IgvmMemoryMap::decode(&mem, 8);
    let copy = map.clone();
    assert_eq!(format!("{:?}", map), format!("{:?}", copy));
    assert_eq!(format!("{:?}", map).matches("starting_gpa_page_number").count(), 170);
    assert_eq!(format!("{:?}", map).matches("starting_gpa_page_number: 77").count(), 1);
}

#[test]
fn firmware_error_is_the_only_kind() {
    let e = SvsmError::Firmware;
    assert_eq!(e, e.clone());
    assert_eq!(format!("{:?}", e), "Firmware");
}
