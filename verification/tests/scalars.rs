use igvm_params::{IgvmParams, MemoryRegion, PAGE_SIZE};

#[allow(clippy::too_many_arguments)]
fn header(
    area_size: u32,
    cpuid: u32,
    secrets: u32,
    kernel_size: u32,
    kernel_base: u64,
    shared: u32,
) -> Vec<u8> {
    let mut mem = vec![0u8; 2 * PAGE_SIZE];
    mem[0..4].copy_from_slice(&area_size.to_le_bytes());
    mem[4..8].copy_from_slice(&32u32.to_le_bytes());
    mem[8..12].copy_from_slice(&(PAGE_SIZE as u32).to_le_bytes());
    mem[12..16].copy_from_slice(&cpuid.to_le_bytes());
    mem[16..20].copy_from_slice(&secrets.to_le_bytes());
    mem[20..24].copy_from_slice(&kernel_size.to_le_bytes());
    mem[24..32].copy_from_slice(&kernel_base.to_le_bytes());
    mem[36..40].copy_from_slice(&shared.to_le_bytes());
    mem
}

#[test]
fn scalar_queries_pass_the_header_through() {
    let mem = header(0x3000, 0x9_f000, 0x9_e000, 0x20_0000, 0xffff_8000_0000_0000, 0);
    let params = IgvmParams::new(&mem, 0);
    assert_eq!(params.size(), 0x3000);
    assert_eq!(params.get_cpuid_page_address(), 0x9_f000);
    assert_eq!(params.get_secrets_page_address(), 0x9_e000);
    assert_eq!(
        params.find_kernel_region(),
        Ok(MemoryRegion::new(0xffff_8000_0000_0000, 0x20_0000))
    );
    assert!(!params.page_state_change_required());
}

#[test]
fn absurd_header_values_pass_through() {
    let mem = header(0, u32::MAX, 0, u32::MAX, u64::MAX, u32::MAX);
    let params = IgvmParams::new(&mem, 0);
    assert_eq!(params.size(), 0);
    assert_eq!(params.get_cpuid_page_address(), 0xffff_ffff);
    assert_eq!(params.get_secrets_page_address(), 0);
    assert_eq!(
        params.find_kernel_region(),
        Ok(MemoryRegion::new(u64::MAX, 0xffff_ffff))
    );
    assert!(params.page_state_change_required());
    let mem = header(u32::MAX, 0, u32::MAX, 0, 0, 0);
    let params = IgvmParams::new(&mem, 0);
    assert_eq!(params.size(), 0xffff_ffff);
    assert_eq!(params.find_kernel_region(), Ok(MemoryRegion::new(0, 0)));
}

#[test]
fn page_state_change_is_required_for_any_non_zero_flag() {
    for shared in [1u32, 2, 0x100, 0x8000_0000, u32::MAX] {
        let mem = header(0, 0, 0, 0, 0, shared);
        assert!(IgvmParams::new(&mem, 0).page_state_change_required());
    }
    let mem = header(1, 1, 1, 1, 1, 0);
    assert!(!IgvmParams::new(&mem, 0).page_state_change_required());
}

#[test]
fn cpu_count_does_not_affect_the_flag() {
    let mut mem = header(0, 0, 0, 0, 0, 0);
    mem[32..36].copy_from_slice(&u32::MAX.to_le_bytes());
    assert!(!IgvmParams::new(&mem, 0).page_state_change_required());
}

#[test]
fn params_can_be_cloned() {
    let mem = header(0x3000, 1, 2, 3, 4, 5);
    let params = IgvmParams::new(&mem, 0);
    let copy = params.clone();
    assert_eq!(copy.size(), 0x3000);
    assert_eq!(copy.get_cpuid_page_address(), 1);
    assert_eq!(copy.get_secrets_page_address(), 2);
    assert_eq!(copy.find_kernel_region(), Ok(MemoryRegion::new(4, 3)));
    assert!(copy.page_state_change_required());
    assert_eq!(copy.get_memory_regions(), params.get_memory_regions());
}
