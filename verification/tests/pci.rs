use demo_os::pagetable::{Attributes, IdentityMap, MapError, MemoryRegion};
use demo_os::pci::{PciCam, PciMemoryFlags, PciRange, PciRangeType, PciRootInfo};
use demo_os::{fdt_to_pagetable_region, is_compatible, map_fdt_regions};

fn memory64_range(cpu_physical: usize, size: usize) -> PciRange {
    PciRange {
        cpu_physical,
        bus_address: cpu_physical,
        size,
        flags: PciMemoryFlags(0x0300_0000),
    }
}

#[test]
fn memory_flag_decoding() {
    let flags = PciMemoryFlags(0x8200_0000);
    assert!(!flags.relocatable());
    assert!(!flags.prefetchable());
    assert_eq!(flags.range_type(), PciRangeType::Memory32);

    let flags = PciMemoryFlags(0x4300_0000);
    assert!(flags.relocatable());
    assert!(flags.prefetchable());
    assert_eq!(flags.range_type(), PciRangeType::Memory64);

    assert_eq!(PciMemoryFlags(0x0100_0000).range_type(), PciRangeType::IoSpace);
    assert_eq!(
        PciMemoryFlags(0).range_type(),
        PciRangeType::ConfigurationSpace
    );
}

#[test]
fn range_type_codes() {
    assert_eq!(PciRangeType::from_code(0), PciRangeType::ConfigurationSpace);
    assert_eq!(PciRangeType::from_code(1), PciRangeType::IoSpace);
    assert_eq!(PciRangeType::from_code(2), PciRangeType::Memory32);
    assert_eq!(PciRangeType::from_code(3), PciRangeType::Memory64);
}

#[test]
fn cam_sizes() {
    assert_eq!(PciCam::MmioCam.size(), 0x100_0000);
    assert_eq!(PciCam::Ecam.size(), 0x1000_0000);
}

#[test]
fn ranges_beyond_the_limit_are_dropped_or_trimmed() {
    let limit = 0x1000_0000;
    let beyond = memory64_range(0x2000_0000, 0x1000);
    let reaching = memory64_range(0x0800_0000, 0x1000_0000);
    let io = PciRange {
        cpu_physical: 0x2000_0000,
        bus_address: 0,
        size: 0x1000,
        flags: PciMemoryFlags(0x0100_0000),
    };
    let root = PciRootInfo::new(
        PciCam::Ecam,
        0x3000_0000,
        vec![beyond, reaching, io],
        limit,
    );
    assert_eq!(root.cam(), PciCam::Ecam);
    assert_eq!(root.mmio_base(), 0x3000_0000);
    let kept = root.ranges();
    assert_eq!(kept.len(), 2);
    // The reaching range is cut down to the limit.
    assert_eq!(kept[0].cpu_physical, 0x0800_0000);
    assert_eq!(kept[0].size, 0x0800_0000);
    // The IO range is kept whole, wherever it lies.
    assert_eq!(kept[1], io);
}

#[test]
fn map_ranges_maps_memory_ranges_as_device_memory() {
    let mut idmap = IdentityMap::new();
    let root = PciRootInfo::new(
        PciCam::MmioCam,
        0x1000_0000,
        vec![memory64_range(0x8000_0000, 0x10_0000)],
        1usize << 39,
    );
    assert_eq!(root.map_ranges(&mut idmap), Ok(()));

    // The range is now mapped with the device attributes: a conflicting
    // request over the same addresses is rejected.
    let overlapping = MemoryRegion::new(0x8000_0000, 0x8000_1000);
    assert_eq!(
        idmap.map_range(&overlapping, Attributes::normal_memory()),
        Err(MapError::Overlap)
    );
    // Re-mapping as device memory agrees with what map_ranges installed.
    assert_eq!(idmap.map_range(&overlapping, Attributes::device()), Ok(()));
}

#[test]
fn bar_region_covers_the_range() {
    let range = memory64_range(0x8000_0100, 0x800);
    let region = range.memory_region();
    assert_eq!(region.start(), 0x8000_0000);
    assert_eq!(region.end(), 0x8000_1000);
}

#[test]
fn fdt_region_conversion_rounds_out() {
    let region = fdt_to_pagetable_region(0x900_0100, 0x80);
    assert_eq!(region.start(), 0x900_0000);
    assert_eq!(region.end(), 0x900_1000);
}

#[test]
fn compatibility_matching() {
    let node = vec!["arm,pl011".to_string(), "arm,primecell".to_string()];
    let accepted = vec!["ns16550a".to_string(), "arm,primecell".to_string()];
    assert!(is_compatible(&node, &accepted));
    let other = vec!["virtio,mmio".to_string()];
    assert!(!is_compatible(&node, &other));
    assert!(!is_compatible(&Vec::new(), &accepted));
}

#[test]
fn boot_mapping_plan_is_applied_in_order() {
    let mut idmap = IdentityMap::new();
    let memory = vec![MemoryRegion::new(0x4000_0000, 0x8000_0000)];
    let devices = vec![
        MemoryRegion::new(0x900_0000, 0x900_1000),
        MemoryRegion::new(0x800_0000, 0x801_0000),
    ];
    assert_eq!(map_fdt_regions(&mut idmap, &memory, &devices), Ok(()));

    // A device region is mapped with the device attributes.
    assert_eq!(
        idmap.map_range(&devices[0], Attributes::normal_memory()),
        Err(MapError::Overlap)
    );
    // The memory region carries the normal-memory attributes.
    assert_eq!(
        idmap.map_range(&memory[0], Attributes::device()),
        Err(MapError::Overlap)
    );
}

#[test]
fn boot_mapping_stops_at_the_first_conflict() {
    let mut idmap = IdentityMap::new();
    let memory = vec![MemoryRegion::new(0x4000_0000, 0x8000_0000)];
    // The second device region collides with the memory region.
    let devices = vec![MemoryRegion::new(0x4000_0000, 0x4000_1000)];
    assert_eq!(
        map_fdt_regions(&mut idmap, &memory, &devices),
        Err(MapError::Overlap)
    );
}
