use demo_os::pagetable::{Attributes, IdentityMap, MapError, MemoryRegion};
use demo_os::pagetable::{DEVICE_ATTRIBUTES, MEMORY_ATTRIBUTES};

#[test]
fn fresh_idmap_covers_512_gib() {
    let idmap = IdentityMap::new();
    assert_eq!(idmap.size(), 1usize << 39);
    assert!(!idmap.active());
}

#[test]
fn attribute_presets_have_expected_bits() {
    assert_eq!(Attributes::device().bits(), DEVICE_ATTRIBUTES);
    assert_eq!(Attributes::normal_memory().bits(), MEMORY_ATTRIBUTES);
    assert_eq!(DEVICE_ATTRIBUTES, 0x0040_0000_0000_0401);
    assert_eq!(MEMORY_ATTRIBUTES, 0xF05);
}

#[test]
fn memory_region_rounds_to_page_boundaries() {
    let region = MemoryRegion::new(0x1100, 0x1F00);
    assert_eq!(region.start(), 0x1000);
    assert_eq!(region.end(), 0x2000);
    assert_eq!(region.len(), 0x1000);
    assert!(!region.is_empty());

    let aligned = MemoryRegion::new(0x1000, 0x2000);
    assert_eq!(aligned.start(), 0x1000);
    assert_eq!(aligned.end(), 0x2000);
}

#[test]
fn map_range_succeeds_on_fresh_table() {
    let mut idmap = IdentityMap::new();
    let region = MemoryRegion::new(0x1000, 0x2000);
    assert_eq!(idmap.map_range(&region, Attributes::device()), Ok(()));
}

#[test]
fn overlap_with_different_attributes_is_rejected() {
    let mut idmap = IdentityMap::new();
    let first = MemoryRegion::new(0x1000, 0x2000);
    assert_eq!(idmap.map_range(&first, Attributes::device()), Ok(()));

    // An overlapping request with other attributes changes nothing.
    let second = MemoryRegion::new(0x1800, 0x2800);
    assert_eq!(
        idmap.map_range(&second, Attributes::normal_memory()),
        Err(MapError::Overlap)
    );

    // The first mapping is intact: remapping it with its own attributes is
    // still allowed, and the conflicting request still fails.
    assert_eq!(idmap.map_range(&first, Attributes::device()), Ok(()));
    assert_eq!(
        idmap.map_range(&second, Attributes::normal_memory()),
        Err(MapError::Overlap)
    );
}

#[test]
fn overlap_with_equal_attributes_is_allowed() {
    let mut idmap = IdentityMap::new();
    let first = MemoryRegion::new(0x1000, 0x2000);
    let wider = MemoryRegion::new(0x1000, 0x3000);
    assert_eq!(idmap.map_range(&first, Attributes::device()), Ok(()));
    assert_eq!(idmap.map_range(&wider, Attributes::device()), Ok(()));
}

#[test]
fn region_beyond_address_space_is_rejected() {
    let mut idmap = IdentityMap::new();
    let size = idmap.size();
    let beyond = MemoryRegion::new(size, size + 0x1000);
    assert_eq!(
        idmap.map_range(&beyond, Attributes::normal_memory()),
        Err(MapError::AddressRange)
    );
    // The last page inside the space still maps.
    let last = MemoryRegion::new(size - 0x1000, size);
    assert_eq!(idmap.map_range(&last, Attributes::normal_memory()), Ok(()));
}

#[test]
fn empty_region_maps_and_conflicts_with_nothing() {
    let mut idmap = IdentityMap::new();
    let empty = MemoryRegion::new(0x1000, 0x1000);
    assert!(empty.is_empty());
    assert_eq!(idmap.map_range(&empty, Attributes::device()), Ok(()));
    let overlapping = MemoryRegion::new(0x0, 0x4000);
    assert_eq!(
        idmap.map_range(&overlapping, Attributes::normal_memory()),
        Ok(())
    );
}

#[test]
fn activation_is_recorded() {
    let mut idmap = IdentityMap::new();
    let region = MemoryRegion::new(0x4000_0000, 0x8000_0000);
    assert_eq!(idmap.map_range(&region, Attributes::normal_memory()), Ok(()));
    idmap.activate();
    assert!(idmap.active());
    idmap.activate_secondary();
    assert!(idmap.active());
}

#[test]
fn block_sized_regions_map() {
    // A whole 1 GiB block and a 2 MiB block, exercising the mapper's block
    // descriptors rather than page descriptors.
    let mut idmap = IdentityMap::new();
    let gig = MemoryRegion::new(0x4000_0000, 0x8000_0000);
    assert_eq!(idmap.map_range(&gig, Attributes::normal_memory()), Ok(()));
    let two_mib = MemoryRegion::new(0x20_0000, 0x40_0000);
    assert_eq!(idmap.map_range(&two_mib, Attributes::device()), Ok(()));
}
