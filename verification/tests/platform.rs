use demo_os::pagetable::{DEVICE_ATTRIBUTES, MEMORY_ATTRIBUTES};
use demo_os::platform::{Crosvm, Qemu};

#[test]
fn qemu_initial_idmap_entries() {
    let table = Qemu::initial_idmap();
    assert_eq!(table.entry(0), DEVICE_ATTRIBUTES);
    assert_eq!(table.entry(1), MEMORY_ATTRIBUTES | 0x4000_0000);
    assert_eq!(table.entry(256), DEVICE_ATTRIBUTES | 0x40_0000_0000);
    assert_eq!(table.entry(2), 0);
    assert_eq!(table.entry(511), 0);
}

#[test]
fn crosvm_initial_idmap_entries() {
    let table = Crosvm::initial_idmap();
    assert_eq!(table.entry(0), DEVICE_ATTRIBUTES);
    assert_eq!(table.entry(1), DEVICE_ATTRIBUTES | 0x4000_0000);
    assert_eq!(table.entry(2), MEMORY_ATTRIBUTES | 0x8000_0000);
    assert_eq!(table.entry(3), 0);
    assert_eq!(table.entry(256), 0);
}
