//! End-to-end bring-up scenario: two CPUs in the hardware description,
//! the primary boots, starts the secondary, and the secondary runs the
//! trampoline steps — page-table activation, per-core interrupt-controller
//! init — before invoking the entry function exactly once.

use demo_os::cpus::CoresImpl;
use demo_os::interrupts::{
    init_gic, secondary_init_gic, validate_gic_regions, HandlerRegistry, GICD_SIZE,
    GICR_FRAME_SIZE,
};
use demo_os::intid::IntId;
use demo_os::pagetable::{Attributes, IdentityMap, MemoryRegion};
use demo_os::secondary_entry::{
    psci_return_to_result, smc_for_psci, Conduit, SecondaryBringup, PSCI_CPU_ON,
};

#[test]
fn two_core_bringup() {
    // Hardware description: two CPUs with affinity ids 0x0 and 0x1, a
    // GICv3, one memory region, and PSCI over HVC.
    let cores = CoresImpl::new(vec![0x0, 0x1]);
    assert_eq!(cores.cpu_count(), 2);
    let conduit = if smc_for_psci(b"hvc") {
        Conduit::Smc
    } else {
        Conduit::Hvc
    };
    assert_eq!(conduit, Conduit::Hvc);

    // Primary core (logical index 0): build and activate the page table.
    assert_eq!(cores.current_cpu_index(0x0), 0);
    let mut idmap = IdentityMap::new();
    let memory = MemoryRegion::new(0x4000_0000, 0x8000_0000);
    let gicd_region = MemoryRegion::new(0x800_0000, 0x801_0000);
    let gicr_region = MemoryRegion::new(0x80a_0000, 0x80e_0000);
    assert_eq!(idmap.map_range(&memory, Attributes::normal_memory()), Ok(()));
    assert_eq!(idmap.map_range(&gicd_region, Attributes::device()), Ok(()));
    assert_eq!(idmap.map_range(&gicr_region, Attributes::device()), Ok(()));
    idmap.activate();

    // Interrupt controller: validate the regions for two cores, then run
    // the global and primary per-core setup.
    assert!(validate_gic_regions(GICD_SIZE, 2 * GICR_FRAME_SIZE, 2));
    let mut gic = init_gic(0x800_0000, GICD_SIZE, 0x80a_0000, 2 * GICR_FRAME_SIZE, 2);
    let mut registry: HandlerRegistry<u32> = HandlerRegistry::new(2);
    assert_eq!(registry.set_shared_irq_handler(IntId::spi(1), 1), None);

    // Ask the firmware to start core 0x1 with entry argument 42.
    let mut bringup = SecondaryBringup::new(conduit);
    let request = bringup.start_core_with_stack(0x1, 0x4008_0000, 42);
    assert_eq!(request.function_id, PSCI_CPU_ON);
    assert_eq!(request.target_cpu, 0x1);
    // The firmware accepted the request.
    assert_eq!(psci_return_to_result(0), Ok(()));

    // The secondary core comes up on the prepared stack and runs the
    // trampoline: activate the already-built table, per-core controller
    // init, then the entry function, exactly once, with the argument from
    // the scratch slot.
    let secondary = cores.current_cpu_index(0x1);
    assert_eq!(secondary, 1);
    idmap.activate_secondary();
    assert!(!gic.is_core_initialized(secondary));
    secondary_init_gic(&mut gic, secondary);
    assert!(gic.is_core_initialized(secondary));

    let mut marker: Option<u64> = None;
    let mut entry = |arg: u64| {
        assert!(marker.is_none(), "entry ran more than once");
        marker = Some(arg);
    };
    let arg = bringup.get_secondary_stack(0x1).unwrap().arg_slot();
    entry(arg);

    // The primary observes the marker go from absent to present.
    assert_eq!(marker, Some(42));

    // The secondary may now take interrupts: its private registrations work
    // beside the shared table.
    assert_eq!(registry.set_private_irq_handler(secondary, IntId::sgi(0), 2), None);
    assert_eq!(*registry.handle_irq(secondary, IntId::sgi(0)), 2);
    assert_eq!(*registry.handle_irq(secondary, IntId::spi(1)), 1);
}
