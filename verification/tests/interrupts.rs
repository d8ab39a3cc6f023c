use demo_os::intid::IntId;
use demo_os::interrupts::{
    init_gic, interrupt_target_is_valid, irq_remove, secondary_init_gic, validate_gic_regions,
    HandlerRegistry, GICD_SIZE, GICR_FRAME_SIZE,
};

#[test]
fn upsert_returns_previous_handler() {
    let mut registry: HandlerRegistry<u32> = HandlerRegistry::new(2);
    let id = IntId::spi(3);
    assert_eq!(registry.set_shared_irq_handler(id, 7), None);
    assert_eq!(registry.set_shared_irq_handler(id, 9), Some(7));
    assert_eq!(registry.remove_shared_irq_handler(id), Some(9));
    assert_eq!(registry.remove_shared_irq_handler(id), None);
}

#[test]
fn private_upsert_and_remove() {
    let mut registry: HandlerRegistry<u32> = HandlerRegistry::new(2);
    let id = IntId::ppi(4);
    assert_eq!(registry.set_private_irq_handler(1, id, 11), None);
    assert_eq!(registry.set_private_irq_handler(1, id, 13), Some(11));
    // Removing an id with no registration returns nothing.
    assert_eq!(registry.remove_private_irq_handler(0, id), None);
    assert_eq!(registry.remove_private_irq_handler(1, id), Some(13));
    assert_eq!(registry.remove_private_irq_handler(1, id), None);
}

#[test]
fn private_registration_blocks_shared_scope() {
    let mut registry: HandlerRegistry<u32> = HandlerRegistry::new(2);
    let id = IntId::sgi(5);
    assert_eq!(registry.set_private_irq_handler(0, id, 21), None);

    // Registering id 5 in the shared scope now would be a programming
    // error: the guard every caller must test fires.
    assert!(registry.has_private_irq_handler(id));

    // The private registration is still retrievable.
    assert!(registry.contains_private_irq_handler(0, id));
    assert_eq!(*registry.handle_irq(0, id), 21);
}

#[test]
fn shared_registration_blocks_private_scope() {
    let mut registry: HandlerRegistry<u32> = HandlerRegistry::new(2);
    let id = IntId::spi(9);
    assert_eq!(registry.set_shared_irq_handler(id, 5), None);
    // The guard for the private scope fires on every core.
    assert!(registry.contains_shared_irq_handler(id));
}

#[test]
fn dispatch_prefers_private_handler() {
    let mut registry: HandlerRegistry<u32> = HandlerRegistry::new(2);
    let id = IntId::ppi(2);
    assert_eq!(registry.set_private_irq_handler(0, id, 100), None);
    assert_eq!(*registry.handle_irq(0, id), 100);

    // Remove the private registration and add a shared one: dispatch now
    // finds the shared handler.
    assert_eq!(registry.remove_private_irq_handler(0, id), Some(100));
    assert_eq!(registry.set_shared_irq_handler(id, 200), None);
    assert_eq!(*registry.handle_irq(0, id), 200);
}

#[test]
fn dispatch_is_per_core() {
    let mut registry: HandlerRegistry<u32> = HandlerRegistry::new(2);
    let id = IntId::sgi(1);
    assert_eq!(registry.set_private_irq_handler(1, id, 42), None);
    assert!(!registry.contains_private_irq_handler(0, id));
    assert!(registry.contains_private_irq_handler(1, id));
    assert_eq!(*registry.handle_irq(1, id), 42);
}

#[test]
fn irq_remove_unregisters_the_rtc_handler() {
    let mut registry: HandlerRegistry<u32> = HandlerRegistry::new(1);
    let rtc_irq = IntId::spi(2);
    assert_eq!(registry.set_shared_irq_handler(rtc_irq, 77), None);
    assert_eq!(irq_remove(&mut registry, rtc_irq), Some(77));
    assert_eq!(irq_remove(&mut registry, rtc_irq), None);
}

#[test]
fn gic_region_validation() {
    assert!(validate_gic_regions(GICD_SIZE, GICR_FRAME_SIZE * 2, 2));
    assert!(validate_gic_regions(0x10000, 0x40000, 2));
    // One frame group is not enough for two cores.
    assert!(!validate_gic_regions(GICD_SIZE, GICR_FRAME_SIZE, 2));
    // A distributor region of the wrong size is refused outright.
    assert!(!validate_gic_regions(GICD_SIZE - 1, GICR_FRAME_SIZE * 2, 2));
    // Oversized redistributor space is fine.
    assert!(validate_gic_regions(GICD_SIZE, 0xf60000, 2));
}

#[test]
fn controller_initialization_order() {
    let gic = init_gic(0x800_0000, GICD_SIZE, 0x80a_0000, GICR_FRAME_SIZE * 2, 2);
    assert_eq!(gic.cpu_count(), 2);
    assert!(gic.is_core_initialized(0));
    assert!(!gic.is_core_initialized(1));

    let mut gic = gic;
    secondary_init_gic(&mut gic, 1);
    assert!(gic.is_core_initialized(0));
    assert!(gic.is_core_initialized(1));
}

#[test]
fn configuration_targets() {
    // Private interrupts are configured per core; shared ones once.
    assert!(interrupt_target_is_valid(IntId::ppi(3), Some(1), 2));
    assert!(!interrupt_target_is_valid(IntId::ppi(3), Some(2), 2));
    assert!(!interrupt_target_is_valid(IntId::ppi(3), None, 2));
    assert!(interrupt_target_is_valid(IntId::sgi(0), Some(0), 2));
    assert!(interrupt_target_is_valid(IntId::spi(7), None, 2));
    assert!(!interrupt_target_is_valid(IntId::spi(7), Some(0), 2));
}

#[test]
fn interrupt_id_kinds_by_range() {
    assert!(IntId::sgi(5).is_sgi());
    assert!(IntId::sgi(5).is_private());
    assert_eq!(IntId::sgi(5).raw(), 5);
    assert!(!IntId::ppi(0).is_sgi());
    assert!(IntId::ppi(0).is_private());
    assert_eq!(IntId::ppi(0).raw(), 16);
    assert!(!IntId::spi(0).is_private());
    assert_eq!(IntId::spi(0).raw(), 32);
    assert_eq!(IntId::from_raw(33).raw(), 33);
}
