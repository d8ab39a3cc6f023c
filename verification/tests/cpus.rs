use demo_os::cpus::{mpidr_affinity, CoresImpl, MPIDR_AFFINITY_MASK};
use demo_os::exceptions::{init_irq_routing, HCR_EL2_IMO};
use demo_os::uart8250::Uart;

#[test]
fn affinity_masks_non_affinity_bits() {
    // The uniprocessor and multithreading bits fall away; the four affinity
    // bytes stay.
    let mpidr = (1u64 << 30) | (1 << 24) | 0x81_0000_0203;
    assert_eq!(mpidr_affinity(mpidr), 0x81_0000_0203 & MPIDR_AFFINITY_MASK);
    assert_eq!(mpidr_affinity(0x0000_0001), 1);
}

#[test]
fn core_index_follows_enumeration_order() {
    let cores = CoresImpl::new(vec![0x0, 0x1, 0x100]);
    assert_eq!(cores.cpu_count(), 3);
    assert_eq!(cores.mpidr_to_cpu_index(0x0), Some(0));
    assert_eq!(cores.mpidr_to_cpu_index(0x1), Some(1));
    assert_eq!(cores.mpidr_to_cpu_index(0x100), Some(2));
    assert_eq!(cores.mpidr_to_cpu_index(0x2), None);
}

#[test]
fn core_index_is_stable_across_calls() {
    let cores = CoresImpl::new(vec![0x0, 0x1]);
    let first = cores.current_cpu_index(0x1);
    let second = cores.current_cpu_index(0x1);
    let third = cores.current_cpu_index(0x1);
    assert_eq!(first, 1);
    assert_eq!(second, first);
    assert_eq!(third, first);
}

#[test]
fn irq_routing_written_only_at_el2() {
    assert_eq!(init_irq_routing(2, 0x80000000), Some(0x80000000 | HCR_EL2_IMO));
    assert_eq!(init_irq_routing(2, 0x10), Some(0x10));
    assert_eq!(init_irq_routing(1, 0x0), None);
}

#[test]
fn uart_line_status_bits() {
    let uart = Uart::new(0x3f8);
    assert!(uart.data_ready(0x01));
    assert!(!uart.data_ready(0x20));
    assert!(uart.transmitter_holding_register_empty(0x20));
    assert!(!uart.transmitter_holding_register_empty(0x01));
    assert!(uart.data_ready(0x61) && uart.transmitter_holding_register_empty(0x61));
}
