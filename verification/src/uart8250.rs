//! Decision logic of the minimal 8250 UART driver: interpreting the line
//! status register. The volatile register accesses happen at the unverified
//! boundary; the functions here take the status byte that was read.

use vstd::prelude::*;

verus! {

/// Line-status bit: received data is ready.
pub const LSR_DATA_READY: u8 = 0x01;

/// Line-status bit: the transmitter holding register is empty.
pub const LSR_THRE: u8 = 0x20;

/// A minimal 8250 UART, identified by the base address of its eight MMIO
/// control registers.
pub struct Uart {
    base_address: usize,
}

impl Uart {
    /// The base address of the control registers.
    pub closed spec fn spec_base_address(&self) -> usize {
        self.base_address
    }

    /// Records a UART whose control registers sit at the given base
    /// address.
    pub fn new(base_address: usize) -> (uart: Self)
        ensures
            uart.spec_base_address() == base_address,
    {
        Uart { base_address }
    }

    /// Returns whether the given line-status value says data is waiting to
    /// be read.
    pub fn data_ready(&self, lsr: u8) -> (ready: bool)
        ensures
            ready == ((lsr & LSR_DATA_READY) != 0),
    {
        lsr & LSR_DATA_READY != 0
    }

    /// Returns whether the given line-status value says the transmitter
    /// holding register is empty, so a byte may be written.
    pub fn transmitter_holding_register_empty(&self, lsr: u8) -> (empty: bool)
        ensures
            empty == ((lsr & LSR_THRE) != 0),
    {
        lsr & LSR_THRE != 0
    }
}

} // verus!
