//! Exception-routing decisions for the trap layer.
//!
//! The vector table, the saved-register dumps and the system-register
//! accesses live at the unverified architecture boundary; this module holds
//! the one routing decision the boot path makes.

use vstd::prelude::*;

verus! {

/// HCR_EL2 bit that routes physical IRQs to EL2.
pub const HCR_EL2_IMO: u64 = 1u64 << 4;

/// Decides the register update that makes sure physical IRQs are routed to
/// the current exception level: running at EL2, the IMO bit must be set in
/// HCR_EL2; at any other level nothing is written. Returns the value to
/// write back, if any; reading and writing the register happens at the
/// unverified boundary.
pub fn init_irq_routing(current_el: u8, hcr_el2: u64) -> (update: Option<u64>)
    ensures
        current_el == 2 ==> update == Some(hcr_el2 | HCR_EL2_IMO),
        current_el != 2 ==> update is None,
{
    if current_el == 2 {
        Some(hcr_el2 | HCR_EL2_IMO)
    } else {
        None
    }
}

} // verus!
