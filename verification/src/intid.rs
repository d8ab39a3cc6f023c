//! Hardware interrupt numbers and their classification.
//!
//! An interrupt id falls into one of three disjoint kinds, determined purely
//! by numeric range: inter-core software-generated interrupts (SGI),
//! per-core private peripheral interrupts (PPI), and shared device
//! interrupts (SPI).

use vstd::prelude::*;

verus! {

/// First private peripheral interrupt id; SGIs occupy the ids below it.
pub const PPI_START: u32 = 16;

/// First shared peripheral interrupt id.
pub const SPI_START: u32 = 32;

/// First special interrupt id; no ordinary interrupt uses this id or above.
pub const SPECIAL_START: u32 = 1020;

/// A hardware interrupt number.
#[derive(Clone, Copy, Debug, PartialEq, Eq, Structural)]
pub struct IntId {
    id: u32,
}

impl View for IntId {
    type V = u32;

    closed spec fn view(&self) -> u32 {
        self.id
    }
}

impl IntId {
    /// The number of software-generated interrupt ids.
    pub const SGI_COUNT: u32 = 16;

    /// The number of private peripheral interrupt ids.
    pub const PPI_COUNT: u32 = 16;

    /// An ordinary interrupt id: anything below the special range.
    pub open spec fn wf(&self) -> bool {
        self@ < SPECIAL_START
    }

    /// The id names a software-generated (inter-core) interrupt.
    pub open spec fn spec_is_sgi(&self) -> bool {
        self@ < PPI_START
    }

    /// The id names a per-core private peripheral interrupt.
    pub open spec fn spec_is_ppi(&self) -> bool {
        PPI_START <= self@ < SPI_START
    }

    /// The id names a shared device (peripheral) interrupt.
    pub open spec fn spec_is_spi(&self) -> bool {
        SPI_START <= self@ < SPECIAL_START
    }

    /// The id is banked per core: software-generated or private peripheral.
    pub open spec fn spec_is_private(&self) -> bool {
        self@ < SPI_START
    }

    /// The id of the software-generated interrupt with the given index.
    pub fn sgi(sgi: u32) -> (intid: IntId)
        requires
            sgi < IntId::SGI_COUNT,
        ensures
            intid@ == sgi,
            intid.spec_is_sgi(),
    {
        IntId { id: sgi }
    }

    /// The id of the private peripheral interrupt with the given index.
    pub fn ppi(ppi: u32) -> (intid: IntId)
        requires
            ppi < IntId::PPI_COUNT,
        ensures
            intid@ == PPI_START + ppi,
            intid.spec_is_ppi(),
    {
        IntId { id: PPI_START + ppi }
    }

    /// The id of the shared peripheral interrupt with the given index.
    pub fn spi(spi: u32) -> (intid: IntId)
        requires
            spi < SPECIAL_START - SPI_START,
        ensures
            intid@ == SPI_START + spi,
            intid.spec_is_spi(),
    {
        IntId { id: SPI_START + spi }
    }

    /// Wraps a raw interrupt number, as read back from the controller's
    /// acknowledge register. Special ids do not name an interrupt and are
    /// left out.
    pub fn from_raw(id: u32) -> (intid: IntId)
        requires
            id < SPECIAL_START,
        ensures
            intid@ == id,
            intid.wf(),
    {
        IntId { id }
    }

    /// The raw interrupt number.
    pub fn raw(&self) -> (id: u32)
        ensures
            id == self@,
    {
        self.id
    }

    /// Returns whether the id names a software-generated interrupt.
    pub fn is_sgi(&self) -> (r: bool)
        ensures
            r == self.spec_is_sgi(),
    {
        self.id < PPI_START
    }

    /// Returns whether the id is banked per core (software-generated or
    /// private peripheral).
    pub fn is_private(&self) -> (r: bool)
        ensures
            r == self.spec_is_private(),
    {
        self.id < SPI_START
    }
}

} // verus!
