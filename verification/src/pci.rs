//! PCI host-bridge description: the flag decoding of hardware-description
//! ranges, the trimming of BAR ranges against the page table's address
//! space, and the mapping of the kept ranges as device memory.
//!
//! Bus enumeration and BAR allocation talk to the configuration space and
//! live outside the library; this module owns what they decide from.

use vstd::prelude::*;

verus! {

use crate::PAGE_SIZE;
use crate::pagetable::{Attributes, IdentityMap, MapError, MemoryRegion};
use crate::spec_map_outcome;

/// Type of a PCI range.
#[derive(Copy, Clone, Debug, Eq, PartialEq, Structural)]
pub enum PciRangeType {
    /// Range represents the PCI configuration space.
    ConfigurationSpace,
    /// Range is on IO space.
    IoSpace,
    /// Range is on 32-bit MMIO space.
    Memory32,
    /// Range is on 64-bit MMIO space.
    Memory64,
}

/// The range type a two-bit code of the hardware description names.
pub open spec fn spec_range_type_of(value: u32) -> PciRangeType {
    if value == 0 {
        PciRangeType::ConfigurationSpace
    } else if value == 1 {
        PciRangeType::IoSpace
    } else if value == 2 {
        PciRangeType::Memory32
    } else {
        PciRangeType::Memory64
    }
}

impl PciRangeType {
    /// Decodes the two-bit range-type code. Codes above 3 name nothing: the
    /// caller must have masked the value down to the two bits.
    pub fn from_code(value: u32) -> (range_type: PciRangeType)
        requires
            value <= 3,
        ensures
            range_type == spec_range_type_of(value),
    {
        if value == 0 {
            PciRangeType::ConfigurationSpace
        } else if value == 1 {
            PciRangeType::IoSpace
        } else if value == 2 {
            PciRangeType::Memory32
        } else {
            PciRangeType::Memory64
        }
    }
}

/// Encodes memory flags of a PCI range.
#[derive(Copy, Clone, Debug, Eq, PartialEq, Structural)]
pub struct PciMemoryFlags(pub u32);

impl PciMemoryFlags {
    /// Returns whether this PCI range is relocatable.
    pub fn relocatable(self) -> (r: bool)
        ensures
            r == (self.0 & 0x8000_0000 == 0),
    {
        self.0 & 0x8000_0000 == 0
    }

    /// Returns whether this PCI range is prefetchable.
    pub fn prefetchable(self) -> (r: bool)
        ensures
            r == (self.0 & 0x4000_0000 != 0),
    {
        self.0 & 0x4000_0000 != 0
    }

    /// Returns the type of this PCI range, from its two type bits.
    pub fn range_type(self) -> (range_type: PciRangeType)
        ensures
            range_type == spec_range_type_of((self.0 & 0x0300_0000) >> 24),
    {
        let code = (self.0 & 0x0300_0000) >> 24;
        proof {
            assert(forall|f: u32| ((f & 0x0300_0000) >> 24) <= 3) by (bit_vector);
        }
        PciRangeType::from_code(code)
    }
}

/// The range's type, as its flag bits encode it.
pub open spec fn spec_flags_range_type(flags: PciMemoryFlags) -> PciRangeType {
    spec_range_type_of((flags.0 & 0x0300_0000) >> 24)
}

/// The range is MMIO space (32- or 64-bit), so its BARs live in memory the
/// kernel must map.
pub open spec fn spec_is_memory_range(range: PciRange) -> bool {
    spec_flags_range_type(range.flags) == PciRangeType::Memory32 || spec_flags_range_type(
        range.flags,
    ) == PciRangeType::Memory64
}

/// A PCI root range, from which BARs can be allocated.
#[derive(Copy, Clone, Debug, Eq, PartialEq, Structural)]
pub struct PciRange {
    pub cpu_physical: usize,
    pub bus_address: usize,
    pub size: usize,
    pub flags: PciMemoryFlags,
}

impl PciRange {
    /// The page-table region covering the range.
    pub fn memory_region(&self) -> (region: MemoryRegion)
        requires
            self.cpu_physical + self.size <= usize::MAX - (PAGE_SIZE - 1),
        ensures
            region == MemoryRegion::spec_new(
                self.cpu_physical,
                (self.cpu_physical + self.size) as usize,
            ),
            region.wf(),
            region.spec_start() <= self.cpu_physical,
            self.cpu_physical + self.size <= region.spec_end(),
            self.cpu_physical - region.spec_start() < PAGE_SIZE,
            region.spec_end() - (self.cpu_physical + self.size) < PAGE_SIZE,
    {
        MemoryRegion::new(self.cpu_physical, self.cpu_physical + self.size)
    }
}

/// The ranges kept for a root after trimming against the page table's
/// address space: a memory range starting beyond the limit is dropped, one
/// reaching past it is cut down to it, and every other range is kept whole.
pub open spec fn spec_kept_ranges(ranges: Seq<PciRange>, limit: usize) -> Seq<PciRange>
    decreases ranges.len(),
{
    if ranges.len() == 0 {
        Seq::empty()
    } else {
        let kept = spec_kept_ranges(ranges.drop_last(), limit);
        let range = ranges.last();
        if spec_is_memory_range(range) {
            if range.cpu_physical >= limit {
                kept
            } else if range.size > limit - range.cpu_physical {
                kept.push(PciRange { size: (limit - range.cpu_physical) as usize, ..range })
            } else {
                kept.push(range)
            }
        } else {
            kept.push(range)
        }
    }
}

/// The addressing convention of a root's configuration access mechanism.
#[derive(Copy, Clone, Debug, Eq, PartialEq, Structural)]
pub enum PciCam {
    /// The PCI memory-mapped configuration access mechanism.
    MmioCam,
    /// The PCIe memory-mapped configuration access mechanism (ECAM).
    Ecam,
}

impl PciCam {
    /// The size in bytes of the configuration region this mechanism
    /// occupies.
    pub fn size(self) -> (size: u64)
        ensures
            size == spec_cam_size(self),
    {
        match self {
            PciCam::MmioCam => 0x1000000,
            PciCam::Ecam => 0x10000000,
        }
    }
}

/// The size in bytes of each mechanism's configuration region: 16 MiB for
/// CAM, 256 MiB for ECAM.
pub open spec fn spec_cam_size(cam: PciCam) -> u64 {
    match cam {
        PciCam::MmioCam => 0x1000000,
        PciCam::Ecam => 0x10000000,
    }
}

/// A PCI root as the hardware description declares it: its configuration
/// access mechanism and region, and its BAR ranges, already trimmed to the
/// page table's address space.
pub struct PciRootInfo {
    cam: PciCam,
    mmio_base: usize,
    ranges: Vec<PciRange>,
}

impl PciRootInfo {
    /// The configuration access mechanism.
    pub closed spec fn spec_cam(&self) -> PciCam {
        self.cam
    }

    /// Base address of the configuration region.
    pub closed spec fn spec_mmio_base(&self) -> usize {
        self.mmio_base
    }

    /// The kept BAR ranges.
    pub closed spec fn ranges_seq(&self) -> Seq<PciRange> {
        self.ranges@
    }

    /// Describes a root found in the hardware description: records the
    /// configuration region and keeps its ranges, dropping or trimming
    /// memory ranges that reach beyond the given address-space limit (BARs
    /// placed there could never be mapped).
    pub fn new(cam: PciCam, mmio_base: usize, ranges: Vec<PciRange>, bar_range_limit: usize) -> (
        root: PciRootInfo)
        ensures
            root.spec_cam() == cam,
            root.spec_mmio_base() == mmio_base,
            root.ranges_seq() == spec_kept_ranges(ranges@, bar_range_limit),
    {
        let mut kept: Vec<PciRange> = Vec::new();
        let n = ranges.len();
        let mut i: usize = 0;
        while i < n
            invariant
                i <= n,
                n == ranges@.len(),
                kept@ == spec_kept_ranges(ranges@.take(i as int), bar_range_limit),
            decreases n - i,
        {
            proof {
                assert(ranges@.take(i as int + 1).drop_last() =~= ranges@.take(i as int));
                assert(ranges@.take(i as int + 1).last() == ranges@[i as int]);
            }
            let range = ranges[i];
            let range_type = range.flags.range_type();
            if matches!(range_type, PciRangeType::Memory32 | PciRangeType::Memory64) {
                if range.cpu_physical >= bar_range_limit {
                    // A BAR out here could never be reached once the table
                    // is active: leave the range out.
                } else if range.size > bar_range_limit - range.cpu_physical {
                    kept.push(
                        PciRange { size: bar_range_limit - range.cpu_physical, ..range },
                    );
                } else {
                    kept.push(range);
                }
            } else {
                kept.push(range);
            }
            i = i + 1;
        }
        proof {
            assert(ranges@.take(n as int) =~= ranges@);
        }
        PciRootInfo { cam, mmio_base, ranges: kept }
    }

    /// Base address of the configuration region.
    pub fn mmio_base(&self) -> (base: usize)
        ensures
            base == self.spec_mmio_base(),
    {
        self.mmio_base
    }

    /// The configuration access mechanism.
    pub fn cam(&self) -> (cam: PciCam)
        ensures
            cam == self.spec_cam(),
    {
        self.cam
    }

    /// The kept BAR ranges.
    pub fn ranges(&self) -> (ranges: &Vec<PciRange>)
        ensures
            ranges@ == self.ranges_seq(),
    {
        &self.ranges
    }

    /// Maps the memory-type BAR ranges of this root as device memory, in
    /// order, each range pushed out to page boundaries. Stops at the first
    /// rejection, which at boot is fatal.
    #[verifier::loop_isolation(false)]
    pub fn map_ranges(&self, idmap: &mut IdentityMap) -> (r: Result<(), MapError>)
        requires
            old(idmap).wf(),
            forall|i: int|
                0 <= i < self.ranges_seq().len() && spec_is_memory_range(
                    #[trigger] self.ranges_seq()[i],
                ) ==> self.ranges_seq()[i].cpu_physical + self.ranges_seq()[i].size <= usize::MAX
                    - (PAGE_SIZE - 1),
        ensures
            final(idmap).wf(),
            final(idmap).spec_size() == old(idmap).spec_size(),
            final(idmap).is_active() == old(idmap).is_active(),
            ({
                let outcome = spec_map_outcome(
                    old(idmap).regions_seq(),
                    spec_bar_plan(self.ranges_seq()),
                    old(idmap).spec_size(),
                );
                &&& final(idmap).regions_seq() == outcome.0
                &&& r == match outcome.1 {
                    None => Ok::<(), MapError>(()),
                    Some(e) => Err::<(), MapError>(e),
                }
            }),
    {
        let ghost plan = spec_bar_plan(self.ranges_seq());
        let n = self.ranges.len();
        let mut i: usize = 0;
        let device_attributes = Attributes::device();
        proof {
            assert(self.ranges_seq().skip(0) =~= self.ranges_seq());
        }
        while i < n
            invariant
                i <= n,
                n == self.ranges_seq().len(),
                idmap.wf(),
                idmap.spec_size() == old(idmap).spec_size(),
                idmap.is_active() == old(idmap).is_active(),
                device_attributes == Attributes::spec_device(),
                spec_map_outcome(old(idmap).regions_seq(), plan, old(idmap).spec_size())
                    == spec_map_outcome(
                    idmap.regions_seq(),
                    spec_bar_plan(self.ranges_seq().skip(i as int)),
                    old(idmap).spec_size(),
                ),
            decreases n - i,
        {
            proof {
                assert(self.ranges_seq().skip(i as int)[0] == self.ranges_seq()[i as int]);
                assert(self.ranges_seq().skip(i as int).drop_first() =~= self.ranges_seq().skip(
                    i as int + 1,
                ));
            }
            let range = self.ranges[i];
            let range_type = range.flags.range_type();
            if matches!(range_type, PciRangeType::Memory32 | PciRangeType::Memory64) {
                let memory_region = range.memory_region();
                let ghost rest = spec_bar_plan(self.ranges_seq().skip(i as int + 1));
                proof {
                    assert(spec_bar_plan(self.ranges_seq().skip(i as int)) == seq![
                        (memory_region, Attributes::spec_device()),
                    ] + rest);
                    assert((seq![(memory_region, Attributes::spec_device())] + rest)[0] == (
                    memory_region,
                    Attributes::spec_device(),
                    ));
                    assert((seq![(memory_region, Attributes::spec_device())]
                        + rest).drop_first() =~= rest);
                }
                match idmap.map_range(&memory_region, device_attributes) {
                    Ok(()) => {},
                    Err(e) => {
                        return Err(e);
                    },
                }
            }
            i = i + 1;
        }
        proof {
            assert(self.ranges_seq().skip(n as int) =~= Seq::<PciRange>::empty());
        }
        Ok(())
    }
}

/// The mapping plan of a root's kept ranges: for each memory-type range in
/// order, the page-aligned region covering it, tagged as device memory.
pub open spec fn spec_bar_plan(ranges: Seq<PciRange>) -> Seq<(MemoryRegion, Attributes)>
    decreases ranges.len(),
{
    if ranges.len() == 0 {
        Seq::empty()
    } else {
        let rest = spec_bar_plan(ranges.drop_first());
        if spec_is_memory_range(ranges[0]) {
            seq![
                (
                    MemoryRegion::spec_new(
                        ranges[0].cpu_physical,
                        (ranges[0].cpu_physical + ranges[0].size) as usize,
                    ),
                    Attributes::spec_device(),
                ),
            ] + rest
        } else {
            rest
        }
    }
}

} // verus!
