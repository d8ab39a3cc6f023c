//! Core of a minimal bare-metal aarch64 guest kernel: an identity-mapped
//! page-table manager, an interrupt handler registry with shared and
//! per-core scopes, CPU core indexing, and the secondary-core bring-up
//! protocol.
//!
//! Everything that touches hardware directly (system registers, MMIO,
//! firmware calls) lives outside this library; the library holds the
//! decisions and the state, with contracts. The boot path hands it the
//! parsed hardware description as plain values: regions, affinity ids,
//! property bytes.

pub mod cpus;
pub mod exceptions;
pub mod intid;
pub mod interrupts;
pub mod pagetable;
pub mod pci;
pub mod platform;
pub mod secondary_entry;
pub mod uart8250;

use vstd::prelude::*;

verus! {

use crate::pagetable::{Attributes, IdentityMap, MapError, MemoryRegion, spec_conflicts};

/// Size in bytes of one translation granule (one page).
pub const PAGE_SIZE: usize = 4096;

/// Returns whether any of the compatibility strings of a hardware
/// description node is among the given ones.
pub fn is_compatible(compatible: &Vec<String>, with: &Vec<String>) -> (r: bool)
    ensures
        r == spec_is_compatible(compatible@, with@),
{
    let n = compatible.len();
    let m = with.len();
    let mut i: usize = 0;
    while i < n
        invariant
            i <= n,
            n == compatible@.len(),
            m == with@.len(),
            forall|ii: int, j: int|
                #![trigger compatible@[ii], with@[j]]
                0 <= ii < i && 0 <= j < m ==> compatible@[ii]@ != with@[j]@,
        decreases n - i,
    {
        let mut j: usize = 0;
        while j < m
            invariant
                i < n,
                j <= m,
                n == compatible@.len(),
                m == with@.len(),
                forall|ii: int, jj: int|
                    #![trigger compatible@[ii], with@[jj]]
                    0 <= ii < i && 0 <= jj < m ==> compatible@[ii]@ != with@[jj]@,
                forall|jj: int|
                    #![trigger with@[jj]]
                    0 <= jj < j ==> compatible@[i as int]@ != with@[jj]@,
            decreases m - j,
        {
            if compatible[i] == with[j] {
                proof {
                    assert(compatible@[i as int]@ == with@[j as int]@);
                }
                return true;
            }
            j = j + 1;
        }
        i = i + 1;
    }
    false
}

/// A node's compatibility list names one of the given strings.
pub open spec fn spec_is_compatible(compatible: Seq<String>, with: Seq<String>) -> bool {
    exists|i: int, j: int|
        #![trigger compatible[i], with[j]]
        0 <= i < compatible.len() && 0 <= j < with.len() && compatible[i]@ == with[j]@
}

/// Turns a memory range of the hardware description — a starting address
/// and a size in bytes — into a page-table region covering it, the ends
/// pushed out to page boundaries.
pub fn fdt_to_pagetable_region(starting_address: usize, size: usize) -> (region: MemoryRegion)
    requires
        starting_address + size <= usize::MAX - (PAGE_SIZE - 1),
    ensures
        region.wf(),
        region.spec_start() <= starting_address,
        starting_address - region.spec_start() < PAGE_SIZE,
        starting_address + size <= region.spec_end(),
        region.spec_end() - (starting_address + size) < PAGE_SIZE,
{
    MemoryRegion::new(starting_address, starting_address + size)
}

/// The regions the boot path maps, in order: the memory regions of the
/// hardware description with the normal-memory attributes, then the device
/// register regions with the device attributes.
pub open spec fn spec_region_plan(memory: Seq<MemoryRegion>, devices: Seq<MemoryRegion>) -> Seq<
    (MemoryRegion, Attributes),
> {
    spec_tagged_regions(memory, Attributes::spec_normal_memory()) + spec_tagged_regions(
        devices,
        Attributes::spec_device(),
    )
}

/// The given regions, each paired with the one set of attributes.
pub open spec fn spec_tagged_regions(regions: Seq<MemoryRegion>, attributes: Attributes) -> Seq<
    (MemoryRegion, Attributes),
> {
    Seq::new(regions.len(), |i: int| (regions[i], attributes))
}

/// The record and outcome of mapping the given regions in order on top of
/// what is already mapped: the first rejection stops the walk and leaves
/// the record as it stood.
pub open spec fn spec_map_outcome(
    already: Seq<(MemoryRegion, Attributes)>,
    to_map: Seq<(MemoryRegion, Attributes)>,
    size: usize,
) -> (Seq<(MemoryRegion, Attributes)>, Option<MapError>)
    decreases to_map.len(),
{
    if to_map.len() == 0 {
        (already, None)
    } else if to_map[0].0.spec_end() > size {
        (already, Some(MapError::AddressRange))
    } else if spec_conflicts(already, to_map[0].0, to_map[0].1) {
        (already, Some(MapError::Overlap))
    } else {
        spec_map_outcome(already.push(to_map[0]), to_map.drop_first(), size)
    }
}

/// Maps the memory and device regions the hardware description lists: the
/// memory regions as normal cached memory, the MMIO regions of recognised
/// devices as device memory. Stops at the first rejection, which at boot
/// is fatal: the kernel cannot run without its memory and devices.
#[verifier::loop_isolation(false)]
pub fn map_fdt_regions(
    idmap: &mut IdentityMap,
    memory_regions: &Vec<MemoryRegion>,
    device_regions: &Vec<MemoryRegion>,
) -> (r: Result<(), MapError>)
    requires
        old(idmap).wf(),
        forall|i: int| 0 <= i < memory_regions@.len() ==> (#[trigger] memory_regions@[i]).wf(),
        forall|i: int| 0 <= i < device_regions@.len() ==> (#[trigger] device_regions@[i]).wf(),
    ensures
        final(idmap).wf(),
        final(idmap).spec_size() == old(idmap).spec_size(),
        final(idmap).is_active() == old(idmap).is_active(),
        ({
            let outcome = spec_map_outcome(
                old(idmap).regions_seq(),
                spec_region_plan(memory_regions@, device_regions@),
                old(idmap).spec_size(),
            );
            &&& final(idmap).regions_seq() == outcome.0
            &&& r == match outcome.1 {
                None => Ok::<(), MapError>(()),
                Some(e) => Err::<(), MapError>(e),
            }
        }),
{
    let ghost plan = spec_region_plan(memory_regions@, device_regions@);
    let mut to_map: Vec<(MemoryRegion, Attributes)> = Vec::new();
    let mut i: usize = 0;
    while i < memory_regions.len()
        invariant
            i <= memory_regions@.len(),
            to_map@.len() == i,
            forall|j: int|
                0 <= j < i ==> #[trigger] to_map@[j] == (
                memory_regions@[j],
                Attributes::spec_normal_memory(),
                ),
        decreases memory_regions@.len() - i,
    {
        to_map.push((memory_regions[i], Attributes::normal_memory()));
        i = i + 1;
    }
    let mut k: usize = 0;
    while k < device_regions.len()
        invariant
            k <= device_regions@.len(),
            to_map@.len() == memory_regions@.len() + k,
            forall|j: int|
                0 <= j < memory_regions@.len() ==> #[trigger] to_map@[j] == (
                memory_regions@[j],
                Attributes::spec_normal_memory(),
                ),
            forall|j: int|
                0 <= j < k ==> #[trigger] to_map@[memory_regions@.len() + j] == (
                device_regions@[j],
                Attributes::spec_device(),
                ),
        decreases device_regions@.len() - k,
    {
        to_map.push((device_regions[k], Attributes::device()));
        k = k + 1;
    }
    proof {
        let mem_part = spec_tagged_regions(memory_regions@, Attributes::spec_normal_memory());
        let dev_part = spec_tagged_regions(device_regions@, Attributes::spec_device());
        assert forall|j: int| 0 <= j < plan.len() implies to_map@[j] == plan[j] by {
            if j < memory_regions@.len() {
                assert(plan[j] == mem_part[j]);
            } else {
                let jj = j - memory_regions@.len();
                assert(to_map@[memory_regions@.len() + jj] == (
                device_regions@[jj],
                Attributes::spec_device(),
                ));
                assert(plan[j] == dev_part[jj]);
            }
        };
        assert(to_map@ =~= plan);
        assert(plan.skip(0) =~= plan);
    }
    let mut m: usize = 0;
    while m < to_map.len()
        invariant
            m <= to_map@.len(),
            to_map@ == plan,
            idmap.wf(),
            idmap.spec_size() == old(idmap).spec_size(),
            idmap.is_active() == old(idmap).is_active(),
            spec_map_outcome(old(idmap).regions_seq(), plan, old(idmap).spec_size())
                == spec_map_outcome(
                idmap.regions_seq(),
                plan.skip(m as int),
                old(idmap).spec_size(),
            ),
        decreases to_map@.len() - m,
    {
        let (region, attributes) = to_map[m];
        proof {
            crate::pagetable::lemma_preset_attributes_wf();
            assert((region, attributes) == plan[m as int]);
            assert(plan.skip(m as int)[0] == plan[m as int]);
            assert(plan.skip(m as int).drop_first() =~= plan.skip(m as int + 1));
        }
        match idmap.map_range(&region, attributes) {
            Ok(()) => {},
            Err(e) => {
                return Err(e);
            },
        }
        m = m + 1;
    }
    proof {
        assert(plan.skip(to_map@.len() as int) =~= Seq::<(MemoryRegion, Attributes)>::empty());
    }
    Ok(())
}

} // verus!
