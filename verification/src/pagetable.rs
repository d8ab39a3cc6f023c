//! The identity-mapped page-table manager.
//!
//! The hierarchical translation structure itself — descriptor layout, table
//! walks, table allocation — is the work of the `aarch64_paging` crate,
//! reached through the trusted items below. This module owns the record of
//! what has been mapped, rejects conflicting mappings before they reach the
//! hardware table, and tracks activation.

use vstd::arithmetic::div_mod::{lemma_div_is_ordered, lemma_fundamental_div_mod};
use vstd::prelude::*;

verus! {

use crate::PAGE_SIZE;

/// Descriptor attribute bits for device memory: valid, memory-attribute
/// index 0, access flag set, and never executable at EL0.
pub const DEVICE_ATTRIBUTES: u64 = 0x0040_0000_0000_0401;

/// Descriptor attribute bits for normal cached memory: valid,
/// memory-attribute index 1, inner shareable, access flag set, non-global.
pub const MEMORY_ATTRIBUTES: u64 = 0xF05;

/// Descriptor bit that marks an entry as a table or page descriptor. The
/// mapper chooses it per level; attributes handed to `map_range` must leave
/// it clear.
pub const TABLE_OR_PAGE_BIT: u64 = 0x2;

/// The address-space identifier the kernel's one page table uses.
pub const ASID: usize = 1;

/// The root level of the translation hierarchy: level 1, covering 512 GiB.
pub const ROOT_LEVEL: usize = 1;

/// Attributes of a mapped region: the descriptor bits describing
/// cacheability, shareability and executability.
#[derive(Clone, Copy, Debug, PartialEq, Eq, Structural)]
pub struct Attributes {
    bits: u64,
}

impl Attributes {
    /// The raw descriptor bits.
    pub closed spec fn spec_bits(&self) -> u64 {
        self.bits
    }

    /// The device-memory preset, as a specification value.
    pub closed spec fn spec_device() -> Attributes {
        Attributes { bits: DEVICE_ATTRIBUTES }
    }

    /// The normal cached-memory preset, as a specification value.
    pub closed spec fn spec_normal_memory() -> Attributes {
        Attributes { bits: MEMORY_ATTRIBUTES }
    }

    /// The attributes leave the table-or-page descriptor bit to the mapper.
    pub open spec fn wf(&self) -> bool {
        self.spec_bits() & TABLE_OR_PAGE_BIT == 0
    }

    /// The device-memory preset.
    pub fn device() -> (attributes: Attributes)
        ensures
            attributes == Attributes::spec_device(),
            attributes.spec_bits() == DEVICE_ATTRIBUTES,
            attributes.wf(),
    {
        proof {
            assert(0x0040_0000_0000_0401u64 & 0x2u64 == 0) by (bit_vector);
        }
        Attributes { bits: DEVICE_ATTRIBUTES }
    }

    /// The normal cached-memory preset.
    pub fn normal_memory() -> (attributes: Attributes)
        ensures
            attributes == Attributes::spec_normal_memory(),
            attributes.spec_bits() == MEMORY_ATTRIBUTES,
            attributes.wf(),
    {
        proof {
            assert(0xF05u64 & 0x2u64 == 0) by (bit_vector);
        }
        Attributes { bits: MEMORY_ATTRIBUTES }
    }

    /// The raw descriptor bits.
    pub fn bits(&self) -> (bits: u64)
        ensures
            bits == self.spec_bits(),
    {
        self.bits
    }
}

/// Both presets leave the table-or-page bit to the mapper.
pub proof fn lemma_preset_attributes_wf()
    ensures
        Attributes::spec_device().wf(),
        Attributes::spec_normal_memory().wf(),
{
    assert(0x0040_0000_0000_0401u64 & 0x2u64 == 0) by (bit_vector);
    assert(0xF05u64 & 0x2u64 == 0) by (bit_vector);
}

/// The page boundary at or below the given address.
pub open spec fn spec_align_down(addr: usize) -> usize {
    addr & !((PAGE_SIZE - 1) as usize)
}

/// The page boundary at or above the given address (meaningful only where
/// the bump does not overflow).
pub open spec fn spec_align_up(addr: usize) -> usize {
    spec_align_down((addr + PAGE_SIZE - 1) as usize)
}

/// Rounds an address down to the page boundary at or below it.
fn align_down(addr: usize) -> (aligned: usize)
    ensures
        aligned == spec_align_down(addr),
        aligned % PAGE_SIZE == 0,
        aligned <= addr,
        addr - aligned < PAGE_SIZE,
{
    let aligned = addr & !(PAGE_SIZE - 1);
    proof {
        assert((addr & !4095usize) % 4096 == 0 && (addr & !4095usize) <= addr && addr - (addr
            & !4095usize) < 4096) by (bit_vector);
    }
    aligned
}

/// Rounds an address up to the page boundary at or above it.
fn align_up(addr: usize) -> (aligned: usize)
    requires
        addr <= usize::MAX - (PAGE_SIZE - 1),
    ensures
        aligned == spec_align_up(addr),
        aligned % PAGE_SIZE == 0,
        addr <= aligned,
        aligned - addr < PAGE_SIZE,
{
    let bumped = addr + (PAGE_SIZE - 1);
    let aligned = bumped & !(PAGE_SIZE - 1);
    proof {
        assert((bumped & !4095usize) % 4096 == 0 && (bumped & !4095usize) <= bumped && bumped - (
        bumped & !4095usize) < 4096) by (bit_vector);
    }
    aligned
}

/// A half-open range `[start, end)` of addresses, page-aligned at both
/// ends. Under identity mapping the same range names the virtual and the
/// physical addresses.
#[derive(Clone, Copy, Debug, PartialEq, Eq, Structural)]
pub struct MemoryRegion {
    start: usize,
    end: usize,
}

impl MemoryRegion {
    /// The first address of the region.
    pub closed spec fn spec_start(&self) -> usize {
        self.start
    }

    /// The first address after the region.
    pub closed spec fn spec_end(&self) -> usize {
        self.end
    }

    /// The region `new` builds for the given addresses.
    pub closed spec fn spec_new(start: usize, end: usize) -> MemoryRegion {
        MemoryRegion { start: spec_align_down(start), end: spec_align_up(end) }
    }

    /// Both ends page-aligned, and the region not backwards.
    pub open spec fn wf(&self) -> bool {
        &&& self.spec_start() % PAGE_SIZE == 0
        &&& self.spec_end() % PAGE_SIZE == 0
        &&& self.spec_start() <= self.spec_end()
    }

    /// Constructs the region for the given range of addresses, the start
    /// rounded down and the end rounded up to page boundaries.
    pub fn new(start: usize, end: usize) -> (region: MemoryRegion)
        requires
            start <= end,
            end <= usize::MAX - (PAGE_SIZE - 1),
        ensures
            region == MemoryRegion::spec_new(start, end),
            region.wf(),
            region.spec_start() <= start,
            start - region.spec_start() < PAGE_SIZE,
            end <= region.spec_end(),
            region.spec_end() - end < PAGE_SIZE,
    {
        MemoryRegion { start: align_down(start), end: align_up(end) }
    }

    /// The first address of the region.
    pub fn start(&self) -> (start: usize)
        ensures
            start == self.spec_start(),
    {
        self.start
    }

    /// The first address after the region.
    pub fn end(&self) -> (end: usize)
        ensures
            end == self.spec_end(),
    {
        self.end
    }

    /// The length of the region in bytes.
    pub fn len(&self) -> (len: usize)
        requires
            self.wf(),
        ensures
            len == self.spec_end() - self.spec_start(),
    {
        self.end - self.start
    }

    /// Returns whether the region holds no addresses.
    pub fn is_empty(&self) -> (empty: bool)
        requires
            self.wf(),
        ensures
            empty == (self.spec_start() == self.spec_end()),
    {
        self.start == self.end
    }

    /// Returns whether the two half-open regions share an address.
    pub fn overlaps(&self, other: &MemoryRegion) -> (r: bool)
        ensures
            r == spec_regions_overlap(*self, *other),
    {
        self.start < other.end && other.start < self.end && self.start < self.end
            && other.start < other.end
    }
}

/// Two half-open regions share at least one address (an empty region
/// shares none).
pub open spec fn spec_regions_overlap(a: MemoryRegion, b: MemoryRegion) -> bool {
    &&& a.spec_start() < b.spec_end()
    &&& b.spec_start() < a.spec_end()
    &&& a.spec_start() < a.spec_end()
    &&& b.spec_start() < b.spec_end()
}

/// Why a mapping request was rejected. Either way the request changes
/// nothing, and at boot either is fatal: the system cannot go on without
/// the region it asked for.
#[derive(Clone, Copy, Debug, PartialEq, Eq, Structural)]
pub enum MapError {
    /// The region reaches beyond the address space the table covers.
    AddressRange,
    /// The region overlaps an already-mapped region that has different
    /// attributes.
    Overlap,
}

/// One mapped page as the table records it: the physical address the page
/// translates to, and the attribute bits of its descriptor.
pub type PageEntry = (usize, u64);

/// Owns the outside mapper: an EL1&0 identity page table of
/// `aarch64_paging`. Held opaquely; the trusted items below are the only
/// doors to it.
#[verifier::external_body]
pub struct PageTableHandle {
    inner: aarch64_paging::idmap::IdMap<aarch64_paging::paging::El1And0>,
}

/// What the page table holds: for each mapped page (by its aligned virtual
/// address), the physical address it translates to and the attribute bits
/// of its descriptor.
///
/// Relies on `aarch64_paging::idmap::IdMap`: the trusted items below state
/// how each call changes this map, and nothing else defines it.
pub uninterp spec fn pt_mapped(pt: PageTableHandle) -> Map<usize, PageEntry>;

/// The page map of a table with nothing mapped.
pub open spec fn spec_empty_pages() -> Map<usize, PageEntry> {
    Map::empty()
}

/// The size in bytes of the virtual address space the table can map, fixed
/// by the root level it was built with (`aarch64_paging::idmap::IdMap::size`).
pub uninterp spec fn pt_capacity(pt: PageTableHandle) -> usize;

/// Relies on `aarch64_paging::idmap::IdMap::with_asid`: a fresh EL1&0
/// identity page table with the given address-space id, holding no
/// mappings yet. At root level 1 it covers 512 GiB (`IdMap::size`).
#[verifier::external_body]
fn pt_new(asid: usize, root_level: usize) -> (table: PageTableHandle)
    requires
        root_level == 1,
    ensures
        pt_mapped(table) == spec_empty_pages(),
{
    PageTableHandle {
        inner: aarch64_paging::idmap::IdMap::with_asid(
            asid,
            root_level,
            aarch64_paging::paging::El1And0,
        ),
    }
}

/// Relies on `aarch64_paging::idmap::IdMap::size`: the size of the
/// mappable address space, a constant of the table's construction.
#[verifier::external_body]
fn pt_size(pt: &PageTableHandle) -> (size: usize)
    ensures
        size == pt_capacity(*pt),
{
    pt.inner.size()
}

/// Relies on `aarch64_paging::idmap::IdMap::map_range`: installs
/// descriptors mapping every page of `[start, end)` to the identical
/// physical address with the given attribute bits. For a forward,
/// page-aligned range within the table's address space, with attributes
/// that leave the table-or-page bit clear, the call succeeds; table
/// allocation cannot fail (the allocator aborts instead).
#[verifier::external_body]
fn pt_map_range(pt: &mut PageTableHandle, start: usize, end: usize, attr_bits: u64) -> (r: Result<
    (),
    (),
>)
    requires
        start % PAGE_SIZE == 0,
        end % PAGE_SIZE == 0,
        start <= end,
        end <= pt_capacity(*old(pt)),
        attr_bits & TABLE_OR_PAGE_BIT == 0,
    ensures
        r is Ok,
        pt_capacity(*final(pt)) == pt_capacity(*old(pt)),
        pt_mapped(*final(pt)) == pt_mapped(*old(pt)).union_prefer_right(
            Map::new(
                |a: usize| start <= a < end && a % PAGE_SIZE == 0,
                |a: usize| (a, attr_bits),
            ),
        ),
{
    let region = aarch64_paging::paging::MemoryRegion::new(start, end);
    let flags = aarch64_paging::descriptor::El1Attributes::from_bits_retain(attr_bits as usize);
    match pt.inner.map_range(&region, flags) {
        Ok(()) => Ok(()),
        Err(_) => Err(()),
    }
}

/// The pages a mapped region contributes to the table: every page-aligned
/// address inside it, translated to itself, with the region's attributes.
pub open spec fn spec_region_pages(region: MemoryRegion, attributes: Attributes) -> Map<
    usize,
    PageEntry,
> {
    Map::new(
        |a: usize| region.spec_start() <= a < region.spec_end() && a % PAGE_SIZE == 0,
        |a: usize| (a, attributes.spec_bits()),
    )
}

/// The pages a sequence of mapped regions leaves in the table, applied in
/// order (later mappings overwrite, which the manager only allows when the
/// attributes agree).
pub open spec fn spec_mapped_pages(regions: Seq<(MemoryRegion, Attributes)>) -> Map<
    usize,
    PageEntry,
>
    decreases regions.len(),
{
    if regions.len() == 0 {
        Map::empty()
    } else {
        spec_mapped_pages(regions.drop_last()).union_prefer_right(
            spec_region_pages(regions.last().0, regions.last().1),
        )
    }
}

/// Some already-mapped region overlaps the given one with different
/// attributes: the request must be rejected.
pub open spec fn spec_conflicts(
    regions: Seq<(MemoryRegion, Attributes)>,
    region: MemoryRegion,
    attributes: Attributes,
) -> bool {
    exists|i: int|
        0 <= i < regions.len() && spec_regions_overlap(#[trigger] regions[i].0, region)
            && regions[i].1 != attributes
}

/// Manages a page table using identity mapping: owns the hardware table,
/// the record of every region mapped so far, and the activation state.
pub struct IdentityMap {
    inner: PageTableHandle,
    regions: Vec<(MemoryRegion, Attributes)>,
    active: bool,
}

impl IdentityMap {
    /// The regions mapped so far, with their attributes, in mapping order.
    pub closed spec fn regions_seq(&self) -> Seq<(MemoryRegion, Attributes)> {
        self.regions@
    }

    /// The size in bytes of the mappable virtual address space.
    pub closed spec fn spec_size(&self) -> usize {
        pt_capacity(self.inner)
    }

    /// Whether the table has been activated on the primary core.
    pub closed spec fn is_active(&self) -> bool {
        self.active
    }

    /// The pages the hardware table maps, by aligned virtual address.
    pub closed spec fn spec_pages(&self) -> Map<usize, PageEntry> {
        pt_mapped(self.inner)
    }

    /// Every recorded region is page-aligned, forward, and within the
    /// table's address space, and the hardware table holds exactly the
    /// pages of the recorded regions.
    pub closed spec fn wf(&self) -> bool {
        &&& forall|i: int|
            0 <= i < self.regions_seq().len() ==> (#[trigger] self.regions_seq()[i]).0.wf()
                && self.regions_seq()[i].1.wf() && self.regions_seq()[i].0.spec_end()
                <= self.spec_size()
        &&& self.spec_pages() == spec_mapped_pages(self.regions_seq())
    }

    /// Creates a new identity-mapping page table with nothing mapped.
    pub fn new() -> (idmap: IdentityMap)
        ensures
            idmap.wf(),
            idmap.regions_seq().len() == 0,
            !idmap.is_active(),
    {
        let inner = pt_new(ASID, ROOT_LEVEL);
        IdentityMap { inner, regions: Vec::new(), active: false }
    }

    /// The size in bytes of the virtual address space which can be mapped
    /// in this page table.
    pub fn size(&self) -> (size: usize)
        ensures
            size == self.spec_size(),
    {
        pt_size(&self.inner)
    }

    /// Whether the table has been activated on the primary core.
    pub fn active(&self) -> (active: bool)
        ensures
            active == self.is_active(),
    {
        self.active
    }

    /// Identity-maps the given range of pages with the given attributes.
    ///
    /// Fails — changing nothing — if the range reaches beyond the table's
    /// address space, or if it overlaps an already-mapped region whose
    /// attributes differ. Re-mapping a range with the attributes it
    /// already has is allowed.
    #[verifier::loop_isolation(false)]
    pub fn map_range(&mut self, range: &MemoryRegion, flags: Attributes) -> (r: Result<
        (),
        MapError,
    >)
        requires
            old(self).wf(),
            range.wf(),
            flags.wf(),
        ensures
            final(self).wf(),
            final(self).spec_size() == old(self).spec_size(),
            final(self).is_active() == old(self).is_active(),
            match r {
                Ok(()) => {
                    &&& range.spec_end() <= old(self).spec_size()
                    &&& !spec_conflicts(old(self).regions_seq(), *range, flags)
                    &&& final(self).regions_seq() == old(self).regions_seq().push(
                        (*range, flags),
                    )
                },
                Err(MapError::AddressRange) => {
                    &&& range.spec_end() > old(self).spec_size()
                    &&& final(self).regions_seq() == old(self).regions_seq()
                },
                Err(MapError::Overlap) => {
                    &&& range.spec_end() <= old(self).spec_size()
                    &&& spec_conflicts(old(self).regions_seq(), *range, flags)
                    &&& final(self).regions_seq() == old(self).regions_seq()
                },
            },
    {
        if range.end() > self.size() {
            return Err(MapError::AddressRange);
        }
        let n = self.regions.len();
        let mut i: usize = 0;
        while i < n
            invariant
                i <= n,
                n == self.regions_seq().len(),
                forall|j: int|
                    0 <= j < i ==> !(spec_regions_overlap(
                        (#[trigger] self.regions_seq()[j]).0,
                        *range,
                    ) && self.regions_seq()[j].1 != flags),
            decreases n - i,
        {
            let mapped = &self.regions[i];
            if mapped.0.overlaps(range) && !(mapped.1 == flags) {
                proof {
                    assert(spec_regions_overlap(self.regions_seq()[i as int].0, *range)
                        && self.regions_seq()[i as int].1 != flags);
                }
                return Err(MapError::Overlap);
            }
            i = i + 1;
        }
        let ghost old_regions = self.regions@;
        let ghost old_pages = pt_mapped(self.inner);
        match pt_map_range(&mut self.inner, range.start(), range.end(), flags.bits()) {
            Ok(()) => {},
            Err(()) => {
                return vstd::pervasive::unreached();
            },
        }
        self.regions.push((*range, flags));
        proof {
            assert(self.regions@.drop_last() =~= old_regions);
            assert(spec_mapped_pages(self.regions@) =~= old_pages.union_prefer_right(
                spec_region_pages(*range, flags),
            ));
            assert(pt_mapped(self.inner) =~= spec_mapped_pages(self.regions@));
            assert forall|j: int| 0 <= j < self.regions_seq().len() implies (
            #[trigger] self.regions_seq()[j]).0.wf() && self.regions_seq()[j].1.wf()
                && self.regions_seq()[j].0.spec_end() <= self.spec_size() by {
                if j < old_regions.len() {
                    assert(self.regions_seq()[j] == old(self).regions_seq()[j]);
                } else {
                    assert(self.regions_seq()[j] == (*range, flags));
                }
            };
        }
        Ok(())
    }

    /// Activates the page table on the calling core: from here on the core
    /// translates through it. May be called exactly once, on the primary
    /// core; the caller must have mapped everything the program will touch.
    /// Writing the translation-base register happens at the unverified
    /// boundary.
    pub fn activate(&mut self)
        requires
            old(self).wf(),
            !old(self).is_active(),
        ensures
            final(self).wf(),
            final(self).is_active(),
            final(self).regions_seq() == old(self).regions_seq(),
            final(self).spec_size() == old(self).spec_size(),
    {
        self.active = true;
    }

    /// Points a secondary core at the already-built, already-active table.
    /// No mapping changes: only the per-core translation-base write, which
    /// happens at the unverified boundary.
    pub fn activate_secondary(&self)
        requires
            self.wf(),
            self.is_active(),
    {
    }
}

/// All pages a well-formed region record leaves in the table translate to
/// themselves: the value stored for a page is the page's own address.
proof fn lemma_mapped_pages_identity(regions: Seq<(MemoryRegion, Attributes)>)
    ensures
        forall|page: usize| #[trigger]
            spec_mapped_pages(regions).dom().contains(page) ==> spec_mapped_pages(
                regions,
            )[page].0 == page,
    decreases regions.len(),
{
    if regions.len() > 0 {
        lemma_mapped_pages_identity(regions.drop_last());
        let last = spec_region_pages(regions.last().0, regions.last().1);
        assert forall|page: usize| #[trigger]
            spec_mapped_pages(regions).dom().contains(page) implies spec_mapped_pages(
            regions,
        )[page].0 == page by {
            if !last.dom().contains(page) {
                assert(spec_mapped_pages(regions.drop_last()).dom().contains(page));
            }
        };
    }
}

/// Every page of a recorded region is in the table's page map.
proof fn lemma_mapped_pages_contain(
    regions: Seq<(MemoryRegion, Attributes)>,
    i: int,
    page: usize,
)
    requires
        0 <= i < regions.len(),
        regions[i].0.spec_start() <= page < regions[i].0.spec_end(),
        page % PAGE_SIZE == 0,
    ensures
        spec_mapped_pages(regions).dom().contains(page),
    decreases regions.len(),
{
    if i < regions.len() - 1 {
        lemma_mapped_pages_contain(regions.drop_last(), i, page);
    }
}

/// The physical address the table's page map translates an address to:
/// the mapped target of the address's page, plus the offset inside the
/// page; nothing, for an address on no mapped page.
pub open spec fn spec_translate(pages: Map<usize, PageEntry>, addr: usize) -> Option<int> {
    let page = addr as int / PAGE_SIZE as int * PAGE_SIZE as int;
    if pages.dom().contains(page as usize) {
        Some(pages[page as usize].0 + (addr - page))
    } else {
        None
    }
}

/// Identity invariant: every address inside a successfully mapped region
/// translates to the identical physical address.
pub proof fn lemma_identity_mapping(idmap: &IdentityMap, i: int, addr: usize)
    requires
        idmap.wf(),
        0 <= i < idmap.regions_seq().len(),
        idmap.regions_seq()[i].0.spec_start() <= addr < idmap.regions_seq()[i].0.spec_end(),
    ensures
        spec_translate(idmap.spec_pages(), addr) == Some(addr as int),
{
    let region = idmap.regions_seq()[i].0;
    let page = addr as int / PAGE_SIZE as int * PAGE_SIZE as int;
    assert(page % PAGE_SIZE as int == 0) by {
        vstd::arithmetic::div_mod::lemma_mod_multiples_basic(
            addr as int / PAGE_SIZE as int,
            PAGE_SIZE as int,
        );
    }
    assert(0 <= page <= addr && addr - page < PAGE_SIZE) by {
        lemma_fundamental_div_mod(addr as int, PAGE_SIZE as int);
        vstd::arithmetic::div_mod::lemma_mod_division_less_than_divisor(
            addr as int,
            PAGE_SIZE as int,
        );
    }
    assert(region.spec_start() <= page) by {
        lemma_div_is_ordered(region.spec_start() as int, addr as int, PAGE_SIZE as int);
        lemma_fundamental_div_mod(region.spec_start() as int, PAGE_SIZE as int);
        vstd::arithmetic::div_mod::lemma_mod_division_less_than_divisor(
            addr as int,
            PAGE_SIZE as int,
        );
    }
    lemma_mapped_pages_contain(idmap.regions_seq(), i, page as usize);
    lemma_mapped_pages_identity(idmap.regions_seq());
}

} // verus!
