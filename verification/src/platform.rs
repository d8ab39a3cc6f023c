//! The platforms' hard-coded initial page tables.
//!
//! Before the dynamic identity map exists, each platform runs on a small,
//! fixed, one-level block-mapping table covering exactly the memory needed
//! to reach the dynamic table's construction: attribute-encoded descriptors
//! at fixed indices, each entry mapping one 1 GiB block to itself.

use vstd::prelude::*;

verus! {

use crate::pagetable::{DEVICE_ATTRIBUTES, MEMORY_ATTRIBUTES};

/// The number of entries of the initial one-level table.
pub const INITIAL_IDMAP_ENTRIES: usize = 512;

/// The initial pre-activation page table: one level of block descriptors,
/// ready to be placed at the fixed address the boot path expects.
pub struct InitialPagetable {
    entries: Vec<u64>,
}

impl InitialPagetable {
    /// The raw descriptors, by index.
    pub closed spec fn view(&self) -> Seq<u64> {
        self.entries@
    }

    /// The table has exactly its one level of entries.
    pub open spec fn wf(&self) -> bool {
        self@.len() == INITIAL_IDMAP_ENTRIES
    }

    /// Builds a table whose every descriptor is invalid (zero).
    fn zeroed() -> (table: InitialPagetable)
        ensures
            table.wf(),
            forall|i: int| 0 <= i < table@.len() ==> table@[i] == 0,
    {
        let mut entries: Vec<u64> = Vec::new();
        let mut i: usize = 0;
        while i < INITIAL_IDMAP_ENTRIES
            invariant
                i <= INITIAL_IDMAP_ENTRIES,
                entries@.len() == i,
                forall|j: int| 0 <= j < i ==> entries@[j] == 0,
            decreases INITIAL_IDMAP_ENTRIES - i,
        {
            entries.push(0);
            i = i + 1;
        }
        InitialPagetable { entries }
    }

    /// The descriptor at the given index.
    pub fn entry(&self, index: usize) -> (descriptor: u64)
        requires
            index < self@.len(),
        ensures
            descriptor == self@[index as int],
    {
        self.entries[index]
    }
}

/// The QEMU aarch64 virt platform.
pub struct Qemu;

impl Qemu {
    /// Returns the initial hard-coded page table to use before the Rust
    /// code starts: the first gigabyte of device registers, the gigabyte of
    /// DRAM above it, and the high device block, each mapped to itself.
    pub fn initial_idmap() -> (table: InitialPagetable)
        ensures
            table.wf(),
            table@[0] == DEVICE_ATTRIBUTES,
            table@[1] == MEMORY_ATTRIBUTES | 0x40000000,
            table@[256] == DEVICE_ATTRIBUTES | 0x4000000000,
            forall|i: int|
                0 <= i < table@.len() && i != 0 && i != 1 && i != 256 ==> table@[i] == 0,
    {
        let mut table = InitialPagetable::zeroed();
        table.entries[0] = DEVICE_ATTRIBUTES;
        table.entries[1] = MEMORY_ATTRIBUTES | 0x40000000;
        table.entries[256] = DEVICE_ATTRIBUTES | 0x4000000000;
        table
    }
}

/// The crosvm platform.
pub struct Crosvm;

impl Crosvm {
    /// Returns the initial hard-coded page table to use before the Rust
    /// code starts: two gigabytes of device mappings and one gigabyte of
    /// DRAM, each mapped to itself.
    pub fn initial_idmap() -> (table: InitialPagetable)
        ensures
            table.wf(),
            table@[0] == DEVICE_ATTRIBUTES,
            table@[1] == DEVICE_ATTRIBUTES | 0x40000000,
            table@[2] == MEMORY_ATTRIBUTES | 0x80000000,
            forall|i: int| 0 <= i < table@.len() && i != 0 && i != 1 && i != 2 ==> table@[i] == 0,
    {
        let mut table = InitialPagetable::zeroed();
        table.entries[0] = DEVICE_ATTRIBUTES;
        table.entries[1] = DEVICE_ATTRIBUTES | 0x40000000;
        table.entries[2] = MEMORY_ATTRIBUTES | 0x80000000;
        table
    }
}

} // verus!
