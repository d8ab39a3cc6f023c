//! CPU core indexing: maps a core's hardware affinity identifier (the
//! affinity fields of its MPIDR_EL1 value) to a small dense logical index,
//! by position in the boot-time CPU enumeration.
//!
//! Reading MPIDR_EL1 itself is a system-register access and happens outside
//! the library; every function here takes the raw value as an argument.

use vstd::prelude::*;

verus! {

/// Mask selecting the affinity fields (Aff3..Aff0) of an MPIDR_EL1 value.
pub const MPIDR_AFFINITY_MASK: u64 = 0xff00ffffff;

/// MPIDR_EL1 uniprocessor bit.
pub const MPIDR_U_BIT: u64 = 1u64 << 30;

/// MPIDR_EL1 multithreading bit.
pub const MPIDR_MT_BIT: u64 = 1u64 << 24;

/// Returns the affinity bytes of the given MPIDR value, masking out the
/// other bits.
pub fn mpidr_affinity(mpidr: u64) -> (affinity: u64)
    ensures
        affinity == mpidr & MPIDR_AFFINITY_MASK,
{
    mpidr & MPIDR_AFFINITY_MASK
}

/// `index` is the logical index of the core with the given affinity id:
/// the first position in the enumeration holding that id.
pub open spec fn is_core_index(cores: Seq<u64>, affinity: u64, index: int) -> bool {
    &&& 0 <= index < cores.len()
    &&& cores[index] == affinity
    &&& forall|j: int| 0 <= j < index ==> cores[j] != affinity
}

/// The boot-time CPU enumeration: the affinity id of each core, in the
/// order the hardware description lists them. A core's position in this
/// list is its logical index, dense and stable for the life of the process.
pub struct CoresImpl {
    affinities: Vec<u64>,
}

impl CoresImpl {
    /// The enumeration as a sequence of affinity ids.
    pub closed spec fn view(&self) -> Seq<u64> {
        self.affinities@
    }

    /// Builds the enumeration from the affinity ids the hardware
    /// description lists, in that order.
    pub fn new(affinities: Vec<u64>) -> (cores: Self)
        ensures
            cores@ == affinities@,
    {
        CoresImpl { affinities }
    }

    /// Returns the total number of CPUs on the system.
    pub fn cpu_count(&self) -> (n: usize)
        ensures
            n == self@.len(),
    {
        self.affinities.len()
    }

    /// Returns the logical index of the core with the given MPIDR affinity
    /// fields, if the enumeration holds it.
    pub fn mpidr_to_cpu_index(&self, mpidr_affinity: u64) -> (index: Option<usize>)
        ensures
            match index {
                Some(i) => is_core_index(self@, mpidr_affinity, i as int),
                None => forall|j: int| 0 <= j < self@.len() ==> self@[j] != mpidr_affinity,
            },
    {
        let n = self.affinities.len();
        let mut i: usize = 0;
        while i < n
            invariant
                0 <= i <= n,
                n == self@.len(),
                forall|j: int| 0 <= j < i ==> self@[j] != mpidr_affinity,
            decreases n - i,
        {
            if self.affinities[i] == mpidr_affinity {
                return Some(i);
            }
            i = i + 1;
        }
        None
    }

    /// Returns the logical index of the core whose MPIDR_EL1 value is given.
    /// The enumeration must hold the core: a core that the hardware
    /// description does not list has no logical index.
    pub fn current_cpu_index(&self, mpidr: u64) -> (index: usize)
        requires
            exists|j: int| 0 <= j < self@.len() && self@[j] == mpidr & MPIDR_AFFINITY_MASK,
        ensures
            is_core_index(self@, mpidr & MPIDR_AFFINITY_MASK, index as int),
    {
        let affinity = mpidr_affinity(mpidr);
        self.mpidr_to_cpu_index(affinity).unwrap()
    }
}

/// Core index stability: the logical index of a core is a function of the
/// enumeration and the core's affinity id alone, so repeated lookups on the
/// same physical core always give the same index.
pub proof fn lemma_core_index_stable(cores: Seq<u64>, affinity: u64, i1: int, i2: int)
    requires
        is_core_index(cores, affinity, i1),
        is_core_index(cores, affinity, i2),
    ensures
        i1 == i2,
{
}

} // verus!
