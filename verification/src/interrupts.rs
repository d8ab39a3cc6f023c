//! The interrupt handler registry and the interrupt controller's
//! initialization state.
//!
//! Handlers live in two logically distinct tables: one shared by all cores,
//! and one per logical core holding entries private to that core. A given
//! interrupt id may be registered in at most one of the two scopes at any
//! time; dispatch looks the current core's private table up first, then the
//! shared table.
//!
//! The controller's register accesses happen at the unverified hardware
//! layer; this module holds the registration state, the dispatch decision,
//! and the validation and ordering of controller setup.

use std::collections::BTreeMap;
use vstd::prelude::*;

verus! {

use crate::intid::IntId;

/// Size in bytes of the register frame of a GICv3 distributor.
pub const GICD_SIZE: usize = 0x10000;

/// Size in bytes of one core's GICv3 redistributor frame group
/// (redistributor frame plus SGI frame).
pub const GICR_FRAME_SIZE: usize = 0x20000;

/// The two dispatch tables: handlers shared by all cores, and one table per
/// logical core holding that core's private handlers.
#[verifier::reject_recursive_types(H)]
pub struct HandlerRegistry<H> {
    shared: BTreeMap<u32, H>,
    private: Vec<BTreeMap<u32, H>>,
}

impl<H> HandlerRegistry<H> {
    /// The handlers registered for all cores, by interrupt id.
    pub closed spec fn shared_handlers(&self) -> Map<u32, H> {
        self.shared@
    }

    /// The handlers private to the given core, by interrupt id.
    pub closed spec fn private_handlers(&self, core: int) -> Map<u32, H> {
        self.private@[core]@
    }

    /// The number of logical cores the registry was built for.
    pub closed spec fn spec_cpu_count(&self) -> nat {
        self.private@.len()
    }

    /// Registry exclusivity: a given interrupt id is registered in at most
    /// one of the two scopes — shared, or private to some core.
    pub open spec fn wf(&self) -> bool {
        forall|id: u32, core: int|
            0 <= core < self.spec_cpu_count() && #[trigger] self.private_handlers(
                core,
            ).contains_key(id) ==> !self.shared_handlers().contains_key(id)
    }

    /// Creates an empty registry for the given number of logical cores.
    pub fn new(cpu_count: usize) -> (registry: Self)
        ensures
            registry.wf(),
            registry.spec_cpu_count() == cpu_count,
            registry.shared_handlers() == Map::<u32, H>::empty(),
            forall|core: int|
                0 <= core < cpu_count ==> registry.private_handlers(core) == Map::<
                    u32,
                    H,
                >::empty(),
    {
        let mut private: Vec<BTreeMap<u32, H>> = Vec::new();
        let mut i: usize = 0;
        while i < cpu_count
            invariant
                i <= cpu_count,
                private@.len() == i,
                forall|core: int| 0 <= core < i ==> private@[core]@ == Map::<u32, H>::empty(),
            decreases cpu_count - i,
        {
            private.push(BTreeMap::new());
            i = i + 1;
        }
        HandlerRegistry { shared: BTreeMap::new(), private }
    }

    /// The number of logical cores the registry was built for.
    pub fn cpu_count(&self) -> (n: usize)
        ensures
            n == self.spec_cpu_count(),
    {
        self.private.len()
    }

    /// Returns whether a shared handler is registered for the given id.
    pub fn contains_shared_irq_handler(&self, intid: IntId) -> (r: bool)
        ensures
            r == self.shared_handlers().contains_key(intid@),
    {
        self.shared.contains_key(&intid.raw())
    }

    /// Returns whether the given core holds a private handler for the id.
    pub fn contains_private_irq_handler(&self, core: usize, intid: IntId) -> (r: bool)
        requires
            core < self.spec_cpu_count(),
        ensures
            r == self.private_handlers(core as int).contains_key(intid@),
    {
        self.private[core].contains_key(&intid.raw())
    }

    /// Returns whether any core holds a private handler for the given id.
    /// Callers use this to rule a shared registration out before making it.
    pub fn has_private_irq_handler(&self, intid: IntId) -> (r: bool)
        ensures
            r == exists|core: int|
                0 <= core < self.spec_cpu_count() && #[trigger] self.private_handlers(
                    core,
                ).contains_key(intid@),
    {
        let n = self.private.len();
        let mut i: usize = 0;
        while i < n
            invariant
                i <= n,
                n == self.spec_cpu_count(),
                forall|core: int|
                    0 <= core < i ==> !#[trigger] self.private_handlers(core).contains_key(intid@),
            decreases n - i,
        {
            if self.private[i].contains_key(&intid.raw()) {
                proof {
                    assert(self.private_handlers(i as int).contains_key(intid@));
                }
                return true;
            }
            i = i + 1;
        }
        false
    }

    /// Sets the handler for the given interrupt id, shared by all cores.
    ///
    /// Returns the handler that was previously set in the shared scope, if
    /// any (upsert). Registering an id that some core already holds
    /// privately is a programming error; callers rule it out first with
    /// `has_private_irq_handler`.
    pub fn set_shared_irq_handler(&mut self, intid: IntId, handler: H) -> (previous: Option<H>)
        requires
            old(self).wf(),
            forall|core: int|
                0 <= core < old(self).spec_cpu_count() ==> !#[trigger] old(self).private_handlers(
                    core,
                ).contains_key(intid@),
        ensures
            final(self).wf(),
            final(self).shared_handlers() == old(self).shared_handlers().insert(intid@, handler),
            final(self).spec_cpu_count() == old(self).spec_cpu_count(),
            forall|core: int|
                0 <= core < old(self).spec_cpu_count() ==> final(self).private_handlers(core)
                    == old(self).private_handlers(core),
            previous == if old(self).shared_handlers().contains_key(intid@) {
                Some(old(self).shared_handlers()[intid@])
            } else {
                None::<H>
            },
    {
        let previous = self.shared.insert(intid.raw(), handler);
        proof {
            assert forall|id: u32, core: int|
                0 <= core < self.spec_cpu_count() && #[trigger] self.private_handlers(
                    core,
                ).contains_key(id) implies !self.shared_handlers().contains_key(id) by {
                assert(old(self).private_handlers(core).contains_key(id));
            };
        }
        previous
    }

    /// Removes the shared handler for the given interrupt id.
    ///
    /// Returns the handler that was previously set, or nothing if the id
    /// had no shared registration.
    pub fn remove_shared_irq_handler(&mut self, intid: IntId) -> (previous: Option<H>)
        requires
            old(self).wf(),
        ensures
            final(self).wf(),
            final(self).shared_handlers() == old(self).shared_handlers().remove(intid@),
            final(self).spec_cpu_count() == old(self).spec_cpu_count(),
            forall|core: int|
                0 <= core < old(self).spec_cpu_count() ==> final(self).private_handlers(core)
                    == old(self).private_handlers(core),
            previous == if old(self).shared_handlers().contains_key(intid@) {
                Some(old(self).shared_handlers()[intid@])
            } else {
                None::<H>
            },
    {
        let previous = self.shared.remove(&intid.raw());
        proof {
            assert forall|id: u32, core: int|
                0 <= core < self.spec_cpu_count() && #[trigger] self.private_handlers(
                    core,
                ).contains_key(id) implies !self.shared_handlers().contains_key(id) by {
                assert(old(self).private_handlers(core).contains_key(id));
            };
        }
        previous
    }

    /// Sets the handler for the given interrupt id, private to the given
    /// core.
    ///
    /// Returns the handler that core previously held for the id, if any
    /// (upsert). Registering an id that already has a shared handler is a
    /// programming error; callers rule it out first with
    /// `contains_shared_irq_handler`.
    pub fn set_private_irq_handler(&mut self, core: usize, intid: IntId, handler: H) -> (previous:
        Option<H>)
        requires
            old(self).wf(),
            core < old(self).spec_cpu_count(),
            !old(self).shared_handlers().contains_key(intid@),
        ensures
            final(self).wf(),
            final(self).private_handlers(core as int) == old(self).private_handlers(
                core as int,
            ).insert(intid@, handler),
            final(self).spec_cpu_count() == old(self).spec_cpu_count(),
            final(self).shared_handlers() == old(self).shared_handlers(),
            forall|other: int|
                0 <= other < old(self).spec_cpu_count() && other != core ==> final(self).private_handlers(other) == old(self).private_handlers(other),
            previous == if old(self).private_handlers(core as int).contains_key(intid@) {
                Some(old(self).private_handlers(core as int)[intid@])
            } else {
                None::<H>
            },
    {
        let table = &mut self.private[core];
        let previous = table.insert(intid.raw(), handler);
        proof {
            assert forall|id: u32, c: int|
                0 <= c < self.spec_cpu_count() && #[trigger] self.private_handlers(
                    c,
                ).contains_key(id) implies !self.shared_handlers().contains_key(id) by {
                if c != core as int || id != intid@ {
                    assert(old(self).private_handlers(c).contains_key(id));
                }
            };
        }
        previous
    }

    /// Removes the given core's private handler for the given interrupt id.
    ///
    /// Returns the handler that was previously set, or nothing if the core
    /// held no private registration for the id.
    pub fn remove_private_irq_handler(&mut self, core: usize, intid: IntId) -> (previous: Option<
        H,
    >)
        requires
            old(self).wf(),
            core < old(self).spec_cpu_count(),
        ensures
            final(self).wf(),
            final(self).private_handlers(core as int) == old(self).private_handlers(
                core as int,
            ).remove(intid@),
            final(self).spec_cpu_count() == old(self).spec_cpu_count(),
            final(self).shared_handlers() == old(self).shared_handlers(),
            forall|other: int|
                0 <= other < old(self).spec_cpu_count() && other != core ==> final(self).private_handlers(other) == old(self).private_handlers(other),
            previous == if old(self).private_handlers(core as int).contains_key(intid@) {
                Some(old(self).private_handlers(core as int)[intid@])
            } else {
                None::<H>
            },
    {
        let table = &mut self.private[core];
        let previous = table.remove(&intid.raw());
        proof {
            assert forall|id: u32, c: int|
                0 <= c < self.spec_cpu_count() && #[trigger] self.private_handlers(
                    c,
                ).contains_key(id) implies !self.shared_handlers().contains_key(id) by {
                assert(old(self).private_handlers(c).contains_key(id));
            };
        }
        previous
    }

    /// Picks the handler for a pending interrupt on the given core: the
    /// core's private handler if it has one, else the shared handler.
    ///
    /// An interrupt that neither table holds is a fatal configuration
    /// error, not a runtime condition; callers must not dispatch one.
    pub fn handle_irq(&self, core: usize, intid: IntId) -> (handler: &H)
        requires
            self.wf(),
            core < self.spec_cpu_count(),
            self.private_handlers(core as int).contains_key(intid@) || self.shared_handlers(
            ).contains_key(intid@),
        ensures
            handler == if self.private_handlers(core as int).contains_key(intid@) {
                self.private_handlers(core as int)[intid@]
            } else {
                self.shared_handlers()[intid@]
            },
    {
        let id = intid.raw();
        match self.private[core].get(&id) {
            Some(handler) => handler,
            None => self.shared.get(&id).unwrap(),
        }
    }
}

/// Registry exclusivity, as a fact about any well-formed registry: an id
/// held privately by some core has no shared registration, and the private
/// registration stays retrievable.
pub proof fn lemma_registry_exclusive<H>(registry: &HandlerRegistry<H>, id: u32, core: int)
    requires
        registry.wf(),
        0 <= core < registry.spec_cpu_count(),
        registry.private_handlers(core).contains_key(id),
    ensures
        !registry.shared_handlers().contains_key(id),
{
}

/// Removes the RTC alarm handler: the shared registration for the
/// platform's RTC interrupt id. Returns the handler that was registered,
/// if any.
pub fn irq_remove<H>(registry: &mut HandlerRegistry<H>, rtc_irq: IntId) -> (previous: Option<H>)
    requires
        old(registry).wf(),
    ensures
        final(registry).wf(),
        final(registry).shared_handlers() == old(registry).shared_handlers().remove(rtc_irq@),
        final(registry).spec_cpu_count() == old(registry).spec_cpu_count(),
        forall|core: int|
            0 <= core < old(registry).spec_cpu_count() ==> final(registry).private_handlers(core)
                == old(registry).private_handlers(core),
        previous == if old(registry).shared_handlers().contains_key(rtc_irq@) {
            Some(old(registry).shared_handlers()[rtc_irq@])
        } else {
            None::<H>
        },
{
    registry.remove_shared_irq_handler(rtc_irq)
}

/// Returns whether a controller configuration call (priority, trigger,
/// enable) names its target the way the hardware expects: a private
/// (per-core banked) interrupt is configured per core, so the call takes
/// the logical index of a core the controller serves; a shared interrupt
/// is configured once, with no core named.
pub fn interrupt_target_is_valid(intid: IntId, core: Option<usize>, cpu_count: usize) -> (ok: bool)
    ensures
        ok == if intid.spec_is_private() {
            core matches Some(c) && c < cpu_count
        } else {
            core is None
        },
{
    if intid.is_private() {
        match core {
            Some(c) => c < cpu_count,
            None => false,
        }
    } else {
        match core {
            Some(_) => false,
            None => true,
        }
    }
}

/// Checks the two register regions the hardware description gives for the
/// interrupt controller: the distributor region must be exactly one
/// distributor frame, and the redistributor region must hold one frame
/// group per core. Boot must not go on with an undersized region.
pub fn validate_gic_regions(gicd_size: usize, gicr_size: usize, cpu_count: usize) -> (ok: bool)
    ensures
        ok == (gicd_size == GICD_SIZE && gicr_size >= GICR_FRAME_SIZE * cpu_count),
{
    let needed: u128 = (GICR_FRAME_SIZE as u128) * (cpu_count as u128);
    gicd_size == GICD_SIZE && (gicr_size as u128) >= needed
}

/// The interrupt controller's initialization state: where its two register
/// regions live, and which cores have had their per-core (redistributor)
/// setup run. The register writes themselves happen at the unverified
/// hardware layer; this records and orders them.
pub struct InterruptController {
    gicd_base: usize,
    gicr_base: usize,
    cores_initialized: Vec<bool>,
}

impl InterruptController {
    /// The number of cores the controller serves.
    pub closed spec fn spec_cpu_count(&self) -> nat {
        self.cores_initialized@.len()
    }

    /// Whether the given core's per-core setup has run.
    pub closed spec fn core_initialized(&self, core: int) -> bool {
        self.cores_initialized@[core]
    }

    /// Base address of the distributor register region.
    pub closed spec fn spec_gicd_base(&self) -> usize {
        self.gicd_base
    }

    /// Base address of the redistributor register region.
    pub closed spec fn spec_gicr_base(&self) -> usize {
        self.gicr_base
    }

    /// The number of cores the controller serves.
    pub fn cpu_count(&self) -> (n: usize)
        ensures
            n == self.spec_cpu_count(),
    {
        self.cores_initialized.len()
    }

    /// Returns whether the given core's per-core setup has run.
    pub fn is_core_initialized(&self, core: usize) -> (r: bool)
        requires
            core < self.spec_cpu_count(),
        ensures
            r == self.core_initialized(core as int),
    {
        self.cores_initialized[core]
    }
}

/// Records the interrupt controller found in the hardware description,
/// after global setup and per-core setup for the primary core (index 0)
/// have run. The regions must have been validated against the expected
/// register frame layout and the number of cores present
/// (`validate_gic_regions`); booting with an undersized region is fatal.
pub fn init_gic(
    gicd_base: usize,
    gicd_size: usize,
    gicr_base: usize,
    gicr_size: usize,
    cpu_count: usize,
) -> (gic: InterruptController)
    requires
        gicd_size == GICD_SIZE,
        gicr_size >= GICR_FRAME_SIZE * cpu_count,
        cpu_count >= 1,
    ensures
        gic.spec_cpu_count() == cpu_count,
        gic.spec_gicd_base() == gicd_base,
        gic.spec_gicr_base() == gicr_base,
        gic.core_initialized(0),
        forall|core: int| 1 <= core < cpu_count ==> !gic.core_initialized(core),
{
    let mut cores_initialized: Vec<bool> = Vec::new();
    cores_initialized.push(true);
    let mut i: usize = 1;
    while i < cpu_count
        invariant
            1 <= i <= cpu_count,
            cores_initialized@.len() == i,
            cores_initialized@[0],
            forall|core: int| 1 <= core < i ==> !cores_initialized@[core],
        decreases cpu_count - i,
    {
        cores_initialized.push(false);
        i = i + 1;
    }
    InterruptController { gicd_base, gicr_base, cores_initialized }
}

/// Records that the given core, just brought online, has run its per-core
/// controller setup. Nothing else changes: the distributor was set up when
/// the controller was, and other cores' state is theirs alone.
pub fn secondary_init_gic(gic: &mut InterruptController, core: usize)
    requires
        core < old(gic).spec_cpu_count(),
    ensures
        final(gic).spec_cpu_count() == old(gic).spec_cpu_count(),
        final(gic).spec_gicd_base() == old(gic).spec_gicd_base(),
        final(gic).spec_gicr_base() == old(gic).spec_gicr_base(),
        final(gic).core_initialized(core as int),
        forall|other: int|
            0 <= other < old(gic).spec_cpu_count() && other != core ==> final(gic).core_initialized(
                other,
            ) == old(gic).core_initialized(other),
{
    gic.cores_initialized[core] = true;
}

} // verus!
