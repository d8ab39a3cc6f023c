//! Secondary-core bring-up: a dedicated stack per core, the scratch-slot
//! hand-off of the entry point and its argument, and the firmware request
//! that starts the core.
//!
//! Issuing the firmware call (and the store barrier that must precede it)
//! is outside work: the library builds the request and owns the stacks; the
//! caller performs the call and feeds the returned code back through
//! `psci_return_to_result`.

use std::collections::BTreeMap;
use vstd::prelude::*;

verus! {

use crate::PAGE_SIZE;

/// The number of pages allocated for each secondary core stack.
pub const SECONDARY_STACK_PAGE_COUNT: usize = 4;

/// Size in bytes of each secondary core stack.
pub const SECONDARY_STACK_SIZE: usize = SECONDARY_STACK_PAGE_COUNT * PAGE_SIZE;

/// Size in bytes of the scratch slots at the top of a secondary stack: one
/// for the entry point, one for its argument.
pub const SECONDARY_STACK_SCRATCH_SIZE: usize = 16;

/// Firmware function identifier: query the interface version.
pub const PSCI_VERSION: u32 = 0x8400_0000;

/// Firmware function identifier: stop the calling core.
pub const PSCI_CPU_OFF: u32 = 0x8400_0002;

/// Firmware function identifier: start a stopped core at a given entry
/// address with a given context argument (64-bit calling convention).
pub const PSCI_CPU_ON: u32 = 0xC400_0003;

/// Firmware function identifier: query the power state of a given core
/// (64-bit calling convention).
pub const PSCI_AFFINITY_INFO: u32 = 0xC400_0004;

/// Firmware function identifier: power the whole system off.
pub const PSCI_SYSTEM_OFF: u32 = 0x8400_0008;

/// The instruction used for firmware calls, chosen once at boot from the
/// hardware description and applied uniformly.
#[derive(Clone, Copy, Debug, PartialEq, Eq, Structural)]
pub enum Conduit {
    /// Hypervisor call.
    Hvc,
    /// Secure monitor call.
    Smc,
}

/// An error the firmware returns for a power-control call.
#[derive(Clone, Copy, Debug, PartialEq, Eq, Structural)]
pub enum PsciError {
    NotSupported,
    InvalidParameters,
    Denied,
    AlreadyOn,
    OnPending,
    InternalFailure,
    NotPresent,
    Disabled,
    InvalidAddress,
    /// A return code outside the ones the interface defines.
    Unknown(i64),
}

/// The meaning of a firmware return code: zero is success, the negative
/// codes are the errors the interface defines.
pub open spec fn spec_psci_result(code: i64) -> Result<(), PsciError> {
    if code == 0 {
        Ok(())
    } else if code == -1 {
        Err(PsciError::NotSupported)
    } else if code == -2 {
        Err(PsciError::InvalidParameters)
    } else if code == -3 {
        Err(PsciError::Denied)
    } else if code == -4 {
        Err(PsciError::AlreadyOn)
    } else if code == -5 {
        Err(PsciError::OnPending)
    } else if code == -6 {
        Err(PsciError::InternalFailure)
    } else if code == -7 {
        Err(PsciError::NotPresent)
    } else if code == -8 {
        Err(PsciError::Disabled)
    } else if code == -9 {
        Err(PsciError::InvalidAddress)
    } else {
        Err(PsciError::Unknown(code))
    }
}

/// Interprets the code a firmware power-control call returned. Firmware
/// failure is the one recoverable error in the core: it goes back to the
/// caller as a value, never a panic.
pub fn psci_return_to_result(code: i64) -> (result: Result<(), PsciError>)
    ensures
        result == spec_psci_result(code),
{
    if code == 0 {
        Ok(())
    } else if code == -1 {
        Err(PsciError::NotSupported)
    } else if code == -2 {
        Err(PsciError::InvalidParameters)
    } else if code == -3 {
        Err(PsciError::Denied)
    } else if code == -4 {
        Err(PsciError::AlreadyOn)
    } else if code == -5 {
        Err(PsciError::OnPending)
    } else if code == -6 {
        Err(PsciError::InternalFailure)
    } else if code == -7 {
        Err(PsciError::NotPresent)
    } else if code == -8 {
        Err(PsciError::Disabled)
    } else if code == -9 {
        Err(PsciError::InvalidAddress)
    } else {
        Err(PsciError::Unknown(code))
    }
}

/// The power state of a core, as the firmware's affinity query reports it.
#[derive(Clone, Copy, Debug, PartialEq, Eq, Structural)]
pub enum AffinityState {
    /// The core is on.
    On,
    /// The core is off; a start request is in order.
    Off,
    /// A start request was accepted and the core is coming up.
    OnPending,
}

/// The meaning of an affinity-query return code: the three states the
/// interface defines, or one of its errors.
pub open spec fn spec_affinity_state(code: i64) -> Result<AffinityState, PsciError> {
    if code == 0 {
        Ok(AffinityState::On)
    } else if code == 1 {
        Ok(AffinityState::Off)
    } else if code == 2 {
        Ok(AffinityState::OnPending)
    } else {
        match spec_psci_result(code) {
            Ok(_) => Err(PsciError::Unknown(code)),
            Err(e) => Err(e),
        }
    }
}

/// Interprets the code the firmware's affinity query returned. The caller
/// starts a core only on `Off`; the answer can be stale by the time the
/// start request is issued, which is why the start itself may still fail
/// with a recoverable error.
pub fn affinity_state_from_return(code: i64) -> (state: Result<AffinityState, PsciError>)
    ensures
        state == spec_affinity_state(code),
{
    if code == 0 {
        Ok(AffinityState::On)
    } else if code == 1 {
        Ok(AffinityState::Off)
    } else if code == 2 {
        Ok(AffinityState::OnPending)
    } else {
        match psci_return_to_result(code) {
            Ok(()) => Err(PsciError::Unknown(code)),
            Err(e) => Err(e),
        }
    }
}

/// The bytes of the hardware-description method property that selects the
/// secure-monitor-call conduit.
pub open spec fn smc_method_bytes() -> Seq<u8> {
    seq![115u8, 109u8, 99u8]
}

/// Decides the firmware calling convention from the method property of the
/// hardware description's firmware node: the value "smc" selects the secure
/// monitor call, anything else the hypervisor call.
pub fn smc_for_psci(method: &[u8]) -> (smc: bool)
    ensures
        smc == (method@ == smc_method_bytes()),
{
    let smc = method.len() == 3 && method[0] == 115 && method[1] == 109 && method[2] == 99;
    proof {
        if smc {
            assert(method@ =~= smc_method_bytes());
        } else if method@ == smc_method_bytes() {
            assert(method@.len() == 3);
            assert(method@[0] == 115 && method@[1] == 109 && method@[2] == 99);
        }
    }
    smc
}

/// A dedicated stack for one secondary core, allocated on first request
/// and never freed: once handed to the firmware it belongs to the started
/// core. The top of the stack holds two scratch slots through which the
/// entry point and its argument reach the core.
pub struct SecondaryStack {
    mem: Vec<u8>,
    entry_slot: u64,
    arg_slot: u64,
}

impl SecondaryStack {
    /// The stack memory below the scratch slots.
    pub closed spec fn spec_body(&self) -> Seq<u8> {
        self.mem@
    }

    /// The scratch slot holding the entry point.
    pub closed spec fn spec_entry_slot(&self) -> u64 {
        self.entry_slot
    }

    /// The scratch slot holding the entry point's argument.
    pub closed spec fn spec_arg_slot(&self) -> u64 {
        self.arg_slot
    }

    /// The stack has its full fixed size.
    pub open spec fn wf(&self) -> bool {
        self.spec_body().len() == SECONDARY_STACK_SIZE - SECONDARY_STACK_SCRATCH_SIZE
    }

    /// The entry point last written to the scratch slots.
    pub fn entry_slot(&self) -> (entry: u64)
        ensures
            entry == self.spec_entry_slot(),
    {
        self.entry_slot
    }

    /// The argument last written to the scratch slots.
    pub fn arg_slot(&self) -> (arg: u64)
        ensures
            arg == self.spec_arg_slot(),
    {
        self.arg_slot
    }

    fn new() -> (stack: Self)
        ensures
            stack.wf(),
            forall|i: int| 0 <= i < stack.spec_body().len() ==> stack.spec_body()[i] == 0,
            stack.spec_entry_slot() == 0,
            stack.spec_arg_slot() == 0,
    {
        let len = SECONDARY_STACK_SIZE - SECONDARY_STACK_SCRATCH_SIZE;
        let mut mem: Vec<u8> = Vec::new();
        let mut i: usize = 0;
        while i < len
            invariant
                i <= len,
                mem@.len() == i,
                forall|j: int| 0 <= j < i ==> mem@[j] == 0,
            decreases len - i,
        {
            mem.push(0);
            i = i + 1;
        }
        SecondaryStack { mem, entry_slot: 0, arg_slot: 0 }
    }
}

/// A request for the firmware to start a core, built after the target's
/// stack is ready. The caller must order the scratch-slot writes before
/// the call with a store barrier, then issue the named function through
/// the named conduit, handing the firmware the trampoline address and the
/// stack top.
pub struct StartCoreRequest {
    /// The instruction to issue the call with.
    pub conduit: Conduit,
    /// The firmware function to call.
    pub function_id: u32,
    /// The affinity id of the core to start.
    pub target_cpu: u64,
}

/// Owns the per-core secondary stacks and the conduit choice. The boot
/// core builds one of these once and keeps it for the life of the process;
/// stacks are never reclaimed, even for a core that later stops.
pub struct SecondaryBringup {
    conduit: Conduit,
    stacks: BTreeMap<u64, SecondaryStack>,
}

/// How one `start_core_with_stack` call changes the bring-up state: the
/// target core's stack exists afterwards — freshly zero-filled if the id
/// had none, the identical stack body untouched if it had — and its scratch
/// slots hold the entry point and argument. No other core's stack changes.
pub open spec fn start_transition(
    pre: SecondaryBringup,
    post: SecondaryBringup,
    mpidr: u64,
    entry: u64,
    arg: u64,
) -> bool {
    &&& post.spec_conduit() == pre.spec_conduit()
    &&& post.stacks_map().dom() == pre.stacks_map().dom().insert(mpidr)
    &&& forall|m: u64|
        m != mpidr && pre.stacks_map().dom().contains(m) ==> post.stacks_map()[m]
            == pre.stacks_map()[m]
    &&& post.stacks_map()[mpidr].wf()
    &&& post.stacks_map()[mpidr].spec_entry_slot() == entry
    &&& post.stacks_map()[mpidr].spec_arg_slot() == arg
    &&& pre.stacks_map().dom().contains(mpidr) ==> post.stacks_map()[mpidr].spec_body()
        == pre.stacks_map()[mpidr].spec_body()
    &&& !pre.stacks_map().dom().contains(mpidr) ==> forall|i: int|
        0 <= i < post.stacks_map()[mpidr].spec_body().len()
            ==> post.stacks_map()[mpidr].spec_body()[i] == 0
}

impl SecondaryBringup {
    /// The conduit every firmware call uses.
    pub closed spec fn spec_conduit(&self) -> Conduit {
        self.conduit
    }

    /// The stacks allocated so far, by the affinity id they belong to.
    pub closed spec fn stacks_map(&self) -> Map<u64, SecondaryStack> {
        self.stacks@
    }

    /// Every allocated stack has its full fixed size.
    pub open spec fn wf(&self) -> bool {
        forall|m: u64| #[trigger]
            self.stacks_map().dom().contains(m) ==> self.stacks_map()[m].wf()
    }

    /// Creates the bring-up state with no stacks allocated. The conduit is
    /// decided once, from the hardware description (`smc_for_psci`).
    pub fn new(conduit: Conduit) -> (bringup: Self)
        ensures
            bringup.wf(),
            bringup.spec_conduit() == conduit,
            bringup.stacks_map() == Map::<u64, SecondaryStack>::empty(),
    {
        SecondaryBringup { conduit, stacks: BTreeMap::new() }
    }

    /// The number of stacks allocated so far.
    pub fn stack_count(&self) -> (n: usize)
        ensures
            n == self.stacks_map().dom().len(),
    {
        self.stacks.len()
    }

    /// The stack allocated for the core with the given affinity id, if one
    /// has been.
    pub fn get_secondary_stack(&self, mpidr: u64) -> (stack: Option<&SecondaryStack>)
        ensures
            match stack {
                Some(s) => self.stacks_map().dom().contains(mpidr) && *s
                    == self.stacks_map()[mpidr],
                None => !self.stacks_map().dom().contains(mpidr),
            },
    {
        self.stacks.get(&mpidr)
    }

    /// Prepares the start of the core with the given affinity id: looks its
    /// dedicated stack up or allocates it (repeated calls for one id reuse
    /// the same stack), writes the entry point and argument into the
    /// top-of-stack scratch slots, and returns the firmware request to
    /// issue. The request only asks; whether the core is running afterwards
    /// is the firmware's answer, fed back through `psci_return_to_result`.
    pub fn start_core_with_stack(&mut self, mpidr: u64, entry: u64, arg: u64) -> (request:
        StartCoreRequest)
        requires
            old(self).wf(),
        ensures
            final(self).wf(),
            start_transition(*old(self), *final(self), mpidr, entry, arg),
            request.conduit == old(self).spec_conduit(),
            request.function_id == PSCI_CPU_ON,
            request.target_cpu == mpidr,
    {
        let mut stack = match self.stacks.remove(&mpidr) {
            Some(s) => s,
            None => SecondaryStack::new(),
        };
        stack.entry_slot = entry;
        stack.arg_slot = arg;
        self.stacks.insert(mpidr, stack);
        proof {
            assert(self.stacks_map().dom() =~= old(self).stacks_map().dom().insert(mpidr));
        }
        StartCoreRequest { conduit: self.conduit, function_id: PSCI_CPU_ON, target_cpu: mpidr }
    }
}

/// Stack idempotence: a second start request for the same affinity id uses
/// the identical stack the first call allocated — the stack body carries
/// over unchanged; only the scratch slots are rewritten — and allocates
/// nothing new.
pub proof fn lemma_stack_idempotent(
    s0: SecondaryBringup,
    s1: SecondaryBringup,
    s2: SecondaryBringup,
    mpidr: u64,
    entry1: u64,
    arg1: u64,
    entry2: u64,
    arg2: u64,
)
    requires
        start_transition(s0, s1, mpidr, entry1, arg1),
        start_transition(s1, s2, mpidr, entry2, arg2),
    ensures
        s2.stacks_map().dom() == s1.stacks_map().dom(),
        s2.stacks_map()[mpidr].spec_body() == s1.stacks_map()[mpidr].spec_body(),
        s2.stacks_map()[mpidr].spec_entry_slot() == entry2,
        s2.stacks_map()[mpidr].spec_arg_slot() == arg2,
{
    assert(s2.stacks_map().dom() =~= s1.stacks_map().dom());
}

} // verus!
