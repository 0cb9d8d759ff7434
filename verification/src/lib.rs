//! Control plane of a type-1 hypervisor: VM and VCPU lifecycle state
//! machines, a second-level (guest-physical to host-physical) address
//! translation engine, and the per-VCPU execution control block abstraction.
//!
//! Hardware primitives (CPUID queries, model-specific registers, the vendor
//! enter-guest instructions) are collaborators outside this layer: their
//! readings and outcomes enter as plain values, and every decision taken on
//! them is verified here.

use vstd::prelude::*;

pub mod arch;
pub mod devices;
pub mod memory;
pub mod mode;
pub mod modes;
pub mod registry;
pub mod translation;
pub mod vcpu;
pub mod vm;

pub use translation::{NestedPageTable, TableFormat};

pub use memory::{Frame, FrameAllocator, Gpa, GuestMemory, Hpa, PAGE_SIZE, PHYS_LIMIT};

verus! {

/// Hypervisor error kinds.
#[derive(Debug, Clone, Copy, PartialEq, Eq, Structural)]
pub enum HypervisorError {
    /// Hardware virtualization not supported, or the operation is
    /// inapplicable to the current mode.
    NotSupported,
    /// Hypervisor already initialized.
    AlreadyInitialized,
    /// Invalid VM ID.
    InvalidVmId,
    /// Invalid VCPU ID.
    InvalidVcpuId,
    /// Maximum VMs reached.
    MaxVmsReached,
    /// Maximum VCPUs reached.
    MaxVcpusReached,
    /// Memory allocation failed.
    MemoryAllocationFailed,
    /// Frame allocator exhausted.
    OutOfMemory,
    /// Invalid memory region (overlap, or unmap without an exact match).
    InvalidMemoryRegion,
    /// A hardware setup step signaled failure.
    InitializationFailed,
    /// A typed field access failed.
    InvalidParameter,
    /// Architecture-specific error (illegal state-machine transitions and
    /// unclassified backend faults).
    ArchError(u64),
}

pub type Result<T> = core::result::Result<T, HypervisorError>;

/// Supported hypervisor architectures.
#[derive(Debug, Clone, Copy, PartialEq, Eq, Structural)]
pub enum HypervisorArch {
    X86_64,
    Aarch64,
    Riscv64,
}

/// Flags indicating which virtualization modes are supported.
///
/// A small bitset over the three mode bits below.
#[derive(Debug, Clone, Copy, PartialEq, Eq, Structural)]
pub struct ModeSupportFlags {
    pub bits: u8,
}

/// Bit for type 1 hypervisor mode.
pub const MODE_SUPPORT_TYPE1: u8 = 1;
/// Bit for VirtIO mode.
pub const MODE_SUPPORT_VIRTIO: u8 = 2;
/// Bit for HVT mode.
pub const MODE_SUPPORT_HVT: u8 = 4;

impl ModeSupportFlags {
    /// The value of the bitset.
    pub open spec fn spec_bits(self) -> u8 {
        self.bits
    }

    /// A well-formed bitset uses only the three mode bits.
    pub open spec fn wf(self) -> bool {
        self.bits & 7 == self.bits
    }

    /// The empty bitset: no mode supported.
    pub fn empty() -> (r: Self)
        ensures
            r.spec_bits() == 0,
            r.wf(),
    {
        proof {
            assert(0u8 & 7 == 0u8) by (bit_vector);
        }
        ModeSupportFlags { bits: 0 }
    }

    /// The full bitset: all three modes supported.
    pub fn all() -> (r: Self)
        ensures
            r.spec_bits() == 7,
            r.wf(),
    {
        proof {
            assert(7u8 & 7 == 7u8) by (bit_vector);
        }
        ModeSupportFlags { bits: 7 }
    }

    /// Builds a bitset from raw bits; bits outside the three mode bits are
    /// dropped.
    pub fn from_bits(bits: u8) -> (r: Self)
        ensures
            r.spec_bits() == bits & 7,
            r.wf(),
    {
        proof {
            assert((bits & 7) & 7 == bits & 7) by (bit_vector);
        }
        ModeSupportFlags { bits: bits & 7 }
    }

    /// The raw bits.
    pub fn bits(self) -> (r: u8)
        ensures
            r == self.spec_bits(),
    {
        self.bits
    }

    /// Whether every bit of `other` is set in `self`.
    pub fn contains(self, other: Self) -> (r: bool)
        ensures
            r == (self.spec_bits() & other.spec_bits() == other.spec_bits()),
    {
        self.bits & other.bits == other.bits
    }

    /// The union of the two bitsets.
    pub fn union(self, other: Self) -> (r: Self)
        ensures
            r.spec_bits() == self.spec_bits() | other.spec_bits(),
            self.wf() && other.wf() ==> r.wf(),
    {
        proof {
            let a = self.bits;
            let b = other.bits;
            assert(a & 7 == a && b & 7 == b ==> (a | b) & 7 == (a | b)) by (bit_vector);
        }
        ModeSupportFlags { bits: self.bits | other.bits }
    }
}

/// Hypervisor capability report, produced once at initialization.
#[derive(Debug, Clone, Copy, PartialEq, Eq, Structural)]
pub struct HypervisorCaps {
    /// Hardware virtualization support available.
    pub hw_virt_available: bool,
    /// Architecture type.
    pub arch: HypervisorArch,
    /// Maximum number of VMs supported.
    pub max_vms: usize,
    /// Maximum number of VCPUs per VM.
    pub max_vcpus_per_vm: usize,
    /// Nested virtualization support.
    pub nested_virt: bool,
    /// Supported modes.
    pub supported_modes: ModeSupportFlags,
}

/// Process-wide hypervisor lifecycle state.
///
/// The initialized flag is set exactly once by `init`; it is explicit state
/// (rather than a hidden global) so that it can be inspected and reset.
pub struct HypervisorState {
    initialized: bool,
}

impl HypervisorState {
    /// Whether `init` has completed successfully.
    pub closed spec fn spec_initialized(self) -> bool {
        self.initialized
    }

    /// Fresh state: not initialized.
    pub fn new() -> (r: Self)
        ensures
            !r.spec_initialized(),
    {
        HypervisorState { initialized: false }
    }
}

/// Monotonically increasing ID counter; IDs are never reused.
pub struct IdCounter {
    next: u64,
}

impl IdCounter {
    /// The next ID to be handed out.
    pub closed spec fn spec_next(self) -> u64 {
        self.next
    }

    /// A fresh counter starting at zero.
    pub fn new() -> (r: Self)
        ensures
            r.spec_next() == 0,
    {
        IdCounter { next: 0 }
    }

    /// The next ID to be handed out, without advancing.
    pub fn peek(&self) -> (r: u64)
        ensures
            r == self.spec_next(),
    {
        self.next
    }

    /// Hand out the next ID.
    pub fn allocate(&mut self) -> (r: u64)
        requires
            old(self).spec_next() < u64::MAX,
        ensures
            r == old(self).spec_next(),
            final(self).spec_next() == old(self).spec_next() + 1,
    {
        let r = self.next;
        self.next = self.next + 1;
        r
    }
}

/// Check if the hypervisor is initialized.
pub fn is_initialized(state: &HypervisorState) -> (r: bool)
    ensures
        r == state.spec_initialized(),
{
    state.initialized
}

/// What `init` returns for a given processor snapshot and frame budget,
/// once the initialized guard is passed.
pub open spec fn spec_init_outcome(cpu: arch::CpuInfo, frames: nat) -> Result<HypervisorCaps> {
    match arch::x86_64::spec_detect_capabilities(cpu) {
        Err(e) => Err(e),
        Ok(caps) => match arch::x86_64::spec_init_result(cpu, frames) {
            Err(e) => Err(e),
            Ok(_) => Ok(caps),
        },
    }
}

/// Initialize the hypervisor subsystem: detect hardware virtualization
/// capabilities and initialize the architecture backend.
///
/// Succeeds at most once per lifecycle state; a second call fails with
/// `AlreadyInitialized`. Any failure rolls the initialized flag back so a
/// later attempt stays possible.
pub fn init(state: &mut HypervisorState, cpu: &arch::CpuInfo, alloc: &mut FrameAllocator) -> (r:
    Result<HypervisorCaps>)
    requires
        old(alloc).wf(),
    ensures
        final(alloc).wf(),
        old(state).spec_initialized() ==> r == Result::<HypervisorCaps>::Err(
            HypervisorError::AlreadyInitialized,
        ) && *final(state) == *old(state) && *final(alloc) == *old(alloc),
        !old(state).spec_initialized() ==> r == spec_init_outcome(
            *cpu,
            old(alloc).spec_remaining(),
        ),
        final(state).spec_initialized() <==> (old(state).spec_initialized() || r is Ok),
{
    if state.initialized {
        return Err(HypervisorError::AlreadyInitialized);
    }
    state.initialized = true;
    let caps = match arch::detect_capabilities(cpu) {
        Ok(c) => c,
        Err(e) => {
            state.initialized = false;
            return Err(e);
        },
    };
    if !caps.hw_virt_available {
        state.initialized = false;
        return Err(HypervisorError::NotSupported);
    }
    match arch::init(&caps, cpu, alloc) {
        Ok(()) => {},
        Err(e) => {
            state.initialized = false;
            return Err(e);
        },
    }
    Ok(caps)
}

} // verus!
