//! Architecture-specific hypervisor backends.
//!
//! The x86-64 backend is the active one on this platform; the aarch64 and
//! riscv64 backends are placeholders behind the same interface. Processor
//! primitives (feature queries, model-specific registers, the vendor
//! enable instructions) are collaborators outside this layer: the platform
//! layer reads them once into a `CpuInfo` snapshot, and every decision
//! taken on the snapshot is verified here.

pub mod aarch64;
pub mod riscv64;
pub mod x86_64;

pub use x86_64::{ArchVcpuData, ArchVmData};

use vstd::prelude::*;
use crate::{HypervisorCaps, Result};
use crate::memory::FrameAllocator;

verus! {

/// Snapshot of the processor feature and register values the backends
/// decide on, plus the outcome of the vendor enable instruction, which
/// only the platform layer can issue.
#[derive(Debug, Clone, Copy, PartialEq, Eq, Structural)]
pub struct CpuInfo {
    /// Standard feature flags (leaf 1, ECX).
    pub cpuid_1_ecx: u32,
    /// Highest extended query leaf.
    pub cpuid_ext_max_leaf: u32,
    /// Extended feature flags (extended leaf 1, ECX).
    pub cpuid_ext1_ecx: u32,
    /// Feature control register (locks VMX enablement).
    pub msr_feature_control: u64,
    /// VM control register (can disable SVM).
    pub msr_vm_cr: u64,
    /// Basic VMX capability register (holds the VMCS revision).
    pub msr_vmx_basic: u64,
    /// Whether the vendor enable instruction succeeded when issued.
    pub enable_ok: bool,
}

/// Detect hardware virtualization capabilities.
pub fn detect_capabilities(cpu: &CpuInfo) -> (r: Result<HypervisorCaps>)
    ensures
        r == x86_64::spec_detect_capabilities(*cpu),
{
    x86_64::detect_capabilities(cpu)
}

/// Initialize the architecture-specific hypervisor backend.
pub fn init(caps: &HypervisorCaps, cpu: &CpuInfo, alloc: &mut FrameAllocator) -> (r: Result<()>)
    requires
        old(alloc).wf(),
    ensures
        final(alloc).wf(),
        r == x86_64::spec_init_result(*cpu, old(alloc).spec_remaining()),
{
    let _ = caps;
    x86_64::init(cpu, alloc)
}

} // verus!
