//! Hypervisor mode abstraction: the common interface that all hypervisor
//! modes implement, and their configurations and capability reports.

use vstd::prelude::*;
use vstd::string::StrSliceExecFns;
use crate::Result;
use crate::vm::{MemoryRegion, VmConfig, VmId};
use crate::vcpu::{VcpuConfig, VcpuExit, VcpuId, VcpuRegs};

verus! {

/// Hypervisor mode selection.
#[derive(Debug, Clone, Copy, PartialEq, Eq, Structural)]
pub enum HypervisorMode {
    /// Full hardware virtualization for unmodified guests.
    Type1,
    /// Paravirtualization: the guest cooperates through shared transport
    /// buffers.
    VirtIO,
    /// Hardware virtualized tender: a minimal execution environment for
    /// unikernels.
    Hvt,
}

/// The name of each mode.
pub open spec fn spec_mode_name(mode: HypervisorMode) -> Seq<char> {
    match mode {
        HypervisorMode::Type1 => "type1"@,
        HypervisorMode::VirtIO => "virtio"@,
        HypervisorMode::Hvt => "hvt"@,
    }
}

/// The mode a name selects; unrecognized names select none.
pub open spec fn spec_mode_from_str(s: Seq<char>) -> Option<HypervisorMode> {
    if s == "type1"@ {
        Some(HypervisorMode::Type1)
    } else if s == "virtio"@ {
        Some(HypervisorMode::VirtIO)
    } else if s == "hvt"@ {
        Some(HypervisorMode::Hvt)
    } else {
        None
    }
}

/// Whether two string slices hold the same characters.
fn str_view_eq(a: &str, b: &str) -> (r: bool)
    ensures
        r == (a@ == b@),
{
    let la = a.unicode_len();
    let lb = b.unicode_len();
    if la != lb {
        return false;
    }
    let mut i: usize = 0;
    while i < la
        invariant
            la == a@.len(),
            lb == b@.len(),
            la == lb,
            i <= la,
            forall|j: int| 0 <= j < i ==> a@[j] == b@[j],
        decreases la - i,
    {
        if a.get_char(i) != b.get_char(i) {
            return false;
        }
        i = i + 1;
    }
    proof {
        assert(a@ =~= b@);
    }
    true
}

impl HypervisorMode {
    /// Get the mode name.
    pub fn name(&self) -> (r: &'static str)
        ensures
            r@ == spec_mode_name(*self),
    {
        match self {
            HypervisorMode::Type1 => "type1",
            HypervisorMode::VirtIO => "virtio",
            HypervisorMode::Hvt => "hvt",
        }
    }

    /// Parse a mode from its name; unrecognized names are rejected.
    pub fn from_str(s: &str) -> (r: Option<Self>)
        ensures
            r == spec_mode_from_str(s@),
    {
        if str_view_eq(s, "type1") {
            Some(HypervisorMode::Type1)
        } else if str_view_eq(s, "virtio") {
            Some(HypervisorMode::VirtIO)
        } else if str_view_eq(s, "hvt") {
            Some(HypervisorMode::Hvt)
        } else {
            None
        }
    }
}

/// Mode-specific configuration.
#[derive(Debug, Clone)]
pub enum ModeConfig {
    /// Full hardware virtualization configuration.
    Type1(Type1Config),
    /// Paravirtualization configuration.
    VirtIO(VirtIOConfig),
    /// Tender configuration.
    Hvt(HvtConfig),
}

/// Full hardware virtualization configuration.
#[derive(Debug, Clone, Copy, PartialEq, Eq, Structural)]
pub struct Type1Config {
    /// Enable nested virtualization.
    pub nested_virt: bool,
    /// Use large pages where possible.
    pub large_pages: bool,
}

impl Default for Type1Config {
    /// No nested virtualization; large pages on.
    fn default() -> (r: Self)
        ensures
            !r.nested_virt,
            r.large_pages,
    {
        Type1Config { nested_virt: false, large_pages: true }
    }
}

/// Paravirtualization configuration.
#[derive(Debug, Clone, Copy, PartialEq, Eq, Structural)]
pub struct VirtIOConfig {
    /// Transport type.
    pub transport: VirtIOTransport,
}

/// Paravirtual transport type.
#[derive(Debug, Clone, Copy, PartialEq, Eq, Structural)]
pub enum VirtIOTransport {
    /// Over the PCI bus.
    Pci,
    /// Memory mapped.
    Mmio,
}

impl Default for VirtIOConfig {
    /// Memory-mapped transport.
    fn default() -> (r: Self)
        ensures
            r.transport == VirtIOTransport::Mmio,
    {
        VirtIOConfig { transport: VirtIOTransport::Mmio }
    }
}

/// Tender configuration.
#[derive(Debug, Clone)]
pub struct HvtConfig {
    /// Path to the unikernel binary, zero-padded, if any.
    pub unikernel_path: Option<[u8; 256]>,
    /// Use a manifest for resource declaration.
    pub use_manifest: bool,
}

impl Default for HvtConfig {
    /// No unikernel path; manifest on.
    fn default() -> (r: Self)
        ensures
            r.unikernel_path is None,
            r.use_manifest,
    {
        HvtConfig { unikernel_path: None, use_manifest: true }
    }
}

/// Mode-specific capability report.
#[derive(Debug, Clone, Copy, PartialEq, Eq, Structural)]
pub struct ModeCapabilities {
    /// Mode type.
    pub mode: HypervisorMode,
    /// Maximum VMs supported.
    pub max_vms: usize,
    /// Maximum VCPUs per VM.
    pub max_vcpus_per_vm: usize,
    /// Supports nested virtualization.
    pub nested_virt: bool,
    /// Supports device passthrough.
    pub device_passthrough: bool,
    /// Typical boot time in milliseconds.
    pub boot_time_ms: u64,
}

/// Common interface that all hypervisor modes implement: the lifecycle
/// capability set of the dispatcher.
///
/// Each mode carries its own exact contracts on its inherent methods and
/// on the dispatcher; the trait fixes the shape, the soundness invariant,
/// and its preservation.
pub trait HypervisorModeImpl: Sized {
    /// The mode instance's invariant: its tracked state is sound.
    spec fn wf(&self) -> bool;

    /// Initialize the hypervisor mode, deciding on the processor snapshot
    /// the platform layer read.
    fn init(config: &ModeConfig, cpu: &crate::arch::CpuInfo) -> (r: Result<Self>)
        ensures
            r matches Ok(m) ==> m.wf(),
    ;

    /// Get the mode type.
    fn mode(&self) -> HypervisorMode;

    /// Create a new VM in this mode.
    fn create_vm(
        &mut self,
        config: VmConfig,
        cpu: &crate::arch::CpuInfo,
        vm_ids: &mut crate::IdCounter,
        alloc: &mut crate::memory::FrameAllocator,
    ) -> (r: Result<VmId>)
        requires
            old(self).wf(),
            old(alloc).wf(),
            old(vm_ids).spec_next() < u64::MAX,
        ensures
            final(self).wf(),
            final(alloc).wf(),
    ;

    /// Destroy a VM.
    fn destroy_vm(&mut self, vm_id: VmId) -> (r: Result<()>)
        requires
            old(self).wf(),
        ensures
            final(self).wf(),
    ;

    /// Start a VM.
    fn start_vm(&mut self, vm_id: VmId) -> (r: Result<()>)
        requires
            old(self).wf(),
        ensures
            final(self).wf(),
    ;

    /// Stop a VM.
    fn stop_vm(&mut self, vm_id: VmId) -> (r: Result<()>)
        requires
            old(self).wf(),
        ensures
            final(self).wf(),
    ;

    /// Pause a VM.
    fn pause_vm(&mut self, vm_id: VmId) -> (r: Result<()>)
        requires
            old(self).wf(),
        ensures
            final(self).wf(),
    ;

    /// Resume a VM.
    fn resume_vm(&mut self, vm_id: VmId) -> (r: Result<()>)
        requires
            old(self).wf(),
        ensures
            final(self).wf(),
    ;

    /// Create a VCPU for a VM.
    fn create_vcpu(
        &mut self,
        vm_id: VmId,
        config: VcpuConfig,
        cpu: &crate::arch::CpuInfo,
        vcpu_ids: &mut crate::IdCounter,
        alloc: &mut crate::memory::FrameAllocator,
    ) -> (r: Result<VcpuId>)
        requires
            old(self).wf(),
            old(alloc).wf(),
            old(vcpu_ids).spec_next() < u64::MAX,
        ensures
            final(self).wf(),
            final(alloc).wf(),
    ;

    /// Run a VCPU until the next VM exit.
    fn run_vcpu(&mut self, vm_id: VmId, vcpu_id: VcpuId) -> (r: Result<VcpuExit>)
        requires
            old(self).wf(),
        ensures
            final(self).wf(),
    ;

    /// Get VCPU register state.
    fn get_vcpu_regs(&self, vm_id: VmId, vcpu_id: VcpuId) -> Result<VcpuRegs>;

    /// Set VCPU register state.
    fn set_vcpu_regs(&mut self, vm_id: VmId, vcpu_id: VcpuId, regs: &VcpuRegs) -> (r: Result<()>)
        requires
            old(self).wf(),
        ensures
            final(self).wf(),
    ;

    /// Map memory for a VM.
    fn map_memory(
        &mut self,
        vm_id: VmId,
        region: MemoryRegion,
        alloc: &mut crate::memory::FrameAllocator,
    ) -> (r: Result<()>)
        requires
            old(self).wf(),
            old(alloc).wf(),
        ensures
            final(self).wf(),
            final(alloc).wf(),
    ;

    /// Unmap memory for a VM.
    fn unmap_memory(&mut self, vm_id: VmId, gpa: u64, size: usize) -> (r: Result<()>)
        requires
            old(self).wf(),
        ensures
            final(self).wf(),
    ;

    /// Inject an interrupt into a VCPU.
    fn inject_interrupt(&mut self, vm_id: VmId, vcpu_id: VcpuId, vector: u32) -> (r: Result<()>)
        requires
            old(self).wf(),
        ensures
            final(self).wf(),
    ;

    /// Get mode-specific capabilities.
    fn capabilities(&self) -> ModeCapabilities;
}

} // verus!
