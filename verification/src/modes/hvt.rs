//! Hardware virtualized tender mode: a minimal execution environment for
//! single-VCPU unikernel guests that communicate through a small fixed
//! set of synchronous hypercalls; VM and VCPU lifecycle delegates to the
//! registry.

use vstd::prelude::*;
use crate::{HypervisorError, IdCounter};
use crate::arch::CpuInfo;
use crate::memory::FrameAllocator;
use crate::mode::{HypervisorMode, HypervisorModeImpl, ModeCapabilities, ModeConfig};
use crate::registry::{
    create_vcpu_post, create_vm_post, destroy_vm_post, get_vcpu_regs_post, run_vcpu_post,
    set_vcpu_regs_post, transition_vm_post, VmRegistry,
};
use crate::vm::{MemoryRegion, VmConfig, VmId, VmState};
use crate::vcpu::{VcpuConfig, VcpuExit, VcpuId, VcpuRegs};

verus! {

/// The most VMs this mode tracks at once: many lightweight unikernels.
pub const HVT_MAX_VMS: usize = 256;

/// Console output hypercall number.
pub const HVT_HYPERCALL_PUTS: u64 = 0;
/// Block device information hypercall number.
pub const HVT_HYPERCALL_BLKINFO: u64 = 1;
/// Block read hypercall number.
pub const HVT_HYPERCALL_BLKREAD: u64 = 2;
/// Block write hypercall number.
pub const HVT_HYPERCALL_BLKWRITE: u64 = 3;
/// Network information hypercall number.
pub const HVT_HYPERCALL_NETINFO: u64 = 4;
/// Network read hypercall number.
pub const HVT_HYPERCALL_NETREAD: u64 = 5;
/// Network write hypercall number.
pub const HVT_HYPERCALL_NETWRITE: u64 = 6;
/// Guest exit hypercall number.
pub const HVT_HYPERCALL_EXIT: u64 = 7;

/// Tender mode instance: loads unikernels and mediates their I/O.
pub struct HvtTender {
    registry: VmRegistry,
}

impl HvtTender {
    /// The registry of VMs and VCPUs this instance owns.
    pub closed spec fn spec_registry(self) -> VmRegistry {
        self.registry
    }

    /// Initialize this mode: minimal hardware virtualization, just enough
    /// to provide isolation.
    pub fn init(config: &ModeConfig, cpu: &CpuInfo) -> (r: crate::Result<Self>)
        ensures
            r matches Ok(m) && m.wf() && m.spec_registry().spec_vms().len() == 0
                && m.spec_registry().spec_vcpus().len() == 0,
    {
        let _ = config;
        let _ = cpu;
        Ok(HvtTender { registry: VmRegistry::new() })
    }

    /// Get the mode type.
    pub fn mode(&self) -> (r: HypervisorMode)
        ensures
            r == HypervisorMode::Hvt,
    {
        HypervisorMode::Hvt
    }

    /// Create a new VM under this mode's capacity cap.
    pub fn create_vm(
        &mut self,
        config: VmConfig,
        cpu: &CpuInfo,
        vm_ids: &mut IdCounter,
        alloc: &mut FrameAllocator,
    ) -> (r: crate::Result<VmId>)
        requires
            old(self).wf(),
            old(alloc).wf(),
            old(vm_ids).spec_next() < u64::MAX,
        ensures
            final(self).wf(),
            final(alloc).wf(),
            old(self).spec_registry().spec_vms().len() >= HVT_MAX_VMS ==> r
                == crate::Result::<VmId>::Err(HypervisorError::MaxVmsReached) && *final(self)
                == *old(self),
            old(self).spec_registry().spec_vms().len() < HVT_MAX_VMS ==> create_vm_post(
                old(self).spec_registry(),
                final(self).spec_registry(),
                config,
                *cpu,
                old(alloc).spec_remaining(),
                old(vm_ids).spec_next(),
                r,
            ),
    {
        if self.registry.vm_count() >= HVT_MAX_VMS {
            return Err(HypervisorError::MaxVmsReached);
        }
        self.registry.create_vm(config, cpu, vm_ids, alloc)
    }

    /// Destroy a VM.
    pub fn destroy_vm(&mut self, vm_id: VmId) -> (r: crate::Result<()>)
        requires
            old(self).wf(),
        ensures
            final(self).wf(),
            destroy_vm_post(old(self).spec_registry(), final(self).spec_registry(), vm_id, r),
    {
        self.registry.destroy_vm(vm_id)
    }

    /// Start a VM: the stopped-to-running transition.
    pub fn start_vm(&mut self, vm_id: VmId) -> (r: crate::Result<()>)
        requires
            old(self).wf(),
        ensures
            final(self).wf(),
            transition_vm_post(
                old(self).spec_registry(),
                final(self).spec_registry(),
                vm_id,
                VmState::Running,
                r,
            ),
    {
        self.registry.transition_vm(vm_id, VmState::Running)
    }

    /// Stop a VM: the running-to-stopped transition.
    pub fn stop_vm(&mut self, vm_id: VmId) -> (r: crate::Result<()>)
        requires
            old(self).wf(),
        ensures
            final(self).wf(),
            transition_vm_post(
                old(self).spec_registry(),
                final(self).spec_registry(),
                vm_id,
                VmState::Stopped,
                r,
            ),
    {
        self.registry.transition_vm(vm_id, VmState::Stopped)
    }

    /// Pause a VM.
    ///
    /// Tender guests do not support pausing and resuming: they run to
    /// their exit hypercall.
    pub fn pause_vm(&mut self, vm_id: VmId) -> (r: crate::Result<()>)
        requires
            old(self).wf(),
        ensures
            final(self).wf(),
            r == crate::Result::<()>::Err(HypervisorError::NotSupported),
            *final(self) == *old(self),
    {
        let _ = vm_id;
        Err(HypervisorError::NotSupported)
    }

    /// Resume a VM.
    ///
    /// Tender guests do not support pausing and resuming.
    pub fn resume_vm(&mut self, vm_id: VmId) -> (r: crate::Result<()>)
        requires
            old(self).wf(),
        ensures
            final(self).wf(),
            r == crate::Result::<()>::Err(HypervisorError::NotSupported),
            *final(self) == *old(self),
    {
        let _ = vm_id;
        Err(HypervisorError::NotSupported)
    }

    /// Create a VCPU for a VM, under the VM's configured cap.
    pub fn create_vcpu(
        &mut self,
        vm_id: VmId,
        config: VcpuConfig,
        cpu: &CpuInfo,
        vcpu_ids: &mut IdCounter,
        alloc: &mut FrameAllocator,
    ) -> (r: crate::Result<VcpuId>)
        requires
            old(self).wf(),
            old(alloc).wf(),
            old(vcpu_ids).spec_next() < u64::MAX,
        ensures
            final(self).wf(),
            final(alloc).wf(),
            create_vcpu_post(
                old(self).spec_registry(),
                final(self).spec_registry(),
                vm_id,
                *cpu,
                old(alloc).spec_remaining(),
                old(vcpu_ids).spec_next(),
                r,
            ),
    {
        self.registry.create_vcpu(vm_id, config, cpu, vcpu_ids, alloc)
    }

    /// Run a VCPU until the next VM exit.
    pub fn run_vcpu(&mut self, vm_id: VmId, vcpu_id: VcpuId) -> (r: crate::Result<VcpuExit>)
        requires
            old(self).wf(),
        ensures
            final(self).wf(),
            run_vcpu_post(
                old(self).spec_registry(),
                final(self).spec_registry(),
                vm_id,
                vcpu_id,
                r,
            ),
    {
        self.registry.run_vcpu(vm_id, vcpu_id)
    }

    /// Get a VCPU's register snapshot.
    pub fn get_vcpu_regs(&self, vm_id: VmId, vcpu_id: VcpuId) -> (r: crate::Result<VcpuRegs>)
        ensures
            get_vcpu_regs_post(self.spec_registry(), vm_id, vcpu_id, r),
    {
        self.registry.get_vcpu_regs(vm_id, vcpu_id)
    }

    /// Set a VCPU's register snapshot.
    pub fn set_vcpu_regs(&mut self, vm_id: VmId, vcpu_id: VcpuId, regs: &VcpuRegs) -> (r:
        crate::Result<()>)
        requires
            old(self).wf(),
        ensures
            final(self).wf(),
            set_vcpu_regs_post(
                old(self).spec_registry(),
                final(self).spec_registry(),
                vm_id,
                vcpu_id,
                *regs,
                r,
            ),
    {
        self.registry.set_vcpu_regs(vm_id, vcpu_id, regs)
    }

    /// Map memory for a VM.
    ///
    /// Tender guests use one flat address space; no page-table management
    /// is needed at this layer.
    pub fn map_memory(&mut self, vm_id: VmId, region: MemoryRegion, alloc: &mut FrameAllocator)
        -> (r: crate::Result<()>)
        requires
            old(self).wf(),
            old(alloc).wf(),
        ensures
            final(self).wf(),
            final(alloc).wf(),
            r is Ok,
            *final(self) == *old(self),
            *final(alloc) == *old(alloc),
    {
        let _ = vm_id;
        let _ = region;
        let _ = alloc;
        Ok(())
    }

    /// Unmap memory for a VM.
    ///
    /// Tender guests use one flat address space.
    pub fn unmap_memory(&mut self, vm_id: VmId, gpa: u64, size: usize) -> (r: crate::Result<()>)
        requires
            old(self).wf(),
        ensures
            final(self).wf(),
            r is Ok,
            *final(self) == *old(self),
    {
        let _ = vm_id;
        let _ = gpa;
        let _ = size;
        Ok(())
    }

    /// Inject an interrupt into a VCPU.
    ///
    /// Tender guests take no injected interrupts: I/O goes through their
    /// synchronous hypercalls.
    pub fn inject_interrupt(&mut self, vm_id: VmId, vcpu_id: VcpuId, vector: u32) -> (r:
        crate::Result<()>)
        requires
            old(self).wf(),
        ensures
            final(self).wf(),
            r == crate::Result::<()>::Err(HypervisorError::NotSupported),
            *final(self) == *old(self),
    {
        let _ = vm_id;
        let _ = vcpu_id;
        let _ = vector;
        Err(HypervisorError::NotSupported)
    }

    /// Get mode-specific capabilities.
    pub fn capabilities(&self) -> (r: ModeCapabilities)
        ensures
            r == (ModeCapabilities {
                mode: HypervisorMode::Hvt,
                max_vms: 256,
                max_vcpus_per_vm: 1,
                nested_virt: false,
                device_passthrough: false,
                boot_time_ms: 5,
            }),
    {
        ModeCapabilities {
            mode: HypervisorMode::Hvt,
            max_vms: 256,
            max_vcpus_per_vm: 1,
            nested_virt: false,
            device_passthrough: false,
            boot_time_ms: 5,
        }
    }
}

impl HypervisorModeImpl for HvtTender {
    open spec fn wf(&self) -> bool {
        self.spec_registry().wf()
    }

    fn init(config: &ModeConfig, cpu: &CpuInfo) -> crate::Result<Self> {
        HvtTender::init(config, cpu)
    }

    fn mode(&self) -> HypervisorMode {
        HvtTender::mode(self)
    }

    fn create_vm(
        &mut self,
        config: VmConfig,
        cpu: &CpuInfo,
        vm_ids: &mut IdCounter,
        alloc: &mut FrameAllocator,
    ) -> crate::Result<VmId> {
        HvtTender::create_vm(self, config, cpu, vm_ids, alloc)
    }

    fn destroy_vm(&mut self, vm_id: VmId) -> crate::Result<()> {
        HvtTender::destroy_vm(self, vm_id)
    }

    fn start_vm(&mut self, vm_id: VmId) -> crate::Result<()> {
        HvtTender::start_vm(self, vm_id)
    }

    fn stop_vm(&mut self, vm_id: VmId) -> crate::Result<()> {
        HvtTender::stop_vm(self, vm_id)
    }

    fn pause_vm(&mut self, vm_id: VmId) -> crate::Result<()> {
        HvtTender::pause_vm(self, vm_id)
    }

    fn resume_vm(&mut self, vm_id: VmId) -> crate::Result<()> {
        HvtTender::resume_vm(self, vm_id)
    }

    fn create_vcpu(
        &mut self,
        vm_id: VmId,
        config: VcpuConfig,
        cpu: &CpuInfo,
        vcpu_ids: &mut IdCounter,
        alloc: &mut FrameAllocator,
    ) -> crate::Result<VcpuId> {
        HvtTender::create_vcpu(self, vm_id, config, cpu, vcpu_ids, alloc)
    }

    fn run_vcpu(&mut self, vm_id: VmId, vcpu_id: VcpuId) -> crate::Result<VcpuExit> {
        HvtTender::run_vcpu(self, vm_id, vcpu_id)
    }

    fn get_vcpu_regs(&self, vm_id: VmId, vcpu_id: VcpuId) -> crate::Result<VcpuRegs> {
        HvtTender::get_vcpu_regs(self, vm_id, vcpu_id)
    }

    fn set_vcpu_regs(&mut self, vm_id: VmId, vcpu_id: VcpuId, regs: &VcpuRegs) -> crate::Result<
        (),
    > {
        HvtTender::set_vcpu_regs(self, vm_id, vcpu_id, regs)
    }

    fn map_memory(
        &mut self,
        vm_id: VmId,
        region: MemoryRegion,
        alloc: &mut FrameAllocator,
    ) -> crate::Result<()> {
        HvtTender::map_memory(self, vm_id, region, alloc)
    }

    fn unmap_memory(&mut self, vm_id: VmId, gpa: u64, size: usize) -> crate::Result<()> {
        HvtTender::unmap_memory(self, vm_id, gpa, size)
    }

    fn inject_interrupt(&mut self, vm_id: VmId, vcpu_id: VcpuId, vector: u32) -> crate::Result<
        (),
    > {
        HvtTender::inject_interrupt(self, vm_id, vcpu_id, vector)
    }

    fn capabilities(&self) -> ModeCapabilities {
        HvtTender::capabilities(self)
    }
}

} // verus!
