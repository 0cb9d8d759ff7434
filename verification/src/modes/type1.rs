//! Full hardware virtualization mode: complete isolation for unmodified
//! guest operating systems, delegating every lifecycle operation to the
//! VM and VCPU registry.

use vstd::prelude::*;
use crate::{HypervisorError, IdCounter};
use crate::arch::CpuInfo;
use crate::arch::x86_64::spec_detect_virt_tech;
use crate::memory::FrameAllocator;
use crate::mode::{HypervisorMode, HypervisorModeImpl, ModeCapabilities, ModeConfig};
use crate::registry::{
    create_vcpu_post, create_vm_post, destroy_vm_post, get_vcpu_regs_post, inject_interrupt_post,
    map_memory_post, run_vcpu_post, set_vcpu_regs_post, transition_vm_post, unmap_memory_post,
    VmRegistry,
};
use crate::vm::{MemoryRegion, VmConfig, VmId, VmState};
use crate::vcpu::{VcpuConfig, VcpuExit, VcpuId, VcpuRegs};

verus! {

/// The most VMs this mode tracks at once.
pub const TYPE1_MAX_VMS: usize = 64;

/// Full hardware virtualization mode instance.
pub struct Type1Hypervisor {
    registry: VmRegistry,
}

impl Type1Hypervisor {
    /// The registry of VMs and VCPUs this instance owns.
    pub closed spec fn spec_registry(self) -> VmRegistry {
        self.registry
    }

    /// Initialize this mode: hardware virtualization must be available.
    pub fn init(config: &ModeConfig, cpu: &CpuInfo) -> (r: crate::Result<Self>)
        ensures
            (match spec_detect_virt_tech(*cpu) {
                Ok(_) => r matches Ok(m) && m.wf() && m.spec_registry().spec_vms().len() == 0
                    && m.spec_registry().spec_vcpus().len() == 0,
                Err(e) => r == crate::Result::<Self>::Err(e),
            }),
    {
        let _ = config;
        match crate::arch::detect_capabilities(cpu) {
            Ok(_) => {},
            Err(e) => {
                return Err(e);
            },
        }
        Ok(Type1Hypervisor { registry: VmRegistry::new() })
    }

    /// Get the mode type.
    pub fn mode(&self) -> (r: HypervisorMode)
        ensures
            r == HypervisorMode::Type1,
    {
        HypervisorMode::Type1
    }

    /// Create a new VM under this mode's capacity cap.
    pub fn create_vm(
        &mut self,
        config: VmConfig,
        cpu: &CpuInfo,
        vm_ids: &mut IdCounter,
        alloc: &mut FrameAllocator,
    ) -> (r: crate::Result<VmId>)
        requires
            old(self).wf(),
            old(alloc).wf(),
            old(vm_ids).spec_next() < u64::MAX,
        ensures
            final(self).wf(),
            final(alloc).wf(),
            old(self).spec_registry().spec_vms().len() >= TYPE1_MAX_VMS ==> r
                == crate::Result::<VmId>::Err(HypervisorError::MaxVmsReached) && *final(self)
                == *old(self),
            old(self).spec_registry().spec_vms().len() < TYPE1_MAX_VMS ==> create_vm_post(
                old(self).spec_registry(),
                final(self).spec_registry(),
                config,
                *cpu,
                old(alloc).spec_remaining(),
                old(vm_ids).spec_next(),
                r,
            ),
    {
        if self.registry.vm_count() >= TYPE1_MAX_VMS {
            return Err(HypervisorError::MaxVmsReached);
        }
        self.registry.create_vm(config, cpu, vm_ids, alloc)
    }

    /// Destroy a VM.
    pub fn destroy_vm(&mut self, vm_id: VmId) -> (r: crate::Result<()>)
        requires
            old(self).wf(),
        ensures
            final(self).wf(),
            destroy_vm_post(old(self).spec_registry(), final(self).spec_registry(), vm_id, r),
    {
        self.registry.destroy_vm(vm_id)
    }

    /// Start a VM: the stopped-to-running transition.
    pub fn start_vm(&mut self, vm_id: VmId) -> (r: crate::Result<()>)
        requires
            old(self).wf(),
        ensures
            final(self).wf(),
            transition_vm_post(
                old(self).spec_registry(),
                final(self).spec_registry(),
                vm_id,
                VmState::Running,
                r,
            ),
    {
        self.registry.transition_vm(vm_id, VmState::Running)
    }

    /// Stop a VM: the running-to-stopped transition.
    pub fn stop_vm(&mut self, vm_id: VmId) -> (r: crate::Result<()>)
        requires
            old(self).wf(),
        ensures
            final(self).wf(),
            transition_vm_post(
                old(self).spec_registry(),
                final(self).spec_registry(),
                vm_id,
                VmState::Stopped,
                r,
            ),
    {
        self.registry.transition_vm(vm_id, VmState::Stopped)
    }

    /// Pause a running VM.
    pub fn pause_vm(&mut self, vm_id: VmId) -> (r: crate::Result<()>)
        requires
            old(self).wf(),
        ensures
            final(self).wf(),
            transition_vm_post(
                old(self).spec_registry(),
                final(self).spec_registry(),
                vm_id,
                VmState::Paused,
                r,
            ),
    {
        self.registry.transition_vm(vm_id, VmState::Paused)
    }

    /// Resume a paused VM.
    pub fn resume_vm(&mut self, vm_id: VmId) -> (r: crate::Result<()>)
        requires
            old(self).wf(),
        ensures
            final(self).wf(),
            transition_vm_post(
                old(self).spec_registry(),
                final(self).spec_registry(),
                vm_id,
                VmState::Running,
                r,
            ),
    {
        self.registry.transition_vm(vm_id, VmState::Running)
    }

    /// Create a VCPU for a VM, under the VM's configured cap.
    pub fn create_vcpu(
        &mut self,
        vm_id: VmId,
        config: VcpuConfig,
        cpu: &CpuInfo,
        vcpu_ids: &mut IdCounter,
        alloc: &mut FrameAllocator,
    ) -> (r: crate::Result<VcpuId>)
        requires
            old(self).wf(),
            old(alloc).wf(),
            old(vcpu_ids).spec_next() < u64::MAX,
        ensures
            final(self).wf(),
            final(alloc).wf(),
            create_vcpu_post(
                old(self).spec_registry(),
                final(self).spec_registry(),
                vm_id,
                *cpu,
                old(alloc).spec_remaining(),
                old(vcpu_ids).spec_next(),
                r,
            ),
    {
        self.registry.create_vcpu(vm_id, config, cpu, vcpu_ids, alloc)
    }

    /// Run a VCPU until the next VM exit.
    pub fn run_vcpu(&mut self, vm_id: VmId, vcpu_id: VcpuId) -> (r: crate::Result<VcpuExit>)
        requires
            old(self).wf(),
        ensures
            final(self).wf(),
            run_vcpu_post(
                old(self).spec_registry(),
                final(self).spec_registry(),
                vm_id,
                vcpu_id,
                r,
            ),
    {
        self.registry.run_vcpu(vm_id, vcpu_id)
    }

    /// Get a VCPU's register snapshot.
    pub fn get_vcpu_regs(&self, vm_id: VmId, vcpu_id: VcpuId) -> (r: crate::Result<VcpuRegs>)
        ensures
            get_vcpu_regs_post(self.spec_registry(), vm_id, vcpu_id, r),
    {
        self.registry.get_vcpu_regs(vm_id, vcpu_id)
    }

    /// Set a VCPU's register snapshot.
    pub fn set_vcpu_regs(&mut self, vm_id: VmId, vcpu_id: VcpuId, regs: &VcpuRegs) -> (r:
        crate::Result<()>)
        requires
            old(self).wf(),
        ensures
            final(self).wf(),
            set_vcpu_regs_post(
                old(self).spec_registry(),
                final(self).spec_registry(),
                vm_id,
                vcpu_id,
                *regs,
                r,
            ),
    {
        self.registry.set_vcpu_regs(vm_id, vcpu_id, regs)
    }

    /// Map a guest physical memory region into a VM.
    pub fn map_memory(&mut self, vm_id: VmId, region: MemoryRegion, alloc: &mut FrameAllocator)
        -> (r: crate::Result<()>)
        requires
            old(self).wf(),
            old(alloc).wf(),
        ensures
            final(self).wf(),
            final(alloc).wf(),
            map_memory_post(
                old(self).spec_registry(),
                final(self).spec_registry(),
                vm_id,
                region,
                old(alloc).spec_remaining(),
                r,
            ),
    {
        self.registry.map_memory(vm_id, region, alloc)
    }

    /// Unmap a guest physical memory region from a VM.
    pub fn unmap_memory(&mut self, vm_id: VmId, gpa: u64, size: usize) -> (r: crate::Result<()>)
        requires
            old(self).wf(),
        ensures
            final(self).wf(),
            unmap_memory_post(
                old(self).spec_registry(),
                final(self).spec_registry(),
                vm_id,
                gpa,
                size,
                r,
            ),
    {
        self.registry.unmap_memory(vm_id, gpa, size)
    }

    /// Record an external interrupt for injection into a VCPU.
    pub fn inject_interrupt(&mut self, vm_id: VmId, vcpu_id: VcpuId, vector: u32) -> (r:
        crate::Result<()>)
        requires
            old(self).wf(),
        ensures
            final(self).wf(),
            inject_interrupt_post(
                old(self).spec_registry(),
                final(self).spec_registry(),
                vm_id,
                vcpu_id,
                vector,
                r,
            ),
    {
        self.registry.inject_interrupt(vm_id, vcpu_id, vector)
    }

    /// Get mode-specific capabilities.
    pub fn capabilities(&self) -> (r: ModeCapabilities)
        ensures
            r == (ModeCapabilities {
                mode: HypervisorMode::Type1,
                max_vms: 64,
                max_vcpus_per_vm: 256,
                nested_virt: false,
                device_passthrough: false,
                boot_time_ms: 1000,
            }),
    {
        ModeCapabilities {
            mode: HypervisorMode::Type1,
            max_vms: 64,
            max_vcpus_per_vm: 256,
            nested_virt: false,
            device_passthrough: false,
            boot_time_ms: 1000,
        }
    }
}

impl HypervisorModeImpl for Type1Hypervisor {
    open spec fn wf(&self) -> bool {
        self.spec_registry().wf()
    }

    fn init(config: &ModeConfig, cpu: &CpuInfo) -> crate::Result<Self> {
        Type1Hypervisor::init(config, cpu)
    }

    fn mode(&self) -> HypervisorMode {
        Type1Hypervisor::mode(self)
    }

    fn create_vm(
        &mut self,
        config: VmConfig,
        cpu: &CpuInfo,
        vm_ids: &mut IdCounter,
        alloc: &mut FrameAllocator,
    ) -> crate::Result<VmId> {
        Type1Hypervisor::create_vm(self, config, cpu, vm_ids, alloc)
    }

    fn destroy_vm(&mut self, vm_id: VmId) -> crate::Result<()> {
        Type1Hypervisor::destroy_vm(self, vm_id)
    }

    fn start_vm(&mut self, vm_id: VmId) -> crate::Result<()> {
        Type1Hypervisor::start_vm(self, vm_id)
    }

    fn stop_vm(&mut self, vm_id: VmId) -> crate::Result<()> {
        Type1Hypervisor::stop_vm(self, vm_id)
    }

    fn pause_vm(&mut self, vm_id: VmId) -> crate::Result<()> {
        Type1Hypervisor::pause_vm(self, vm_id)
    }

    fn resume_vm(&mut self, vm_id: VmId) -> crate::Result<()> {
        Type1Hypervisor::resume_vm(self, vm_id)
    }

    fn create_vcpu(
        &mut self,
        vm_id: VmId,
        config: VcpuConfig,
        cpu: &CpuInfo,
        vcpu_ids: &mut IdCounter,
        alloc: &mut FrameAllocator,
    ) -> crate::Result<VcpuId> {
        Type1Hypervisor::create_vcpu(self, vm_id, config, cpu, vcpu_ids, alloc)
    }

    fn run_vcpu(&mut self, vm_id: VmId, vcpu_id: VcpuId) -> crate::Result<VcpuExit> {
        Type1Hypervisor::run_vcpu(self, vm_id, vcpu_id)
    }

    fn get_vcpu_regs(&self, vm_id: VmId, vcpu_id: VcpuId) -> crate::Result<VcpuRegs> {
        Type1Hypervisor::get_vcpu_regs(self, vm_id, vcpu_id)
    }

    fn set_vcpu_regs(&mut self, vm_id: VmId, vcpu_id: VcpuId, regs: &VcpuRegs) -> crate::Result<
        (),
    > {
        Type1Hypervisor::set_vcpu_regs(self, vm_id, vcpu_id, regs)
    }

    fn map_memory(
        &mut self,
        vm_id: VmId,
        region: MemoryRegion,
        alloc: &mut FrameAllocator,
    ) -> crate::Result<()> {
        Type1Hypervisor::map_memory(self, vm_id, region, alloc)
    }

    fn unmap_memory(&mut self, vm_id: VmId, gpa: u64, size: usize) -> crate::Result<()> {
        Type1Hypervisor::unmap_memory(self, vm_id, gpa, size)
    }

    fn inject_interrupt(&mut self, vm_id: VmId, vcpu_id: VcpuId, vector: u32) -> crate::Result<
        (),
    > {
        Type1Hypervisor::inject_interrupt(self, vm_id, vcpu_id, vector)
    }

    fn capabilities(&self) -> ModeCapabilities {
        Type1Hypervisor::capabilities(self)
    }
}

} // verus!
