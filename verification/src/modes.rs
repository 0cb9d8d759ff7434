//! Hypervisor mode implementations and their dispatcher.
//!
//! The set of modes is fixed, so dispatch goes through a closed tagged
//! variant rather than open-ended dynamic dispatch: matching is exhaustive
//! and every arm carries its own contract. All three modes delegate their
//! lifecycle work to the shared VM and VCPU registry; the dispatcher's
//! contracts state that delegation, with each mode's policy on top.

pub mod hvt;
pub mod type1;
pub mod virtio;

use vstd::prelude::*;
use crate::{HypervisorError, IdCounter};
use crate::arch::CpuInfo;
use crate::memory::FrameAllocator;
use crate::mode::{HypervisorMode, HypervisorModeImpl, ModeCapabilities, ModeConfig};
use crate::registry::{
    create_vcpu_post, create_vm_post, destroy_vm_post, get_vcpu_regs_post, inject_interrupt_post,
    map_memory_post, run_vcpu_post, set_vcpu_regs_post, transition_vm_post, unmap_memory_post,
    VmRegistry,
};
use crate::vm::{MemoryRegion, VmConfig, VmId, VmState};
use crate::vcpu::{VcpuConfig, VcpuExit, VcpuId, VcpuRegs};
use hvt::HvtTender;
use type1::Type1Hypervisor;
use virtio::VirtIOHypervisor;

verus! {

/// The three hypervisor modes behind one lifecycle interface.
pub enum ModeDispatcher {
    /// Full hardware virtualization.
    Type1(Type1Hypervisor),
    /// Paravirtualization.
    VirtIO(VirtIOHypervisor),
    /// Hardware virtualized tender.
    Hvt(HvtTender),
}

impl ModeDispatcher {
    /// The mode this instance dispatches to.
    pub open spec fn spec_mode(self) -> HypervisorMode {
        match self {
            ModeDispatcher::Type1(_) => HypervisorMode::Type1,
            ModeDispatcher::VirtIO(_) => HypervisorMode::VirtIO,
            ModeDispatcher::Hvt(_) => HypervisorMode::Hvt,
        }
    }

    /// The registry of the dispatched mode.
    pub open spec fn spec_registry(self) -> VmRegistry {
        match self {
            ModeDispatcher::Type1(m) => m.spec_registry(),
            ModeDispatcher::VirtIO(m) => m.spec_registry(),
            ModeDispatcher::Hvt(m) => m.spec_registry(),
        }
    }

    /// The dispatched mode's VM capacity.
    pub open spec fn spec_max_vms(self) -> int {
        match self {
            ModeDispatcher::Type1(_) => type1::TYPE1_MAX_VMS as int,
            ModeDispatcher::VirtIO(_) => virtio::VIRTIO_MAX_VMS as int,
            ModeDispatcher::Hvt(_) => hvt::HVT_MAX_VMS as int,
        }
    }

    /// The dispatched mode instance is sound.
    pub open spec fn wf(self) -> bool {
        self.spec_registry().wf()
    }

    /// Get the mode type.
    pub fn mode(&self) -> (r: HypervisorMode)
        ensures
            r == self.spec_mode(),
    {
        match self {
            ModeDispatcher::Type1(m) => m.mode(),
            ModeDispatcher::VirtIO(m) => m.mode(),
            ModeDispatcher::Hvt(m) => m.mode(),
        }
    }

    /// Create a new VM in this mode, under the mode's capacity cap.
    pub fn create_vm(
        &mut self,
        config: VmConfig,
        cpu: &CpuInfo,
        vm_ids: &mut IdCounter,
        alloc: &mut FrameAllocator,
    ) -> (r: crate::Result<VmId>)
        requires
            old(self).wf(),
            old(alloc).wf(),
            old(vm_ids).spec_next() < u64::MAX,
        ensures
            final(self).wf(),
            final(alloc).wf(),
            final(self).spec_mode() == old(self).spec_mode(),
            old(self).spec_registry().spec_vms().len() >= old(self).spec_max_vms() ==> r
                == crate::Result::<VmId>::Err(HypervisorError::MaxVmsReached) && *final(self)
                == *old(self),
            old(self).spec_registry().spec_vms().len() < old(self).spec_max_vms()
                ==> create_vm_post(
                old(self).spec_registry(),
                final(self).spec_registry(),
                config,
                *cpu,
                old(alloc).spec_remaining(),
                old(vm_ids).spec_next(),
                r,
            ),
    {
        match self {
            ModeDispatcher::Type1(m) => m.create_vm(config, cpu, vm_ids, alloc),
            ModeDispatcher::VirtIO(m) => m.create_vm(config, cpu, vm_ids, alloc),
            ModeDispatcher::Hvt(m) => m.create_vm(config, cpu, vm_ids, alloc),
        }
    }

    /// Destroy a VM.
    pub fn destroy_vm(&mut self, vm_id: VmId) -> (r: crate::Result<()>)
        requires
            old(self).wf(),
        ensures
            final(self).wf(),
            final(self).spec_mode() == old(self).spec_mode(),
            destroy_vm_post(old(self).spec_registry(), final(self).spec_registry(), vm_id, r),
    {
        match self {
            ModeDispatcher::Type1(m) => m.destroy_vm(vm_id),
            ModeDispatcher::VirtIO(m) => m.destroy_vm(vm_id),
            ModeDispatcher::Hvt(m) => m.destroy_vm(vm_id),
        }
    }

    /// Start a VM: the stopped-to-running transition.
    pub fn start_vm(&mut self, vm_id: VmId) -> (r: crate::Result<()>)
        requires
            old(self).wf(),
        ensures
            final(self).wf(),
            final(self).spec_mode() == old(self).spec_mode(),
            transition_vm_post(
                old(self).spec_registry(),
                final(self).spec_registry(),
                vm_id,
                VmState::Running,
                r,
            ),
    {
        match self {
            ModeDispatcher::Type1(m) => m.start_vm(vm_id),
            ModeDispatcher::VirtIO(m) => m.start_vm(vm_id),
            ModeDispatcher::Hvt(m) => m.start_vm(vm_id),
        }
    }

    /// Stop a VM: the running-to-stopped transition.
    pub fn stop_vm(&mut self, vm_id: VmId) -> (r: crate::Result<()>)
        requires
            old(self).wf(),
        ensures
            final(self).wf(),
            final(self).spec_mode() == old(self).spec_mode(),
            transition_vm_post(
                old(self).spec_registry(),
                final(self).spec_registry(),
                vm_id,
                VmState::Stopped,
                r,
            ),
    {
        match self {
            ModeDispatcher::Type1(m) => m.stop_vm(vm_id),
            ModeDispatcher::VirtIO(m) => m.stop_vm(vm_id),
            ModeDispatcher::Hvt(m) => m.stop_vm(vm_id),
        }
    }

    /// Pause a VM: supported by every mode except the tender, whose
    /// guests run to their exit hypercall.
    pub fn pause_vm(&mut self, vm_id: VmId) -> (r: crate::Result<()>)
        requires
            old(self).wf(),
        ensures
            final(self).wf(),
            final(self).spec_mode() == old(self).spec_mode(),
            old(self).spec_mode() == HypervisorMode::Hvt ==> r == crate::Result::<()>::Err(
                HypervisorError::NotSupported,
            ) && *final(self) == *old(self),
            old(self).spec_mode() != HypervisorMode::Hvt ==> transition_vm_post(
                old(self).spec_registry(),
                final(self).spec_registry(),
                vm_id,
                VmState::Paused,
                r,
            ),
    {
        match self {
            ModeDispatcher::Type1(m) => m.pause_vm(vm_id),
            ModeDispatcher::VirtIO(m) => m.pause_vm(vm_id),
            ModeDispatcher::Hvt(m) => m.pause_vm(vm_id),
        }
    }

    /// Resume a paused VM: supported by every mode except the tender.
    pub fn resume_vm(&mut self, vm_id: VmId) -> (r: crate::Result<()>)
        requires
            old(self).wf(),
        ensures
            final(self).wf(),
            final(self).spec_mode() == old(self).spec_mode(),
            old(self).spec_mode() == HypervisorMode::Hvt ==> r == crate::Result::<()>::Err(
                HypervisorError::NotSupported,
            ) && *final(self) == *old(self),
            old(self).spec_mode() != HypervisorMode::Hvt ==> transition_vm_post(
                old(self).spec_registry(),
                final(self).spec_registry(),
                vm_id,
                VmState::Running,
                r,
            ),
    {
        match self {
            ModeDispatcher::Type1(m) => m.resume_vm(vm_id),
            ModeDispatcher::VirtIO(m) => m.resume_vm(vm_id),
            ModeDispatcher::Hvt(m) => m.resume_vm(vm_id),
        }
    }

    /// Create a VCPU for a VM, under the VM's configured cap.
    pub fn create_vcpu(
        &mut self,
        vm_id: VmId,
        config: VcpuConfig,
        cpu: &CpuInfo,
        vcpu_ids: &mut IdCounter,
        alloc: &mut FrameAllocator,
    ) -> (r: crate::Result<VcpuId>)
        requires
            old(self).wf(),
            old(alloc).wf(),
            old(vcpu_ids).spec_next() < u64::MAX,
        ensures
            final(self).wf(),
            final(alloc).wf(),
            final(self).spec_mode() == old(self).spec_mode(),
            create_vcpu_post(
                old(self).spec_registry(),
                final(self).spec_registry(),
                vm_id,
                *cpu,
                old(alloc).spec_remaining(),
                old(vcpu_ids).spec_next(),
                r,
            ),
    {
        match self {
            ModeDispatcher::Type1(m) => m.create_vcpu(vm_id, config, cpu, vcpu_ids, alloc),
            ModeDispatcher::VirtIO(m) => m.create_vcpu(vm_id, config, cpu, vcpu_ids, alloc),
            ModeDispatcher::Hvt(m) => m.create_vcpu(vm_id, config, cpu, vcpu_ids, alloc),
        }
    }

    /// Run a VCPU until the next VM exit: a stopped VCPU is dispatched
    /// fresh, an exited one is resumed.
    pub fn run_vcpu(&mut self, vm_id: VmId, vcpu_id: VcpuId) -> (r: crate::Result<VcpuExit>)
        requires
            old(self).wf(),
        ensures
            final(self).wf(),
            final(self).spec_mode() == old(self).spec_mode(),
            run_vcpu_post(
                old(self).spec_registry(),
                final(self).spec_registry(),
                vm_id,
                vcpu_id,
                r,
            ),
    {
        match self {
            ModeDispatcher::Type1(m) => m.run_vcpu(vm_id, vcpu_id),
            ModeDispatcher::VirtIO(m) => m.run_vcpu(vm_id, vcpu_id),
            ModeDispatcher::Hvt(m) => m.run_vcpu(vm_id, vcpu_id),
        }
    }

    /// Get a VCPU's register snapshot.
    pub fn get_vcpu_regs(&self, vm_id: VmId, vcpu_id: VcpuId) -> (r: crate::Result<VcpuRegs>)
        ensures
            get_vcpu_regs_post(self.spec_registry(), vm_id, vcpu_id, r),
    {
        match self {
            ModeDispatcher::Type1(m) => m.get_vcpu_regs(vm_id, vcpu_id),
            ModeDispatcher::VirtIO(m) => m.get_vcpu_regs(vm_id, vcpu_id),
            ModeDispatcher::Hvt(m) => m.get_vcpu_regs(vm_id, vcpu_id),
        }
    }

    /// Set a VCPU's register snapshot.
    pub fn set_vcpu_regs(&mut self, vm_id: VmId, vcpu_id: VcpuId, regs: &VcpuRegs) -> (r:
        crate::Result<()>)
        requires
            old(self).wf(),
        ensures
            final(self).wf(),
            final(self).spec_mode() == old(self).spec_mode(),
            set_vcpu_regs_post(
                old(self).spec_registry(),
                final(self).spec_registry(),
                vm_id,
                vcpu_id,
                *regs,
                r,
            ),
    {
        match self {
            ModeDispatcher::Type1(m) => m.set_vcpu_regs(vm_id, vcpu_id, regs),
            ModeDispatcher::VirtIO(m) => m.set_vcpu_regs(vm_id, vcpu_id, regs),
            ModeDispatcher::Hvt(m) => m.set_vcpu_regs(vm_id, vcpu_id, regs),
        }
    }

    /// Map a guest physical memory region into a VM. The tender keeps one
    /// flat address space and performs no table update.
    pub fn map_memory(&mut self, vm_id: VmId, region: MemoryRegion, alloc: &mut FrameAllocator)
        -> (r: crate::Result<()>)
        requires
            old(self).wf(),
            old(alloc).wf(),
        ensures
            final(self).wf(),
            final(alloc).wf(),
            final(self).spec_mode() == old(self).spec_mode(),
            old(self).spec_mode() == HypervisorMode::Hvt ==> r is Ok && *final(self) == *old(
                self,
            ),
            old(self).spec_mode() != HypervisorMode::Hvt ==> map_memory_post(
                old(self).spec_registry(),
                final(self).spec_registry(),
                vm_id,
                region,
                old(alloc).spec_remaining(),
                r,
            ),
    {
        match self {
            ModeDispatcher::Type1(m) => m.map_memory(vm_id, region, alloc),
            ModeDispatcher::VirtIO(m) => m.map_memory(vm_id, region, alloc),
            ModeDispatcher::Hvt(m) => m.map_memory(vm_id, region, alloc),
        }
    }

    /// Unmap a guest physical memory region from a VM.
    pub fn unmap_memory(&mut self, vm_id: VmId, gpa: u64, size: usize) -> (r: crate::Result<()>)
        requires
            old(self).wf(),
        ensures
            final(self).wf(),
            final(self).spec_mode() == old(self).spec_mode(),
            old(self).spec_mode() == HypervisorMode::Hvt ==> r is Ok && *final(self) == *old(
                self,
            ),
            old(self).spec_mode() != HypervisorMode::Hvt ==> unmap_memory_post(
                old(self).spec_registry(),
                final(self).spec_registry(),
                vm_id,
                gpa,
                size,
                r,
            ),
    {
        match self {
            ModeDispatcher::Type1(m) => m.unmap_memory(vm_id, gpa, size),
            ModeDispatcher::VirtIO(m) => m.unmap_memory(vm_id, gpa, size),
            ModeDispatcher::Hvt(m) => m.unmap_memory(vm_id, gpa, size),
        }
    }

    /// Inject an interrupt into a VCPU: not applicable to tender guests,
    /// whose I/O goes through their synchronous hypercalls.
    pub fn inject_interrupt(&mut self, vm_id: VmId, vcpu_id: VcpuId, vector: u32) -> (r:
        crate::Result<()>)
        requires
            old(self).wf(),
        ensures
            final(self).wf(),
            final(self).spec_mode() == old(self).spec_mode(),
            old(self).spec_mode() == HypervisorMode::Hvt ==> r == crate::Result::<()>::Err(
                HypervisorError::NotSupported,
            ) && *final(self) == *old(self),
            old(self).spec_mode() != HypervisorMode::Hvt ==> inject_interrupt_post(
                old(self).spec_registry(),
                final(self).spec_registry(),
                vm_id,
                vcpu_id,
                vector,
                r,
            ),
    {
        match self {
            ModeDispatcher::Type1(m) => m.inject_interrupt(vm_id, vcpu_id, vector),
            ModeDispatcher::VirtIO(m) => m.inject_interrupt(vm_id, vcpu_id, vector),
            ModeDispatcher::Hvt(m) => m.inject_interrupt(vm_id, vcpu_id, vector),
        }
    }

    /// Get mode-specific capabilities.
    pub fn capabilities(&self) -> (r: ModeCapabilities)
        ensures
            r.mode == self.spec_mode(),
            r.max_vms == self.spec_max_vms(),
            self.spec_mode() == HypervisorMode::Hvt ==> r.max_vcpus_per_vm == 1,
    {
        match self {
            ModeDispatcher::Type1(m) => m.capabilities(),
            ModeDispatcher::VirtIO(m) => m.capabilities(),
            ModeDispatcher::Hvt(m) => m.capabilities(),
        }
    }
}

/// Create a hypervisor mode instance for the selected mode.
pub fn create_mode(mode: HypervisorMode, config: &ModeConfig, cpu: &CpuInfo) -> (r: crate::Result<
    ModeDispatcher,
>)
    ensures
        mode == HypervisorMode::Type1 && crate::arch::x86_64::spec_detect_virt_tech(*cpu) is Ok
            ==> (r matches Ok(d) && d.wf() && d.spec_mode() == HypervisorMode::Type1
            && d.spec_registry().spec_vms().len() == 0),
        mode == HypervisorMode::Type1 && crate::arch::x86_64::spec_detect_virt_tech(*cpu) is Err
            ==> r == crate::Result::<ModeDispatcher>::Err(HypervisorError::NotSupported),
        mode == HypervisorMode::VirtIO ==> (r matches Ok(d) && d.wf() && d.spec_mode()
            == HypervisorMode::VirtIO && d.spec_registry().spec_vms().len() == 0),
        mode == HypervisorMode::Hvt ==> (r matches Ok(d) && d.wf() && d.spec_mode()
            == HypervisorMode::Hvt && d.spec_registry().spec_vms().len() == 0),
{
    match mode {
        HypervisorMode::Type1 => {
            let m = match Type1Hypervisor::init(config, cpu) {
                Ok(m) => m,
                Err(e) => {
                    return Err(e);
                },
            };
            Ok(ModeDispatcher::Type1(m))
        },
        HypervisorMode::VirtIO => {
            let m = match VirtIOHypervisor::init(config, cpu) {
                Ok(m) => m,
                Err(e) => {
                    return Err(e);
                },
            };
            Ok(ModeDispatcher::VirtIO(m))
        },
        HypervisorMode::Hvt => {
            let m = match HvtTender::init(config, cpu) {
                Ok(m) => m,
                Err(e) => {
                    return Err(e);
                },
            };
            Ok(ModeDispatcher::Hvt(m))
        },
    }
}

} // verus!
