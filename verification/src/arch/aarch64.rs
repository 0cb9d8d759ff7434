//! aarch64 hypervisor backend: a placeholder behind the common interface.
//!
//! Hypervisor exception-level support is not implemented; capability
//! detection reports it as unsupported, and the data types below only
//! stand in for the real stage-2 translation and guest register state.

use vstd::prelude::*;
use crate::{HypervisorCaps, HypervisorError};
use crate::vm::MemoryRegion;
use crate::vcpu::{VcpuExit, VcpuRegs};

verus! {

/// aarch64-specific VM data.
pub struct ArchVmData {
    /// Stage-2 translation table base register value.
    pub stage2_table_base: u64,
}

impl ArchVmData {
    /// Create new architecture-specific VM data.
    pub fn new() -> (r: crate::Result<Self>)
        ensures
            r matches Ok(d) && d.stage2_table_base == 0,
    {
        Ok(ArchVmData { stage2_table_base: 0 })
    }

    /// Map a guest physical memory region.
    ///
    /// Stage-2 table management is not implemented in this placeholder.
    pub fn map_memory(&mut self, region: &MemoryRegion) -> (r: crate::Result<()>)
        ensures
            r is Ok,
            *final(self) == *old(self),
    {
        let _ = region;
        Ok(())
    }

    /// Unmap a guest physical memory region.
    ///
    /// Stage-2 table management is not implemented in this placeholder.
    pub fn unmap_memory(&mut self, region: &MemoryRegion) -> (r: crate::Result<()>)
        ensures
            r is Ok,
            *final(self) == *old(self),
    {
        let _ = region;
        Ok(())
    }
}

/// Saved guest system registers.
#[derive(Debug, Clone, Copy, PartialEq, Eq, Structural)]
pub struct GuestSysRegs {
    /// System control register.
    pub sctlr_el1: u64,
    /// First translation table base.
    pub ttbr0_el1: u64,
    /// Second translation table base.
    pub ttbr1_el1: u64,
    /// Translation control register.
    pub tcr_el1: u64,
    /// Exception syndrome register.
    pub esr_el1: u64,
    /// Fault address register.
    pub far_el1: u64,
}

/// aarch64-specific VCPU data.
pub struct ArchVcpuData {
    /// Parent VM ID.
    pub vm_id: u64,
    /// Saved guest system registers.
    pub guest_sys_regs: GuestSysRegs,
}

impl ArchVcpuData {
    /// Create new architecture-specific VCPU data.
    pub fn new(vm_id: u64) -> (r: crate::Result<Self>)
        ensures
            r matches Ok(d) && d.vm_id == vm_id && d.guest_sys_regs == (GuestSysRegs {
                sctlr_el1: 0,
                ttbr0_el1: 0,
                ttbr1_el1: 0,
                tcr_el1: 0,
                esr_el1: 0,
                far_el1: 0,
            }),
    {
        Ok(
            ArchVcpuData {
                vm_id,
                guest_sys_regs: GuestSysRegs {
                    sctlr_el1: 0,
                    ttbr0_el1: 0,
                    ttbr1_el1: 0,
                    tcr_el1: 0,
                    esr_el1: 0,
                    far_el1: 0,
                },
            },
        )
    }

    /// Read the register snapshot.
    ///
    /// Guest register access is not implemented in this placeholder.
    pub fn get_regs(&self) -> (r: crate::Result<VcpuRegs>)
        ensures
            r matches Ok(regs) && regs.pc == 0 && regs.sp == 0 && regs.flags == 0,
    {
        Ok(VcpuRegs { pc: 0, sp: 0, gpr: [0; 32], flags: 0 })
    }

    /// Write the register snapshot.
    ///
    /// Guest register access is not implemented in this placeholder.
    pub fn set_regs(&mut self, regs: &VcpuRegs) -> (r: crate::Result<()>)
        ensures
            r is Ok,
            *final(self) == *old(self),
    {
        let _ = regs;
        Ok(())
    }

    /// Run the VCPU.
    ///
    /// Guest entry at the hypervisor exception level is not implemented in
    /// this placeholder.
    pub fn run(&mut self) -> (r: crate::Result<VcpuExit>)
        ensures
            r == crate::Result::<VcpuExit>::Ok(VcpuExit::Unknown),
            *final(self) == *old(self),
    {
        Ok(VcpuExit::Unknown)
    }
}

/// Whether the hypervisor exception level is available: not on this
/// placeholder backend.
pub fn is_el2_available() -> (r: bool)
    ensures
        !r,
{
    false
}

/// Detect hardware virtualization capabilities: always unsupported here.
pub fn detect_capabilities() -> (r: crate::Result<HypervisorCaps>)
    ensures
        r == crate::Result::<HypervisorCaps>::Err(HypervisorError::NotSupported),
{
    if !is_el2_available() {
        return Err(HypervisorError::NotSupported);
    }
    Ok(
        HypervisorCaps {
            hw_virt_available: true,
            arch: crate::HypervisorArch::Aarch64,
            max_vms: 64,
            max_vcpus_per_vm: 256,
            nested_virt: false,
            supported_modes: crate::ModeSupportFlags { bits: 7 },
        },
    )
}

/// Initialize the aarch64 hypervisor backend.
pub fn init(caps: &HypervisorCaps) -> (r: crate::Result<()>)
    ensures
        r is Ok,
{
    let _ = caps;
    Ok(())
}

} // verus!
