//! riscv64 hypervisor backend: a placeholder behind the common interface.
//!
//! Hypervisor-extension support is not implemented; capability detection
//! reports it as unsupported, and the data types below only stand in for
//! the real G-stage translation and guest control register state.

use vstd::prelude::*;
use crate::{HypervisorCaps, HypervisorError};
use crate::vm::MemoryRegion;
use crate::vcpu::{VcpuExit, VcpuRegs};

verus! {

/// riscv64-specific VM data.
pub struct ArchVmData {
    /// Guest address translation and protection register value, holding
    /// the G-stage page table root.
    pub hgatp: u64,
}

impl ArchVmData {
    /// Create new architecture-specific VM data.
    pub fn new() -> (r: crate::Result<Self>)
        ensures
            r matches Ok(d) && d.hgatp == 0,
    {
        Ok(ArchVmData { hgatp: 0 })
    }

    /// Map a guest physical memory region.
    ///
    /// G-stage table management is not implemented in this placeholder.
    pub fn map_memory(&mut self, region: &MemoryRegion) -> (r: crate::Result<()>)
        ensures
            r is Ok,
            *final(self) == *old(self),
    {
        let _ = region;
        Ok(())
    }

    /// Unmap a guest physical memory region.
    ///
    /// G-stage table management is not implemented in this placeholder.
    pub fn unmap_memory(&mut self, region: &MemoryRegion) -> (r: crate::Result<()>)
        ensures
            r is Ok,
            *final(self) == *old(self),
    {
        let _ = region;
        Ok(())
    }
}

/// Saved guest control and status registers.
#[derive(Debug, Clone, Copy, PartialEq, Eq, Structural)]
pub struct GuestCsrs {
    /// Supervisor status.
    pub sstatus: u64,
    /// Supervisor interrupt enable.
    pub sie: u64,
    /// Supervisor trap vector.
    pub stvec: u64,
    /// Supervisor scratch.
    pub sscratch: u64,
    /// Supervisor exception program counter.
    pub sepc: u64,
    /// Supervisor trap cause.
    pub scause: u64,
    /// Supervisor trap value.
    pub stval: u64,
    /// Supervisor interrupt pending.
    pub sip: u64,
    /// Supervisor address translation and protection.
    pub satp: u64,
}

/// riscv64-specific VCPU data.
pub struct ArchVcpuData {
    /// Parent VM ID.
    pub vm_id: u64,
    /// Saved guest control and status registers.
    pub guest_csrs: GuestCsrs,
}

impl ArchVcpuData {
    /// Create new architecture-specific VCPU data.
    pub fn new(vm_id: u64) -> (r: crate::Result<Self>)
        ensures
            r matches Ok(d) && d.vm_id == vm_id && d.guest_csrs == (GuestCsrs {
                sstatus: 0,
                sie: 0,
                stvec: 0,
                sscratch: 0,
                sepc: 0,
                scause: 0,
                stval: 0,
                sip: 0,
                satp: 0,
            }),
    {
        Ok(
            ArchVcpuData {
                vm_id,
                guest_csrs: GuestCsrs {
                    sstatus: 0,
                    sie: 0,
                    stvec: 0,
                    sscratch: 0,
                    sepc: 0,
                    scause: 0,
                    stval: 0,
                    sip: 0,
                    satp: 0,
                },
            },
        )
    }

    /// Read the register snapshot.
    ///
    /// Guest register access is not implemented in this placeholder.
    pub fn get_regs(&self) -> (r: crate::Result<VcpuRegs>)
        ensures
            r matches Ok(regs) && regs.pc == 0 && regs.sp == 0 && regs.flags == 0,
    {
        Ok(VcpuRegs { pc: 0, sp: 0, gpr: [0; 32], flags: 0 })
    }

    /// Write the register snapshot.
    ///
    /// Guest register access is not implemented in this placeholder.
    pub fn set_regs(&mut self, regs: &VcpuRegs) -> (r: crate::Result<()>)
        ensures
            r is Ok,
            *final(self) == *old(self),
    {
        let _ = regs;
        Ok(())
    }

    /// Run the VCPU.
    ///
    /// Guest entry in virtualized supervisor mode is not implemented in
    /// this placeholder.
    pub fn run(&mut self) -> (r: crate::Result<VcpuExit>)
        ensures
            r == crate::Result::<VcpuExit>::Ok(VcpuExit::Unknown),
            *final(self) == *old(self),
    {
        Ok(VcpuExit::Unknown)
    }
}

/// Whether the hypervisor extension is available: not on this placeholder
/// backend.
pub fn is_h_extension_available() -> (r: bool)
    ensures
        !r,
{
    false
}

/// Detect hardware virtualization capabilities: always unsupported here.
pub fn detect_capabilities() -> (r: crate::Result<HypervisorCaps>)
    ensures
        r == crate::Result::<HypervisorCaps>::Err(HypervisorError::NotSupported),
{
    if !is_h_extension_available() {
        return Err(HypervisorError::NotSupported);
    }
    Ok(
        HypervisorCaps {
            hw_virt_available: true,
            arch: crate::HypervisorArch::Riscv64,
            max_vms: 64,
            max_vcpus_per_vm: 256,
            nested_virt: false,
            supported_modes: crate::ModeSupportFlags { bits: 7 },
        },
    )
}

/// Initialize the riscv64 hypervisor backend.
pub fn init(caps: &HypervisorCaps) -> (r: crate::Result<()>)
    ensures
        r is Ok,
{
    let _ = caps;
    Ok(())
}

} // verus!
