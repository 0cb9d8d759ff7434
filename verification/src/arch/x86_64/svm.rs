//! AMD SVM support: feature detection and the decision logic around
//! enabling SVM operation.
//!
//! The raw feature words and register values come from the processor
//! primitives collaborator as a `CpuInfo` snapshot; writing the enable bit
//! itself belongs to the platform layer, and whether it stuck is part of
//! the snapshot.

use vstd::prelude::*;
use crate::HypervisorError;
use crate::arch::CpuInfo;
use crate::memory::FrameAllocator;

verus! {

/// Whether SVM is available: the extended leaves must reach the extended
/// feature word, whose bit 2 reports SVM.
pub fn is_available(cpu: &CpuInfo) -> (r: bool)
    ensures
        r == spec_is_available(*cpu),
{
    if cpu.cpuid_ext_max_leaf < 0x8000_0001 {
        return false;
    }
    cpu.cpuid_ext1_ecx & 4 != 0
}

/// Whether SVM is available on this processor.
pub open spec fn spec_is_available(cpu: CpuInfo) -> bool {
    cpu.cpuid_ext_max_leaf >= 0x8000_0001 && cpu.cpuid_ext1_ecx & 4 != 0
}

/// Whether firmware disabled SVM: bit 4 of the VM control register.
pub fn is_disabled_in_firmware(cpu: &CpuInfo) -> (r: bool)
    ensures
        r == spec_is_disabled_in_firmware(*cpu),
{
    cpu.msr_vm_cr & 0x10 != 0
}

/// Whether firmware disabled SVM.
pub open spec fn spec_is_disabled_in_firmware(cpu: CpuInfo) -> bool {
    cpu.msr_vm_cr & 0x10 != 0
}

/// Initialize SVM: check availability and firmware state, allocate the
/// host save area, and account for whether the enable bit stuck when
/// written back.
///
/// Fails with `NotSupported` when the processor lacks SVM or firmware
/// disabled it, `OutOfMemory` when no frame is left for the host save
/// area, and `InitializationFailed` when the enable bit did not stick.
pub fn init(cpu: &CpuInfo, alloc: &mut FrameAllocator) -> (r: crate::Result<()>)
    requires
        old(alloc).wf(),
    ensures
        final(alloc).wf(),
        r == spec_init_result(*cpu, old(alloc).spec_remaining()),
        !(spec_is_available(*cpu) && !spec_is_disabled_in_firmware(*cpu)) ==> *final(alloc)
            == *old(alloc),
{
    if !is_available(cpu) {
        return Err(HypervisorError::NotSupported);
    }
    if is_disabled_in_firmware(cpu) {
        return Err(HypervisorError::NotSupported);
    }
    let _host_save_frame = match alloc.allocate_frame() {
        Some(f) => f,
        None => {
            return Err(HypervisorError::OutOfMemory);
        },
    };
    if !cpu.enable_ok {
        return Err(HypervisorError::InitializationFailed);
    }
    Ok(())
}

/// What `init` returns for a given snapshot and frame budget.
pub open spec fn spec_init_result(cpu: CpuInfo, frames: nat) -> crate::Result<()> {
    if !(spec_is_available(cpu) && !spec_is_disabled_in_firmware(cpu)) {
        Err(HypervisorError::NotSupported)
    } else if frames == 0 {
        Err(HypervisorError::OutOfMemory)
    } else if !cpu.enable_ok {
        Err(HypervisorError::InitializationFailed)
    } else {
        Ok(())
    }
}

} // verus!
