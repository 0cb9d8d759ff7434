//! Intel VMX support: feature detection and the decision logic around
//! enabling VMX operation.
//!
//! The raw feature words and register values come from the processor
//! primitives collaborator as a `CpuInfo` snapshot; issuing the enable
//! instruction itself belongs to the platform layer, and its outcome is
//! part of the snapshot.

use vstd::prelude::*;
use crate::HypervisorError;
use crate::arch::CpuInfo;
use crate::memory::FrameAllocator;

verus! {

/// Whether VMX is available: feature bit 5 of the standard feature word.
pub fn is_available(cpu: &CpuInfo) -> (r: bool)
    ensures
        r == spec_is_available(*cpu),
{
    cpu.cpuid_1_ecx & 0x20 != 0
}

/// Whether VMX is available on this processor.
pub open spec fn spec_is_available(cpu: CpuInfo) -> bool {
    cpu.cpuid_1_ecx & 0x20 != 0
}

/// Whether firmware enabled VMX: the feature control register must be
/// locked (bit 0) with VMX outside SMX enabled (bit 2).
pub fn is_enabled_in_firmware(cpu: &CpuInfo) -> (r: bool)
    ensures
        r == spec_is_enabled_in_firmware(*cpu),
{
    let locked = cpu.msr_feature_control & 1 != 0;
    let vmx_enabled = cpu.msr_feature_control & 4 != 0;
    locked && vmx_enabled
}

/// Whether firmware enabled VMX.
pub open spec fn spec_is_enabled_in_firmware(cpu: CpuInfo) -> bool {
    cpu.msr_feature_control & 1 != 0 && cpu.msr_feature_control & 4 != 0
}

/// The VMCS revision identifier the processor reports: the low 31 bits of
/// the basic VMX capability register.
pub fn vmcs_revision_id(cpu: &CpuInfo) -> (r: u32)
    ensures
        r == spec_vmcs_revision_id(*cpu),
{
    proof {
        let b = cpu.msr_vmx_basic;
        assert((b & 0x7FFF_FFFFu64) <= 0x7FFF_FFFFu64) by (bit_vector);
    }
    (cpu.msr_vmx_basic & 0x7FFF_FFFF) as u32
}

/// The VMCS revision identifier the processor reports.
pub open spec fn spec_vmcs_revision_id(cpu: CpuInfo) -> u32 {
    (cpu.msr_vmx_basic & 0x7FFF_FFFF) as u32
}

/// Initialize VMX: check availability and firmware enablement, allocate
/// the VMX-on region, and account for the enable instruction's outcome.
///
/// Fails with `NotSupported` when the processor or firmware lacks VMX,
/// `OutOfMemory` when no frame is left for the VMX-on region, and
/// `InitializationFailed` when the enable instruction signaled failure.
pub fn init(cpu: &CpuInfo, alloc: &mut FrameAllocator) -> (r: crate::Result<()>)
    requires
        old(alloc).wf(),
    ensures
        final(alloc).wf(),
        r == spec_init_result(*cpu, old(alloc).spec_remaining()),
        !(spec_is_available(*cpu) && spec_is_enabled_in_firmware(*cpu)) ==> *final(alloc)
            == *old(alloc),
{
    if !is_available(cpu) {
        return Err(HypervisorError::NotSupported);
    }
    if !is_enabled_in_firmware(cpu) {
        return Err(HypervisorError::NotSupported);
    }
    let _revision = vmcs_revision_id(cpu);
    let _vmxon_frame = match alloc.allocate_frame() {
        Some(f) => f,
        None => {
            return Err(HypervisorError::OutOfMemory);
        },
    };
    if !cpu.enable_ok {
        return Err(HypervisorError::InitializationFailed);
    }
    Ok(())
}

/// What `init` returns for a given snapshot and frame budget.
pub open spec fn spec_init_result(cpu: CpuInfo, frames: nat) -> crate::Result<()> {
    if !(spec_is_available(cpu) && spec_is_enabled_in_firmware(cpu)) {
        Err(HypervisorError::NotSupported)
    } else if frames == 0 {
        Err(HypervisorError::OutOfMemory)
    } else if !cpu.enable_ok {
        Err(HypervisorError::InitializationFailed)
    } else {
        Ok(())
    }
}

} // verus!
