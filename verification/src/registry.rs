//! The VM and VCPU registry: the higher-level tracker that owns the VM
//! control blocks and the VCPUs, and delegates every lifecycle operation
//! to them.
//!
//! The three hypervisor modes each own one registry; their mode-specific
//! policy (capacity numbers, unsupported operations) wraps these
//! operations without reimplementing them.

use vstd::prelude::*;
use crate::{HypervisorError, IdCounter};
use crate::arch::CpuInfo;
use crate::arch::x86_64::{spec_detect_virt_tech, spec_event_injection};
use crate::memory::FrameAllocator;
use crate::vcpu::{resume_post, run_post, Vcpu, VcpuConfig, VcpuExit, VcpuId, VcpuRegs, VcpuState};
use crate::vm::{MemoryRegion, Vm, VmConfig, VmId, VmState};

verus! {

/// The index of the first VM with the given ID at or after `i`, or a
/// negative value when there is none.
pub open spec fn find_vm_from(s: Seq<Vm>, id: VmId, i: int) -> int
    decreases s.len() - i,
{
    if i < 0 || i >= s.len() {
        -1
    } else if s[i].spec_id() == id {
        i
    } else {
        find_vm_from(s, id, i + 1)
    }
}

/// The index of the first VM with the given ID, or a negative value.
pub open spec fn find_vm(s: Seq<Vm>, id: VmId) -> int {
    find_vm_from(s, id, 0)
}

/// The index of the first VCPU with the given ID at or after `i`, or a
/// negative value when there is none.
pub open spec fn find_vcpu_from(s: Seq<Vcpu>, id: VcpuId, i: int) -> int
    decreases s.len() - i,
{
    if i < 0 || i >= s.len() {
        -1
    } else if s[i].spec_id() == id {
        i
    } else {
        find_vcpu_from(s, id, i + 1)
    }
}

/// The index of the first VCPU with the given ID, or a negative value.
pub open spec fn find_vcpu(s: Seq<Vcpu>, id: VcpuId) -> int {
    find_vcpu_from(s, id, 0)
}

/// The registry of VMs and VCPUs.
pub struct VmRegistry {
    vms: Vec<Vm>,
    vcpus: Vec<Vcpu>,
}

/// Everything except the VM at `idx` is untouched.
pub open spec fn vm_op_frame(pre: VmRegistry, post: VmRegistry, idx: int) -> bool {
    &&& post.spec_vms().len() == pre.spec_vms().len()
    &&& forall|j: int| 0 <= j < pre.spec_vms().len() && j != idx
        ==> post.spec_vms()[j] == pre.spec_vms()[j]
    &&& post.spec_vcpus() == pre.spec_vcpus()
}

/// Everything except the VCPU at `idx` is untouched.
pub open spec fn vcpu_op_frame(pre: VmRegistry, post: VmRegistry, idx: int) -> bool {
    &&& post.spec_vcpus().len() == pre.spec_vcpus().len()
    &&& forall|j: int| 0 <= j < pre.spec_vcpus().len() && j != idx
        ==> post.spec_vcpus()[j] == pre.spec_vcpus()[j]
    &&& post.spec_vms() == pre.spec_vms()
}

/// What creating a VM guarantees: on success a fresh, stopped VM with the
/// allocated ID and the given configuration is appended; on failure
/// (`NotSupported` without hardware support, `OutOfMemory` without a
/// frame for the translation root) the registry is unchanged.
pub open spec fn create_vm_post(
    pre: VmRegistry,
    post: VmRegistry,
    config: VmConfig,
    cpu: CpuInfo,
    pre_frames: nat,
    new_id: VmId,
    r: crate::Result<VmId>,
) -> bool {
    &&& post.spec_vcpus() == pre.spec_vcpus()
    &&& if spec_detect_virt_tech(cpu) is Err {
        r == crate::Result::<VmId>::Err(HypervisorError::NotSupported) && post.spec_vms()
            == pre.spec_vms()
    } else if pre_frames == 0 {
        r == crate::Result::<VmId>::Err(HypervisorError::OutOfMemory) && post.spec_vms()
            == pre.spec_vms()
    } else {
        &&& r == crate::Result::<VmId>::Ok(new_id)
        &&& post.spec_vms().len() == pre.spec_vms().len() + 1
        &&& forall|j: int| 0 <= j < pre.spec_vms().len() ==> post.spec_vms()[j]
            == pre.spec_vms()[j]
        &&& post.spec_vms().last().spec_id() == new_id
        &&& post.spec_vms().last().spec_state() == VmState::Stopped
        &&& post.spec_vms().last().spec_config() == config
        &&& post.spec_vms().last().spec_vcpu_ids().len() == 0
        &&& post.spec_vms().last().spec_regions().len() == 0
    }
}

/// What destroying a VM guarantees: the first VM with the ID is removed,
/// or the lookup miss is reported and nothing changes.
pub open spec fn destroy_vm_post(
    pre: VmRegistry,
    post: VmRegistry,
    vm_id: VmId,
    r: crate::Result<()>,
) -> bool {
    let idx = find_vm(pre.spec_vms(), vm_id);
    &&& post.spec_vcpus() == pre.spec_vcpus()
    &&& if idx < 0 {
        r == crate::Result::<()>::Err(HypervisorError::InvalidVmId) && post.spec_vms()
            == pre.spec_vms()
    } else {
        r is Ok && post.spec_vms() == pre.spec_vms().remove(idx)
    }
}

/// What a lifecycle transition of a VM guarantees: the named VM makes the
/// checked transition (or reports the illegal one), everything else is
/// untouched, and a lookup miss is reported.
pub open spec fn transition_vm_post(
    pre: VmRegistry,
    post: VmRegistry,
    vm_id: VmId,
    target: VmState,
    r: crate::Result<()>,
) -> bool {
    let idx = find_vm(pre.spec_vms(), vm_id);
    if idx < 0 {
        r == crate::Result::<()>::Err(HypervisorError::InvalidVmId) && post.spec_vms()
            == pre.spec_vms() && post.spec_vcpus() == pre.spec_vcpus()
    } else {
        vm_op_frame(pre, post, idx) && crate::vm::transition_post(
            pre.spec_vms()[idx],
            post.spec_vms()[idx],
            target,
            r,
        )
    }
}

/// What mapping a region into a VM guarantees: the named VM is updated
/// exactly as `Vm::map_memory` specifies, everything else is untouched,
/// and a lookup miss is reported.
pub open spec fn map_memory_post(
    pre: VmRegistry,
    post: VmRegistry,
    vm_id: VmId,
    region: MemoryRegion,
    pre_frames: nat,
    r: crate::Result<()>,
) -> bool {
    let idx = find_vm(pre.spec_vms(), vm_id);
    if idx < 0 {
        r == crate::Result::<()>::Err(HypervisorError::InvalidVmId) && post.spec_vms()
            == pre.spec_vms() && post.spec_vcpus() == pre.spec_vcpus()
    } else {
        vm_op_frame(pre, post, idx) && crate::vm::map_memory_post(
            pre.spec_vms()[idx],
            post.spec_vms()[idx],
            region,
            pre_frames,
            r,
        )
    }
}

/// What unmapping a region from a VM guarantees, mirroring
/// `Vm::unmap_memory` for the named VM.
pub open spec fn unmap_memory_post(
    pre: VmRegistry,
    post: VmRegistry,
    vm_id: VmId,
    gpa: u64,
    size: usize,
    r: crate::Result<()>,
) -> bool {
    let idx = find_vm(pre.spec_vms(), vm_id);
    if idx < 0 {
        r == crate::Result::<()>::Err(HypervisorError::InvalidVmId) && post.spec_vms()
            == pre.spec_vms() && post.spec_vcpus() == pre.spec_vcpus()
    } else {
        vm_op_frame(pre, post, idx) && crate::vm::unmap_memory_post(
            pre.spec_vms()[idx],
            post.spec_vms()[idx],
            gpa,
            size,
            r,
        )
    }
}

/// What creating a VCPU guarantees: the named VM must exist and have room
/// under its configured cap; then a fresh, stopped VCPU with the
/// allocated ID is appended and attached to the VM.
pub open spec fn create_vcpu_post(
    pre: VmRegistry,
    post: VmRegistry,
    vm_id: VmId,
    cpu: CpuInfo,
    pre_frames: nat,
    new_id: VcpuId,
    r: crate::Result<VcpuId>,
) -> bool {
    let idx = find_vm(pre.spec_vms(), vm_id);
    if idx < 0 {
        r == crate::Result::<VcpuId>::Err(HypervisorError::InvalidVmId) && post.spec_vms()
            == pre.spec_vms() && post.spec_vcpus() == pre.spec_vcpus()
    } else if pre.spec_vms()[idx].spec_vcpu_ids().len()
        >= pre.spec_vms()[idx].spec_config().num_vcpus {
        r == crate::Result::<VcpuId>::Err(HypervisorError::MaxVcpusReached) && post.spec_vms()
            == pre.spec_vms() && post.spec_vcpus() == pre.spec_vcpus()
    } else if spec_detect_virt_tech(cpu) is Err {
        r == crate::Result::<VcpuId>::Err(HypervisorError::NotSupported) && post.spec_vms()
            == pre.spec_vms() && post.spec_vcpus() == pre.spec_vcpus()
    } else if pre_frames == 0 {
        r == crate::Result::<VcpuId>::Err(HypervisorError::OutOfMemory) && post.spec_vms()
            == pre.spec_vms() && post.spec_vcpus() == pre.spec_vcpus()
    } else {
        &&& r == crate::Result::<VcpuId>::Ok(new_id)
        &&& post.spec_vms().len() == pre.spec_vms().len()
        &&& forall|j: int| 0 <= j < pre.spec_vms().len() && j != idx ==> post.spec_vms()[j]
            == pre.spec_vms()[j]
        &&& post.spec_vms()[idx].spec_vcpu_ids() == pre.spec_vms()[idx].spec_vcpu_ids().push(
            new_id,
        )
        &&& post.spec_vms()[idx].spec_id() == pre.spec_vms()[idx].spec_id()
        &&& post.spec_vms()[idx].spec_state() == pre.spec_vms()[idx].spec_state()
        &&& post.spec_vms()[idx].spec_regions() == pre.spec_vms()[idx].spec_regions()
        &&& post.spec_vcpus().len() == pre.spec_vcpus().len() + 1
        &&& forall|j: int| 0 <= j < pre.spec_vcpus().len() ==> post.spec_vcpus()[j]
            == pre.spec_vcpus()[j]
        &&& post.spec_vcpus().last().spec_id() == new_id
        &&& post.spec_vcpus().last().spec_vm_id() == vm_id
        &&& post.spec_vcpus().last().spec_state() == VcpuState::Stopped
        &&& post.spec_vcpus().last().spec_last_exit() == VcpuExit::Unknown
    }
}

/// Whether the VCPU lookup for `(vm_id, vcpu_id)` misses: either ID is
/// unknown, or the VCPU does not belong to the VM.
pub open spec fn vcpu_lookup_miss(pre: VmRegistry, vm_id: VmId, vcpu_id: VcpuId) -> bool {
    let vmi = find_vm(pre.spec_vms(), vm_id);
    let vci = find_vcpu(pre.spec_vcpus(), vcpu_id);
    vmi < 0 || vci < 0 || pre.spec_vcpus()[vci].spec_vm_id() != vm_id
}

/// The error a VCPU lookup miss reports: the VM lookup is checked first.
pub open spec fn vcpu_lookup_err<T>(pre: VmRegistry, vm_id: VmId) -> crate::Result<T> {
    if find_vm(pre.spec_vms(), vm_id) < 0 {
        Err(HypervisorError::InvalidVmId)
    } else {
        Err(HypervisorError::InvalidVcpuId)
    }
}

/// What running a VCPU guarantees: one guest dispatch of the named VCPU —
/// a fresh run from the stopped state or a resume from the exited state,
/// each as `Vcpu` specifies — and everything else untouched.
pub open spec fn run_vcpu_post(
    pre: VmRegistry,
    post: VmRegistry,
    vm_id: VmId,
    vcpu_id: VcpuId,
    r: crate::Result<VcpuExit>,
) -> bool {
    if vcpu_lookup_miss(pre, vm_id, vcpu_id) {
        r == vcpu_lookup_err::<VcpuExit>(pre, vm_id) && post.spec_vms() == pre.spec_vms()
            && post.spec_vcpus() == pre.spec_vcpus()
    } else {
        let vci = find_vcpu(pre.spec_vcpus(), vcpu_id);
        &&& vcpu_op_frame(pre, post, vci)
        &&& if pre.spec_vcpus()[vci].spec_state() == VcpuState::Exited {
            resume_post(pre.spec_vcpus()[vci], post.spec_vcpus()[vci], r)
        } else {
            run_post(pre.spec_vcpus()[vci], post.spec_vcpus()[vci], r)
        }
    }
}

/// What reading a VCPU's registers guarantees: the named VCPU's snapshot.
pub open spec fn get_vcpu_regs_post(
    pre: VmRegistry,
    vm_id: VmId,
    vcpu_id: VcpuId,
    r: crate::Result<VcpuRegs>,
) -> bool {
    if vcpu_lookup_miss(pre, vm_id, vcpu_id) {
        r == vcpu_lookup_err::<VcpuRegs>(pre, vm_id)
    } else {
        let vci = find_vcpu(pre.spec_vcpus(), vcpu_id);
        r == crate::Result::<VcpuRegs>::Ok(pre.spec_vcpus()[vci].spec_regs())
    }
}

/// What writing a VCPU's registers guarantees: the named VCPU holds the
/// snapshot, everything else untouched.
pub open spec fn set_vcpu_regs_post(
    pre: VmRegistry,
    post: VmRegistry,
    vm_id: VmId,
    vcpu_id: VcpuId,
    regs: VcpuRegs,
    r: crate::Result<()>,
) -> bool {
    if vcpu_lookup_miss(pre, vm_id, vcpu_id) {
        r == vcpu_lookup_err::<()>(pre, vm_id) && post.spec_vms() == pre.spec_vms()
            && post.spec_vcpus() == pre.spec_vcpus()
    } else {
        let vci = find_vcpu(pre.spec_vcpus(), vcpu_id);
        &&& r is Ok
        &&& vcpu_op_frame(pre, post, vci)
        &&& post.spec_vcpus()[vci].spec_regs() == regs
        &&& post.spec_vcpus()[vci].spec_id() == pre.spec_vcpus()[vci].spec_id()
        &&& post.spec_vcpus()[vci].spec_vm_id() == pre.spec_vcpus()[vci].spec_vm_id()
        &&& post.spec_vcpus()[vci].spec_state() == pre.spec_vcpus()[vci].spec_state()
        &&& post.spec_vcpus()[vci].spec_last_exit() == pre.spec_vcpus()[vci].spec_last_exit()
    }
}

/// What injecting an interrupt guarantees: the named VCPU's execution
/// control block records the pending event, everything else untouched.
pub open spec fn inject_interrupt_post(
    pre: VmRegistry,
    post: VmRegistry,
    vm_id: VmId,
    vcpu_id: VcpuId,
    vector: u32,
    r: crate::Result<()>,
) -> bool {
    if vcpu_lookup_miss(pre, vm_id, vcpu_id) {
        r == vcpu_lookup_err::<()>(pre, vm_id) && post.spec_vms() == pre.spec_vms()
            && post.spec_vcpus() == pre.spec_vcpus()
    } else {
        let vci = find_vcpu(pre.spec_vcpus(), vcpu_id);
        &&& r is Ok
        &&& vcpu_op_frame(pre, post, vci)
        &&& post.spec_vcpus()[vci].spec_pending_interrupt() == spec_event_injection(vector)
        &&& post.spec_vcpus()[vci].spec_id() == pre.spec_vcpus()[vci].spec_id()
        &&& post.spec_vcpus()[vci].spec_vm_id() == pre.spec_vcpus()[vci].spec_vm_id()
        &&& post.spec_vcpus()[vci].spec_state() == pre.spec_vcpus()[vci].spec_state()
        &&& post.spec_vcpus()[vci].spec_regs() == pre.spec_vcpus()[vci].spec_regs()
        &&& post.spec_vcpus()[vci].spec_last_exit() == pre.spec_vcpus()[vci].spec_last_exit()
    }
}

impl VmRegistry {
    /// The tracked VMs.
    pub closed spec fn spec_vms(self) -> Seq<Vm> {
        self.vms@
    }

    /// The tracked VCPUs.
    pub closed spec fn spec_vcpus(self) -> Seq<Vcpu> {
        self.vcpus@
    }

    /// Every tracked VM and VCPU is sound.
    pub open spec fn wf(self) -> bool {
        &&& forall|i: int| 0 <= i < self.spec_vms().len() ==> (#[trigger] self.spec_vms()[i]).wf()
        &&& forall|i: int| 0 <= i < self.spec_vcpus().len() ==> (#[trigger] self.spec_vcpus()[
            i
        ]).wf()
    }

    /// An empty registry.
    pub fn new() -> (r: Self)
        ensures
            r.wf(),
            r.spec_vms().len() == 0,
            r.spec_vcpus().len() == 0,
    {
        VmRegistry { vms: Vec::new(), vcpus: Vec::new() }
    }

    /// How many VMs are tracked.
    pub fn vm_count(&self) -> (r: usize)
        ensures
            r == self.spec_vms().len(),
    {
        self.vms.len()
    }

    /// Find the index of the first tracked VM with the given ID.
    fn find_vm_index(&self, vm_id: VmId) -> (r: Option<usize>)
        ensures
            (match r {
                Some(i) => 0 <= i < self.spec_vms().len() && find_vm(self.spec_vms(), vm_id)
                    == i as int,
                None => find_vm(self.spec_vms(), vm_id) < 0,
            }),
    {
        let n = self.vms.len();
        let mut i: usize = 0;
        while i < n
            invariant
                i <= n,
                n == self.spec_vms().len(),
                find_vm(self.spec_vms(), vm_id) == find_vm_from(self.spec_vms(), vm_id, i as int),
            decreases n - i,
        {
            if self.vms[i].id() == vm_id {
                return Some(i);
            }
            i = i + 1;
        }
        None
    }

    /// Find the index of the first tracked VCPU with the given ID.
    fn find_vcpu_index(&self, vcpu_id: VcpuId) -> (r: Option<usize>)
        ensures
            (match r {
                Some(i) => 0 <= i < self.spec_vcpus().len() && find_vcpu(
                    self.spec_vcpus(),
                    vcpu_id,
                ) == i as int,
                None => find_vcpu(self.spec_vcpus(), vcpu_id) < 0,
            }),
    {
        let n = self.vcpus.len();
        let mut i: usize = 0;
        while i < n
            invariant
                i <= n,
                n == self.spec_vcpus().len(),
                find_vcpu(self.spec_vcpus(), vcpu_id) == find_vcpu_from(
                    self.spec_vcpus(),
                    vcpu_id,
                    i as int,
                ),
            decreases n - i,
        {
            if self.vcpus[i].id() == vcpu_id {
                return Some(i);
            }
            i = i + 1;
        }
        None
    }

    /// Create a new VM: allocate its ID, build its control block with a
    /// fresh translation root, complete creation into the stopped state,
    /// and track it.
    pub fn create_vm(
        &mut self,
        config: VmConfig,
        cpu: &CpuInfo,
        vm_ids: &mut IdCounter,
        alloc: &mut FrameAllocator,
    ) -> (r: crate::Result<VmId>)
        requires
            old(self).wf(),
            old(alloc).wf(),
            old(vm_ids).spec_next() < u64::MAX,
        ensures
            final(self).wf(),
            final(alloc).wf(),
            create_vm_post(
                *old(self),
                *final(self),
                config,
                *cpu,
                old(alloc).spec_remaining(),
                old(vm_ids).spec_next(),
                r,
            ),
            r is Ok ==> final(vm_ids).spec_next() == old(vm_ids).spec_next() + 1,
    {
        let vm_id = crate::vm::allocate_vm_id(vm_ids);
        let mut vm = match Vm::new(vm_id, config, cpu, alloc) {
            Ok(v) => v,
            Err(e) => {
                return Err(e);
            },
        };
        let _ = vm.transition(VmState::Stopped);
        self.vms.push(vm);
        proof {
            assert forall|i: int| 0 <= i < self.spec_vms().len() implies (
            #[trigger] self.spec_vms()[i]).wf() by {
                if i < old(self).spec_vms().len() {
                    assert(self.spec_vms()[i] == old(self).spec_vms()[i]);
                }
            }
            assert forall|i: int| 0 <= i < self.spec_vcpus().len() implies (
            #[trigger] self.spec_vcpus()[i]).wf() by {
                assert(self.spec_vcpus()[i] == old(self).spec_vcpus()[i]);
            }
        }
        Ok(vm_id)
    }

    /// Destroy a VM: stop tracking the first entry with its ID.
    pub fn destroy_vm(&mut self, vm_id: VmId) -> (r: crate::Result<()>)
        requires
            old(self).wf(),
        ensures
            final(self).wf(),
            destroy_vm_post(*old(self), *final(self), vm_id, r),
    {
        let idx = match self.find_vm_index(vm_id) {
            Some(i) => i,
            None => {
                return Err(HypervisorError::InvalidVmId);
            },
        };
        let _ = self.vms.remove(idx);
        proof {
            assert forall|i: int| 0 <= i < self.spec_vms().len() implies (
            #[trigger] self.spec_vms()[i]).wf() by {
                let i0: int = if i < idx { i } else { i + 1 };
                assert(self.spec_vms()[i] == old(self).spec_vms()[i0]);
            }
            assert forall|i: int| 0 <= i < self.spec_vcpus().len() implies (
            #[trigger] self.spec_vcpus()[i]).wf() by {
                assert(self.spec_vcpus()[i] == old(self).spec_vcpus()[i]);
            }
        }
        Ok(())
    }

    /// Move a VM to a new lifecycle state through the checked transition.
    pub fn transition_vm(&mut self, vm_id: VmId, target: VmState) -> (r: crate::Result<()>)
        requires
            old(self).wf(),
        ensures
            final(self).wf(),
            transition_vm_post(*old(self), *final(self), vm_id, target, r),
    {
        let idx = match self.find_vm_index(vm_id) {
            Some(i) => i,
            None => {
                return Err(HypervisorError::InvalidVmId);
            },
        };
        let vm = &mut self.vms[idx];
        let r = vm.transition(target);
        proof {
            assert forall|i: int| 0 <= i < self.spec_vms().len() implies (
            #[trigger] self.spec_vms()[i]).wf() by {
                if i != idx {
                    assert(self.spec_vms()[i] == old(self).spec_vms()[i]);
                }
            }
            assert forall|i: int| 0 <= i < self.spec_vcpus().len() implies (
            #[trigger] self.spec_vcpus()[i]).wf() by {
                assert(self.spec_vcpus()[i] == old(self).spec_vcpus()[i]);
            }
        }
        r
    }

    /// Map a guest physical memory region into a VM.
    pub fn map_memory(&mut self, vm_id: VmId, region: MemoryRegion, alloc: &mut FrameAllocator)
        -> (r: crate::Result<()>)
        requires
            old(self).wf(),
            old(alloc).wf(),
        ensures
            final(self).wf(),
            final(alloc).wf(),
            map_memory_post(
                *old(self),
                *final(self),
                vm_id,
                region,
                old(alloc).spec_remaining(),
                r,
            ),
    {
        let idx = match self.find_vm_index(vm_id) {
            Some(i) => i,
            None => {
                return Err(HypervisorError::InvalidVmId);
            },
        };
        let vm = &mut self.vms[idx];
        let r = vm.map_memory(region, alloc);
        proof {
            assert forall|i: int| 0 <= i < self.spec_vms().len() implies (
            #[trigger] self.spec_vms()[i]).wf() by {
                if i != idx {
                    assert(self.spec_vms()[i] == old(self).spec_vms()[i]);
                }
            }
            assert forall|i: int| 0 <= i < self.spec_vcpus().len() implies (
            #[trigger] self.spec_vcpus()[i]).wf() by {
                assert(self.spec_vcpus()[i] == old(self).spec_vcpus()[i]);
            }
        }
        r
    }

    /// Unmap a guest physical memory region from a VM.
    pub fn unmap_memory(&mut self, vm_id: VmId, gpa: u64, size: usize) -> (r: crate::Result<()>)
        requires
            old(self).wf(),
        ensures
            final(self).wf(),
            unmap_memory_post(*old(self), *final(self), vm_id, gpa, size, r),
    {
        let idx = match self.find_vm_index(vm_id) {
            Some(i) => i,
            None => {
                return Err(HypervisorError::InvalidVmId);
            },
        };
        let vm = &mut self.vms[idx];
        let r = vm.unmap_memory(gpa, size);
        proof {
            assert forall|i: int| 0 <= i < self.spec_vms().len() implies (
            #[trigger] self.spec_vms()[i]).wf() by {
                if i != idx {
                    assert(self.spec_vms()[i] == old(self).spec_vms()[i]);
                }
            }
            assert forall|i: int| 0 <= i < self.spec_vcpus().len() implies (
            #[trigger] self.spec_vcpus()[i]).wf() by {
                assert(self.spec_vcpus()[i] == old(self).spec_vcpus()[i]);
            }
        }
        r
    }

    /// Create a VCPU for a VM: enforce the VM's configured cap, allocate
    /// the ID, build the VCPU with its execution control block, attach it
    /// to the VM and track it.
    pub fn create_vcpu(
        &mut self,
        vm_id: VmId,
        config: VcpuConfig,
        cpu: &CpuInfo,
        vcpu_ids: &mut IdCounter,
        alloc: &mut FrameAllocator,
    ) -> (r: crate::Result<VcpuId>)
        requires
            old(self).wf(),
            old(alloc).wf(),
            old(vcpu_ids).spec_next() < u64::MAX,
        ensures
            final(self).wf(),
            final(alloc).wf(),
            create_vcpu_post(
                *old(self),
                *final(self),
                vm_id,
                *cpu,
                old(alloc).spec_remaining(),
                old(vcpu_ids).spec_next(),
                r,
            ),
    {
        let idx = match self.find_vm_index(vm_id) {
            Some(i) => i,
            None => {
                return Err(HypervisorError::InvalidVmId);
            },
        };
        if self.vms[idx].vcpu_ids().len() >= self.vms[idx].config().num_vcpus {
            return Err(HypervisorError::MaxVcpusReached);
        }
        let vcpu_id = crate::vcpu::allocate_vcpu_id(vcpu_ids);
        let vcpu = match Vcpu::new(vcpu_id, vm_id, config, cpu, alloc) {
            Ok(v) => v,
            Err(e) => {
                return Err(e);
            },
        };
        let vm = &mut self.vms[idx];
        let added = vm.add_vcpu(vcpu_id);
        proof {
            assert(added is Ok);
        }
        self.vcpus.push(vcpu);
        proof {
            assert forall|i: int| 0 <= i < self.spec_vms().len() implies (
            #[trigger] self.spec_vms()[i]).wf() by {
                if i != idx {
                    assert(self.spec_vms()[i] == old(self).spec_vms()[i]);
                }
            }
            assert forall|i: int| 0 <= i < self.spec_vcpus().len() implies (
            #[trigger] self.spec_vcpus()[i]).wf() by {
                if i < old(self).spec_vcpus().len() {
                    assert(self.spec_vcpus()[i] == old(self).spec_vcpus()[i]);
                }
            }
        }
        Ok(vcpu_id)
    }

    /// Run a VCPU until the next VM exit: a stopped VCPU is dispatched
    /// fresh, an exited one is resumed, anything else is an illegal
    /// transition.
    pub fn run_vcpu(&mut self, vm_id: VmId, vcpu_id: VcpuId) -> (r: crate::Result<VcpuExit>)
        requires
            old(self).wf(),
        ensures
            final(self).wf(),
            run_vcpu_post(*old(self), *final(self), vm_id, vcpu_id, r),
    {
        let vci = match self.lookup_vcpu(vm_id, vcpu_id) {
            Ok(i) => i,
            Err(e) => {
                return Err(e);
            },
        };
        let vcpu = &mut self.vcpus[vci];
        if matches!(vcpu.state(), VcpuState::Exited) {
            vcpu.resume()
        } else {
            vcpu.run()
        }
    }

    /// Get a VCPU's register snapshot.
    pub fn get_vcpu_regs(&self, vm_id: VmId, vcpu_id: VcpuId) -> (r: crate::Result<VcpuRegs>)
        ensures
            get_vcpu_regs_post(*self, vm_id, vcpu_id, r),
    {
        let vci = match self.lookup_vcpu(vm_id, vcpu_id) {
            Ok(i) => i,
            Err(e) => {
                return Err(e);
            },
        };
        Ok(*self.vcpus[vci].regs())
    }

    /// Set a VCPU's register snapshot.
    pub fn set_vcpu_regs(&mut self, vm_id: VmId, vcpu_id: VcpuId, regs: &VcpuRegs) -> (r:
        crate::Result<()>)
        requires
            old(self).wf(),
        ensures
            final(self).wf(),
            set_vcpu_regs_post(*old(self), *final(self), vm_id, vcpu_id, *regs, r),
    {
        let vci = match self.lookup_vcpu(vm_id, vcpu_id) {
            Ok(i) => i,
            Err(e) => {
                return Err(e);
            },
        };
        let vcpu = &mut self.vcpus[vci];
        vcpu.set_regs(*regs);
        Ok(())
    }

    /// Record an external interrupt for injection into a VCPU's next
    /// guest entry.
    pub fn inject_interrupt(&mut self, vm_id: VmId, vcpu_id: VcpuId, vector: u32) -> (r:
        crate::Result<()>)
        requires
            old(self).wf(),
        ensures
            final(self).wf(),
            inject_interrupt_post(*old(self), *final(self), vm_id, vcpu_id, vector, r),
    {
        let vci = match self.lookup_vcpu(vm_id, vcpu_id) {
            Ok(i) => i,
            Err(e) => {
                return Err(e);
            },
        };
        let vcpu = &mut self.vcpus[vci];
        vcpu.inject_interrupt(vector)
    }

    /// Resolve a `(vm_id, vcpu_id)` pair to the VCPU's index, reporting
    /// the VM lookup miss first and requiring the VCPU to belong to the
    /// VM.
    fn lookup_vcpu(&self, vm_id: VmId, vcpu_id: VcpuId) -> (r: crate::Result<usize>)
        ensures
            (if vcpu_lookup_miss(*self, vm_id, vcpu_id) {
                r == vcpu_lookup_err::<usize>(*self, vm_id)
            } else {
                r matches Ok(i) && 0 <= i < self.spec_vcpus().len() && find_vcpu(
                    self.spec_vcpus(),
                    vcpu_id,
                ) == i as int
            }),
    {
        if self.find_vm_index(vm_id).is_none() {
            return Err(HypervisorError::InvalidVmId);
        }
        let vci = match self.find_vcpu_index(vcpu_id) {
            Some(i) => i,
            None => {
                return Err(HypervisorError::InvalidVcpuId);
            },
        };
        if self.vcpus[vci].vm_id() != vm_id {
            return Err(HypervisorError::InvalidVcpuId);
        }
        Ok(vci)
    }
}

} // verus!
