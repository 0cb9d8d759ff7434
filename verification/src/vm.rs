//! Virtual machine management: the VM control block, its memory regions
//! and its lifecycle.

use vstd::prelude::*;
use crate::{HypervisorError, IdCounter};
use crate::arch::{ArchVmData, CpuInfo};
use crate::arch::x86_64::spec_detect_virt_tech;
use crate::memory::{FrameAllocator, PHYS_LIMIT};
use crate::translation::{same_slot, GPA_LIMIT};

verus! {

/// VM ID type.
pub type VmId = u64;

/// VM state.
#[derive(Debug, Clone, Copy, PartialEq, Eq, Structural)]
pub enum VmState {
    /// VM is being created.
    Creating,
    /// VM is stopped.
    Stopped,
    /// VM is running.
    Running,
    /// VM is paused.
    Paused,
    /// VM is being destroyed.
    Destroying,
}

impl VmState {
    /// The state a stored tag denotes; unassigned tags fall back to
    /// stopped.
    pub open spec fn spec_from_u8(val: u8) -> VmState {
        if val == 0 {
            VmState::Creating
        } else if val == 1 {
            VmState::Stopped
        } else if val == 2 {
            VmState::Running
        } else if val == 3 {
            VmState::Paused
        } else if val == 4 {
            VmState::Destroying
        } else {
            VmState::Stopped
        }
    }

    /// The tag a state is stored as.
    pub fn as_u8(self) -> (r: u8)
        ensures
            VmState::spec_from_u8(r) == self,
    {
        match self {
            VmState::Creating => 0,
            VmState::Stopped => 1,
            VmState::Running => 2,
            VmState::Paused => 3,
            VmState::Destroying => 4,
        }
    }
}

impl From<u8> for VmState {
    /// Decode a stored state tag.
    fn from(val: u8) -> (r: Self) {
        if val == 0 {
            VmState::Creating
        } else if val == 1 {
            VmState::Stopped
        } else if val == 2 {
            VmState::Running
        } else if val == 3 {
            VmState::Paused
        } else if val == 4 {
            VmState::Destroying
        } else {
            VmState::Stopped
        }
    }
}

impl vstd::std_specs::convert::FromSpecImpl<u8> for VmState {
    open spec fn obeys_from_spec() -> bool {
        true
    }

    open spec fn from_spec(val: u8) -> Self {
        VmState::spec_from_u8(val)
    }
}

/// VM configuration.
#[derive(Debug, Clone)]
pub struct VmConfig {
    /// Number of virtual CPUs.
    pub num_vcpus: usize,
    /// Guest physical memory size in bytes.
    pub memory_size: usize,
    /// VM name, zero-padded.
    pub name: [u8; 64],
}

impl Default for VmConfig {
    /// One VCPU and 128 MiB of guest memory.
    fn default() -> (r: Self)
        ensures
            r.num_vcpus == 1,
            r.memory_size == 0x800_0000,
            forall|i: int| 0 <= i < 64 ==> r.name@[i] == 0,
    {
        VmConfig { num_vcpus: 1, memory_size: 128 * 1024 * 1024, name: [0; 64] }
    }
}

/// Memory region flags: a small bitset over the permission and memory-type
/// bits below.
#[derive(Debug, Clone, Copy, PartialEq, Eq, Structural)]
pub struct MemoryFlags {
    /// The raw bits.
    pub bits: u32,
}

/// Bit for a readable region.
pub const MEMORY_READ: u32 = 1;
/// Bit for a writable region.
pub const MEMORY_WRITE: u32 = 2;
/// Bit for an executable region.
pub const MEMORY_EXEC: u32 = 4;
/// Bit for a device memory region.
pub const MEMORY_DEVICE: u32 = 8;
/// Bit for a region using write-back caching.
pub const MEMORY_CACHED: u32 = 16;

impl MemoryFlags {
    /// The value of the bitset.
    pub open spec fn spec_bits(self) -> u32 {
        self.bits
    }

    /// The empty bitset.
    pub fn empty() -> (r: Self)
        ensures
            r.spec_bits() == 0,
    {
        MemoryFlags { bits: 0 }
    }

    /// Build a bitset from raw bits.
    pub fn from_bits(bits: u32) -> (r: Self)
        ensures
            r.spec_bits() == bits,
    {
        MemoryFlags { bits }
    }

    /// The raw bits.
    pub fn bits(self) -> (r: u32)
        ensures
            r == self.spec_bits(),
    {
        self.bits
    }

    /// Whether every bit of `other` is set in `self`.
    pub fn contains(self, other: Self) -> (r: bool)
        ensures
            r == (self.spec_bits() & other.spec_bits() == other.spec_bits()),
    {
        self.bits & other.bits == other.bits
    }

    /// The union of the two bitsets.
    pub fn union(self, other: Self) -> (r: Self)
        ensures
            r.spec_bits() == self.spec_bits() | other.spec_bits(),
    {
        MemoryFlags { bits: self.bits | other.bits }
    }
}

/// Guest physical memory region.
#[derive(Debug, Clone, Copy, PartialEq, Eq, Structural)]
pub struct MemoryRegion {
    /// Guest physical address.
    pub gpa: u64,
    /// Host physical address.
    pub hpa: u64,
    /// Size in bytes.
    pub size: usize,
    /// Memory flags.
    pub flags: MemoryFlags,
}

impl MemoryRegion {
    /// How many whole frames the region covers.
    pub open spec fn spec_pages(self) -> int {
        (self.size + 4095) / 4096
    }

    /// A region is sound when it is frame-aligned, not empty, and stays
    /// inside the guest and host address spaces.
    pub open spec fn wf(self) -> bool {
        &&& self.gpa % 4096 == 0
        &&& self.hpa % 4096 == 0
        &&& self.size > 0
        &&& self.size + 4095 <= usize::MAX
        &&& self.gpa + self.spec_pages() * 4096 <= GPA_LIMIT
        &&& self.hpa + self.spec_pages() * 4096 <= PHYS_LIMIT
    }

    /// Check the region's soundness at run time.
    pub fn validate(&self) -> (r: bool)
        ensures
            r == self.wf(),
    {
        if self.gpa % 4096 != 0 || self.hpa % 4096 != 0 {
            return false;
        }
        if self.size == 0 || self.size > usize::MAX - 4095 {
            return false;
        }
        let pages: usize = (self.size + 4095) / 4096;
        proof {
            assert(pages * 4096 >= 0 && pages * 4096 <= self.size + 4095) by (nonlinear_arith)
                requires pages == (self.size + 4095) / 4096,
            ;
        }
        let span: u64 = (pages as u64) * 4096;
        if span > GPA_LIMIT || self.gpa > GPA_LIMIT - span {
            return false;
        }
        if span > PHYS_LIMIT || self.hpa > PHYS_LIMIT - span {
            return false;
        }
        true
    }
}

/// Whether two memory regions overlap in guest physical space.
pub open spec fn spec_regions_overlap(a: MemoryRegion, b: MemoryRegion) -> bool {
    a.gpa < b.gpa + b.size && b.gpa < a.gpa + a.size
}

/// Check if two memory regions overlap.
pub fn regions_overlap(a: &MemoryRegion, b: &MemoryRegion) -> (r: bool)
    requires
        a.gpa + a.size <= u64::MAX,
        b.gpa + b.size <= u64::MAX,
    ensures
        r == spec_regions_overlap(*a, *b),
{
    let a_end = a.gpa + a.size as u64;
    let b_end = b.gpa + b.size as u64;
    a.gpa < b_end && b.gpa < a_end
}

/// Two regions on disjoint address ranges never overlap, and two
/// overlapping ranges are never disjoint: the order test and the overlap
/// test are each other's negation for non-empty regions.
pub proof fn lemma_disjoint_iff_no_overlap(a: MemoryRegion, b: MemoryRegion)
    requires
        a.size > 0,
        b.size > 0,
    ensures
        (a.gpa + a.size <= b.gpa || b.gpa + b.size <= a.gpa) <==> !spec_regions_overlap(a, b),
{
}

/// Every region in the sequence is sound and no two of them overlap.
pub open spec fn regions_wf(regions: Seq<MemoryRegion>) -> bool {
    &&& forall|i: int| 0 <= i < regions.len() ==> (#[trigger] regions[i]).wf()
    &&& forall|i: int, j: int| 0 <= i < regions.len() && 0 <= j < regions.len() && i != j
        ==> !spec_regions_overlap(#[trigger] regions[i], #[trigger] regions[j])
}

/// Mapping a pair of regions into the same VM: a sound pair on disjoint
/// address ranges passes the overlap check twice over (first `a` against
/// the recorded regions, then `b` against them with `a` recorded), so both
/// maps are accepted; an overlapping pair leaves a recorded region that
/// overlaps `b`, which is exactly the condition under which the second map
/// is rejected with `InvalidMemoryRegion`.
pub proof fn lemma_region_pair(regions: Seq<MemoryRegion>, a: MemoryRegion, b: MemoryRegion)
    requires
        regions_wf(regions),
        a.wf(),
        b.wf(),
        forall|i: int| 0 <= i < regions.len() ==> !spec_regions_overlap(
            #[trigger] regions[i],
            a,
        ),
        forall|i: int| 0 <= i < regions.len() ==> !spec_regions_overlap(
            #[trigger] regions[i],
            b,
        ),
    ensures
        regions_wf(regions.push(a)),
        (a.gpa + a.size <= b.gpa || b.gpa + b.size <= a.gpa) ==> forall|i: int|
            0 <= i < regions.push(a).len() ==> !spec_regions_overlap(
                #[trigger] regions.push(a)[i],
                b,
            ),
        spec_regions_overlap(a, b) ==> exists|i: int| 0 <= i < regions.push(a).len()
            && spec_regions_overlap(#[trigger] regions.push(a)[i], b),
{
    let pushed = regions.push(a);
    assert forall|i: int, j: int|
        0 <= i < pushed.len() && 0 <= j < pushed.len() && i != j implies !spec_regions_overlap(
        #[trigger] pushed[i],
        #[trigger] pushed[j],
    ) by {
        if i < regions.len() && j < regions.len() {
            assert(!spec_regions_overlap(regions[i], regions[j]));
        } else if i < regions.len() {
            assert(pushed[j] == a);
            assert(!spec_regions_overlap(regions[i], a));
        } else {
            assert(pushed[i] == a);
            assert(!spec_regions_overlap(regions[j], a));
        }
    }
    if spec_regions_overlap(a, b) {
        assert(pushed[regions.len() as int] == a);
    }
}

/// The legal VM state transitions: creation completes into stopped, only
/// a stopped VM starts running, running and paused alternate, and
/// destroying is reachable from any non-terminal state and is terminal.
pub open spec fn spec_legal_transition(from: VmState, to: VmState) -> bool {
    match to {
        VmState::Creating => false,
        VmState::Stopped => from == VmState::Creating || from == VmState::Running,
        VmState::Running => from == VmState::Stopped || from == VmState::Paused,
        VmState::Paused => from == VmState::Running,
        VmState::Destroying => from != VmState::Destroying,
    }
}

/// What `Vm::transition` guarantees: a legal transition lands in the
/// target state, an illegal one is rejected and changes nothing, and
/// everything but the state is untouched either way.
pub open spec fn transition_post(pre: Vm, post: Vm, target: VmState, r: crate::Result<()>) -> bool {
    &&& post.spec_id() == pre.spec_id()
    &&& post.spec_config() == pre.spec_config()
    &&& post.spec_vcpu_ids() == pre.spec_vcpu_ids()
    &&& post.spec_regions() == pre.spec_regions()
    &&& forall|g: u64| #[trigger] post.translate_spec(g) == pre.translate_spec(g)
    &&& if spec_legal_transition(pre.spec_state(), target) {
        r is Ok && post.spec_state() == target
    } else {
        r == crate::Result::<()>::Err(HypervisorError::ArchError(2)) && post == pre
    }
}

/// What `Vm::add_vcpu` guarantees.
pub open spec fn add_vcpu_post(pre: Vm, post: Vm, vcpu_id: u64, r: crate::Result<()>) -> bool {
    &&& post.spec_id() == pre.spec_id()
    &&& post.spec_state() == pre.spec_state()
    &&& post.spec_config() == pre.spec_config()
    &&& post.spec_regions() == pre.spec_regions()
    &&& if pre.spec_vcpu_ids().len() < pre.spec_config().num_vcpus {
        r is Ok && post.spec_vcpu_ids() == pre.spec_vcpu_ids().push(vcpu_id)
    } else {
        r == crate::Result::<()>::Err(HypervisorError::MaxVcpusReached) && post == pre
    }
}

/// What `Vm::map_memory` guarantees, relating the VM before the call
/// (with `pre_frames` frames then available) to the VM after it.
pub open spec fn map_memory_post(
    pre: Vm,
    post: Vm,
    region: MemoryRegion,
    pre_frames: nat,
    r: crate::Result<()>,
) -> bool {
    &&& post.wf()
    &&& post.spec_id() == pre.spec_id()
    &&& post.spec_state() == pre.spec_state()
    &&& post.spec_config() == pre.spec_config()
    &&& post.spec_vcpu_ids() == pre.spec_vcpu_ids()
    &&& (r == crate::Result::<()>::Err(HypervisorError::InvalidMemoryRegion) <==> !(region.wf()
        && (forall|i: int| 0 <= i < pre.spec_regions().len() ==> !spec_regions_overlap(
            #[trigger] pre.spec_regions()[i],
            region,
        ))))
    &&& (r is Err ==> r == crate::Result::<()>::Err(HypervisorError::InvalidMemoryRegion) || r
        == crate::Result::<()>::Err(HypervisorError::OutOfMemory))
    &&& (r is Err ==> post.spec_regions() == pre.spec_regions())
    &&& (r == crate::Result::<()>::Err(HypervisorError::InvalidMemoryRegion) ==> forall|g: u64|
        #[trigger] post.translate_spec(g) == pre.translate_spec(g))
    &&& (region.wf() && (forall|i: int| 0 <= i < pre.spec_regions().len()
        ==> !spec_regions_overlap(#[trigger] pre.spec_regions()[i], region)) && pre_frames >= 3
        * region.spec_pages() ==> r is Ok)
    &&& (r is Ok ==> post.spec_regions() == pre.spec_regions().push(region))
    &&& (r is Ok && region.flags.spec_bits() & 1 != 0 ==> forall|k: int|
        0 <= k < region.spec_pages() ==> #[trigger] post.translate_spec(
            (region.gpa + k * 4096) as u64,
        ) == Some((region.hpa + k * 4096) as u64))
    &&& (forall|g: u64|
        (forall|k: int| 0 <= k < region.spec_pages() ==> !(#[trigger] same_slot(
            g,
            (region.gpa + k * 4096) as u64,
        ))) ==> #[trigger] post.translate_spec(g) == pre.translate_spec(g))
}

/// What `Vm::unmap_memory` guarantees.
pub open spec fn unmap_memory_post(
    pre: Vm,
    post: Vm,
    gpa: u64,
    size: usize,
    r: crate::Result<()>,
) -> bool {
    &&& post.wf()
    &&& post.spec_id() == pre.spec_id()
    &&& post.spec_state() == pre.spec_state()
    &&& post.spec_config() == pre.spec_config()
    &&& post.spec_vcpu_ids() == pre.spec_vcpu_ids()
    &&& (r is Ok <==> exists|i: int| 0 <= i < pre.spec_regions().len()
        && (#[trigger] pre.spec_regions()[i]).gpa == gpa && pre.spec_regions()[i].size == size)
    &&& (r is Err ==> r == crate::Result::<()>::Err(HypervisorError::InvalidMemoryRegion) && post
        == pre)
    &&& (r is Ok ==> exists|i: int|
        {
            &&& 0 <= i < pre.spec_regions().len()
            &&& (#[trigger] pre.spec_regions()[i]).gpa == gpa
            &&& pre.spec_regions()[i].size == size
            &&& post.spec_regions() == pre.spec_regions().remove(i)
            &&& forall|k: int| 0 <= k < pre.spec_regions()[i].spec_pages()
                ==> #[trigger] post.translate_spec((gpa + k * 4096) as u64) is None
            &&& forall|g: u64|
                (forall|k: int| 0 <= k < pre.spec_regions()[i].spec_pages() ==> !(
                #[trigger] same_slot(g, (gpa + k * 4096) as u64))) ==> #[trigger] post
                    .translate_spec(g) == pre.translate_spec(g)
        })
}

/// VM control block: one virtual machine instance.
pub struct Vm {
    id: VmId,
    state: VmState,
    config: VmConfig,
    vcpu_ids: Vec<u64>,
    memory_regions: Vec<MemoryRegion>,
    arch_data: ArchVmData,
}

impl Vm {
    /// The VM's ID.
    pub closed spec fn spec_id(self) -> VmId {
        self.id
    }

    /// The VM's current state.
    pub closed spec fn spec_state(self) -> VmState {
        self.state
    }

    /// The VM's configuration.
    pub closed spec fn spec_config(self) -> VmConfig {
        self.config
    }

    /// The IDs of the VCPUs attached to this VM.
    pub closed spec fn spec_vcpu_ids(self) -> Seq<u64> {
        self.vcpu_ids@
    }

    /// The guest physical memory regions mapped into this VM.
    pub closed spec fn spec_regions(self) -> Seq<MemoryRegion> {
        self.memory_regions@
    }

    /// The host physical address a guest physical address translates to
    /// through the VM's second-level table.
    pub closed spec fn translate_spec(self, gpa: u64) -> Option<u64> {
        self.arch_data.translate_spec(gpa)
    }

    /// The VM's invariant: the translation table is sound, every region is
    /// sound, the regions are pairwise non-overlapping, and the VCPU count
    /// respects the configured cap.
    pub closed spec fn wf(self) -> bool {
        &&& self.arch_data.wf()
        &&& regions_wf(self.memory_regions@)
        &&& self.vcpu_ids@.len() <= self.config.num_vcpus
    }

    /// Create a new VM in the creating state, owning a fresh second-level
    /// translation table.
    pub fn new(id: VmId, config: VmConfig, cpu: &CpuInfo, alloc: &mut FrameAllocator) -> (r:
        crate::Result<Self>)
        requires
            old(alloc).wf(),
        ensures
            final(alloc).wf(),
            spec_detect_virt_tech(*cpu) is Err ==> r == crate::Result::<Self>::Err(
                HypervisorError::NotSupported,
            ),
            spec_detect_virt_tech(*cpu) is Ok && old(alloc).spec_remaining() == 0 ==> r
                == crate::Result::<Self>::Err(HypervisorError::OutOfMemory),
            spec_detect_virt_tech(*cpu) is Ok && old(alloc).spec_remaining() > 0 ==> {
                &&& r is Ok
                &&& r matches Ok(vm) && vm.wf() && vm.spec_id() == id && vm.spec_state()
                    == VmState::Creating && vm.spec_vcpu_ids().len() == 0
                    && vm.spec_regions().len() == 0 && vm.spec_config() == config
                    && (forall|g: u64| #[trigger] vm.translate_spec(g) is None)
                &&& final(alloc).spec_remaining() == old(alloc).spec_remaining() - 1
            },
    {
        let arch_data = match ArchVmData::new(cpu, alloc) {
            Ok(d) => d,
            Err(e) => {
                return Err(e);
            },
        };
        let vm = Vm {
            id,
            state: VmState::Creating,
            config,
            vcpu_ids: Vec::new(),
            memory_regions: Vec::new(),
            arch_data,
        };
        proof {
            assert forall|g: u64| #[trigger] vm.translate_spec(g) is None by {
                assert(vm.arch_data.lookup(g) is None);
            }
        }
        Ok(vm)
    }

    /// Get the VM ID.
    pub fn id(&self) -> (r: VmId)
        ensures
            r == self.spec_id(),
    {
        self.id
    }

    /// Get the current VM state.
    pub fn state(&self) -> (r: VmState)
        ensures
            r == self.spec_state(),
    {
        self.state
    }

    /// Set the VM state.
    pub fn set_state(&mut self, state: VmState)
        ensures
            final(self).spec_state() == state,
            final(self).wf() == old(self).wf(),
            final(self).spec_id() == old(self).spec_id(),
            final(self).spec_config() == old(self).spec_config(),
            final(self).spec_vcpu_ids() == old(self).spec_vcpu_ids(),
            final(self).spec_regions() == old(self).spec_regions(),
            forall|g: u64| #[trigger] final(self).translate_spec(g) == old(self).translate_spec(
                g,
            ),
    {
        self.state = state;
    }

    /// Move to a new lifecycle state, enforcing the legal transition
    /// order; an illegal transition is an architecture-level error and
    /// changes nothing.
    pub fn transition(&mut self, target: VmState) -> (r: crate::Result<()>)
        requires
            old(self).wf(),
        ensures
            final(self).wf(),
            transition_post(*old(self), *final(self), target, r),
    {
        let legal = match target {
            VmState::Creating => false,
            VmState::Stopped => matches!(self.state, VmState::Creating | VmState::Running),
            VmState::Running => matches!(self.state, VmState::Stopped | VmState::Paused),
            VmState::Paused => matches!(self.state, VmState::Running),
            VmState::Destroying => !matches!(self.state, VmState::Destroying),
        };
        if !legal {
            return Err(HypervisorError::ArchError(2));
        }
        self.state = target;
        Ok(())
    }

    /// Get the VM configuration.
    pub fn config(&self) -> (r: &VmConfig)
        ensures
            *r == self.spec_config(),
    {
        &self.config
    }

    /// Add a VCPU to this VM.
    ///
    /// Fails with `MaxVcpusReached` exactly when the configured VCPU count
    /// is already reached.
    pub fn add_vcpu(&mut self, vcpu_id: u64) -> (r: crate::Result<()>)
        requires
            old(self).wf(),
        ensures
            final(self).wf(),
            add_vcpu_post(*old(self), *final(self), vcpu_id, r),
    {
        if self.vcpu_ids.len() >= self.config.num_vcpus {
            return Err(HypervisorError::MaxVcpusReached);
        }
        self.vcpu_ids.push(vcpu_id);
        Ok(())
    }

    /// Get the VCPU IDs.
    pub fn vcpu_ids(&self) -> (r: &Vec<u64>)
        ensures
            r@ == self.spec_vcpu_ids(),
    {
        &self.vcpu_ids
    }

    /// Map a guest physical memory region.
    ///
    /// An unsound region or one that overlaps an existing region is
    /// rejected with `InvalidMemoryRegion` and nothing changes. Otherwise
    /// the region is mapped page by page into the second-level table and
    /// recorded; the map fails with `OutOfMemory` only when the frame
    /// allocator cannot supply the table nodes, and then no region is
    /// recorded.
    pub fn map_memory(&mut self, region: MemoryRegion, alloc: &mut FrameAllocator) -> (r:
        crate::Result<()>)
        requires
            old(self).wf(),
            old(alloc).wf(),
        ensures
            final(alloc).wf(),
            map_memory_post(
                *old(self),
                *final(self),
                region,
                old(alloc).spec_remaining(),
                r,
            ),
    {
        if !region.validate() {
            return Err(HypervisorError::InvalidMemoryRegion);
        }
        let n = self.memory_regions.len();
        let mut i: usize = 0;
        while i < n
            invariant
                self == old(self),
                alloc == old(alloc),
                old(alloc).wf(),
                self.wf(),
                region.wf(),
                n == self.memory_regions@.len(),
                i <= n,
                forall|j: int| 0 <= j < i ==> !spec_regions_overlap(
                    #[trigger] self.memory_regions@[j],
                    region,
                ),
            decreases n - i,
        {
            let existing = &self.memory_regions[i];
            proof {
                assert(existing.wf());
                assert(existing.gpa + existing.spec_pages() * 4096 <= GPA_LIMIT && existing.size
                    <= existing.spec_pages() * 4096) by (nonlinear_arith)
                    requires
                        existing.wf(),
                        existing.spec_pages() == (existing.size + 4095) / 4096,
                ;
                assert(region.size <= region.spec_pages() * 4096) by (nonlinear_arith)
                    requires region.spec_pages() == (region.size + 4095) / 4096,
                ;
            }
            if regions_overlap(existing, &region) {
                proof {
                    assert(spec_regions_overlap(old(self).spec_regions()[i as int], region));
                }
                return Err(HypervisorError::InvalidMemoryRegion);
            }
            i = i + 1;
        }
        let ghost pre = *self;
        match self.arch_data.map_memory(&region, alloc) {
            Ok(()) => {},
            Err(e) => {
                proof {
                    assert forall|g: u64|
                        (forall|k: int| 0 <= k < region.spec_pages() ==> !(#[trigger] same_slot(
                            g,
                            (region.gpa + k * 4096) as u64,
                        ))) implies #[trigger] self.translate_spec(g) == pre.translate_spec(
                        g,
                    ) by {
                        assert(self.arch_data.lookup(g) == pre.arch_data.lookup(g));
                    }
                }
                return Err(e);
            },
        }
        proof {
            assert forall|g: u64|
                (forall|k: int| 0 <= k < region.spec_pages() ==> !(#[trigger] same_slot(
                    g,
                    (region.gpa + k * 4096) as u64,
                ))) implies #[trigger] self.arch_data.translate_spec(g)
                == pre.arch_data.translate_spec(g) by {
                assert(self.arch_data.lookup(g) == pre.arch_data.lookup(g));
            }
        }
        self.memory_regions.push(region);
        Ok(())
    }

    /// Unmap a guest physical memory region.
    ///
    /// The address and size must exactly match a recorded region; anything
    /// else is rejected with `InvalidMemoryRegion`. The matching region is
    /// removed and its pages are cleared from the second-level table.
    pub fn unmap_memory(&mut self, gpa: u64, size: usize) -> (r: crate::Result<()>)
        requires
            old(self).wf(),
        ensures
            unmap_memory_post(*old(self), *final(self), gpa, size, r),
    {
        let n = self.memory_regions.len();
        let mut idx: usize = 0;
        let mut found = false;
        while idx < n && !found
            invariant
                self == old(self),
                old(self).wf(),
                n == self.memory_regions@.len(),
                idx <= n,
                found ==> idx < n && (#[trigger] self.memory_regions@[idx as int]).gpa == gpa
                    && self.memory_regions@[idx as int].size == size,
                !found ==> forall|j: int| 0 <= j < idx
                    ==> !((#[trigger] self.memory_regions@[j]).gpa == gpa
                    && self.memory_regions@[j].size == size),
            decreases n - idx + (if found { 0int } else { 1int }),
        {
            let candidate = &self.memory_regions[idx];
            if candidate.gpa == gpa && candidate.size == size {
                found = true;
            } else {
                idx = idx + 1;
            }
        }
        if !found {
            return Err(HypervisorError::InvalidMemoryRegion);
        }
        let region = self.memory_regions.remove(idx);
        proof {
            assert forall|a: int, b: int|
                0 <= a < self.memory_regions@.len() && 0 <= b < self.memory_regions@.len() && a
                    != b implies !spec_regions_overlap(
                #[trigger] self.memory_regions@[a],
                #[trigger] self.memory_regions@[b],
            ) by {
                let a0: int = if a < idx {
                    a
                } else {
                    a + 1
                };
                let b0: int = if b < idx {
                    b
                } else {
                    b + 1
                };
                assert(self.memory_regions@[a] == old(self).spec_regions()[a0]);
                assert(self.memory_regions@[b] == old(self).spec_regions()[b0]);
            }
        }
        let ghost pre = *self;
        let ghost gidx = idx as int;
        let _ = self.arch_data.unmap_memory(&region);
        proof {
            assert(0 <= gidx < old(self).spec_regions().len());
            assert((#[trigger] old(self).spec_regions()[gidx]).gpa == gpa);
            assert(old(self).spec_regions()[gidx].size == size);
            assert(self.memory_regions@ == old(self).spec_regions().remove(gidx));
            assert forall|k: int| 0 <= k < old(self).spec_regions()[gidx].spec_pages()
                implies #[trigger] self.translate_spec((gpa + k * 4096) as u64) is None by {
                assert(self.arch_data.translate_spec((region.gpa + k * 4096) as u64) is None);
            }
            assert forall|g: u64|
                (forall|k: int| 0 <= k < old(self).spec_regions()[gidx].spec_pages() ==> !(
                #[trigger] same_slot(g, (gpa + k * 4096) as u64))) implies #[trigger] self
                .translate_spec(g) == pre.translate_spec(g) by {
                assert(forall|k: int| 0 <= k < region.spec_pages() ==> !(#[trigger] same_slot(
                    g,
                    (region.gpa + k * 4096) as u64,
                )));
                assert(self.arch_data.lookup(g) == pre.arch_data.lookup(g));
            }
        }
        Ok(())
    }

    /// Get the memory regions.
    pub fn memory_regions(&self) -> (r: &Vec<MemoryRegion>)
        ensures
            r@ == self.spec_regions(),
    {
        &self.memory_regions
    }
}

/// The invariant's guarantee on the recorded regions, stated for
/// callers: a sound VM's region list holds sound, pairwise
/// non-overlapping regions.
pub proof fn lemma_wf_regions(vm: Vm)
    requires
        vm.wf(),
    ensures
        regions_wf(vm.spec_regions()),
{
}

/// Allocate a new VM ID: monotonically increasing, never reused.
pub fn allocate_vm_id(counter: &mut IdCounter) -> (r: VmId)
    requires
        old(counter).spec_next() < u64::MAX,
    ensures
        r == old(counter).spec_next(),
        final(counter).spec_next() == old(counter).spec_next() + 1,
{
    counter.allocate()
}

} // verus!
