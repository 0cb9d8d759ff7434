//! Virtual CPU management: the per-VCPU state machine and execution
//! control.

use vstd::prelude::*;
use crate::{HypervisorError, IdCounter};
use crate::arch::{ArchVcpuData, CpuInfo};
use crate::arch::x86_64::spec_detect_virt_tech;
use crate::memory::FrameAllocator;
use crate::vm::VmId;

verus! {

/// VCPU ID type.
pub type VcpuId = u64;

/// VCPU state.
#[derive(Debug, Clone, Copy, PartialEq, Eq, Structural)]
pub enum VcpuState {
    /// VCPU is stopped.
    Stopped,
    /// VCPU is running guest code.
    Running,
    /// VCPU is waiting for an event.
    Waiting,
    /// VCPU has exited and waits for the exit to be handled.
    Exited,
}

impl VcpuState {
    /// The state a stored tag denotes; unassigned tags fall back to
    /// stopped.
    pub open spec fn spec_from_u8(val: u8) -> VcpuState {
        if val == 0 {
            VcpuState::Stopped
        } else if val == 1 {
            VcpuState::Running
        } else if val == 2 {
            VcpuState::Waiting
        } else if val == 3 {
            VcpuState::Exited
        } else {
            VcpuState::Stopped
        }
    }

    /// The tag a state is stored as.
    pub fn as_u8(self) -> (r: u8)
        ensures
            VcpuState::spec_from_u8(r) == self,
    {
        match self {
            VcpuState::Stopped => 0,
            VcpuState::Running => 1,
            VcpuState::Waiting => 2,
            VcpuState::Exited => 3,
        }
    }
}

impl From<u8> for VcpuState {
    /// Decode a stored state tag.
    fn from(val: u8) -> (r: Self) {
        if val == 0 {
            VcpuState::Stopped
        } else if val == 1 {
            VcpuState::Running
        } else if val == 2 {
            VcpuState::Waiting
        } else if val == 3 {
            VcpuState::Exited
        } else {
            VcpuState::Stopped
        }
    }
}

impl vstd::std_specs::convert::FromSpecImpl<u8> for VcpuState {
    open spec fn obeys_from_spec() -> bool {
        true
    }

    open spec fn from_spec(val: u8) -> Self {
        VcpuState::spec_from_u8(val)
    }
}

/// VCPU exit reason.
#[derive(Debug, Clone, Copy, PartialEq, Eq, Structural)]
pub enum VcpuExit {
    /// Unknown exit reason.
    Unknown,
    /// External interrupt.
    ExternalInterrupt,
    /// Exception, with its vector.
    Exception(u32),
    /// I/O instruction.
    Io {
        /// Port number.
        port: u16,
        /// Access size in bytes.
        size: u8,
        /// Whether the access was a write.
        write: bool,
    },
    /// Memory-mapped I/O access.
    Mmio {
        /// Faulting guest physical address.
        addr: u64,
        /// Access size in bytes.
        size: u8,
        /// Whether the access was a write.
        write: bool,
    },
    /// Halt instruction.
    Halt,
    /// Shutdown requested.
    Shutdown,
    /// Hypercall from the guest.
    Hypercall {
        /// Hypercall number.
        nr: u64,
    },
    /// Debug event or breakpoint.
    Debug,
    /// Internal error, with a backend code.
    InternalError(u64),
}

/// VCPU configuration.
#[derive(Debug, Clone)]
pub struct VcpuConfig {
    /// VCPU index within the VM.
    pub index: usize,
    /// Initial register state, if any.
    pub initial_regs: Option<VcpuRegs>,
}

/// Architecture-neutral VCPU register snapshot.
#[derive(Debug, Clone, Copy, PartialEq)]
pub struct VcpuRegs {
    /// Instruction pointer / program counter.
    pub pc: u64,
    /// Stack pointer.
    pub sp: u64,
    /// General purpose registers.
    pub gpr: [u64; 32],
    /// Flags / status register.
    pub flags: u64,
}

impl Default for VcpuRegs {
    /// All registers zero.
    fn default() -> (r: Self)
        ensures
            r.pc == 0,
            r.sp == 0,
            r.flags == 0,
            forall|i: int| 0 <= i < 32 ==> r.gpr@[i] == 0,
    {
        VcpuRegs { pc: 0, sp: 0, gpr: [0; 32], flags: 0 }
    }
}

/// What `Vcpu::run` guarantees: a stopped VCPU dispatches once and lands
/// exited with the decoded exit recorded; any other state is an illegal
/// transition that changes nothing.
pub open spec fn run_post(pre: Vcpu, post: Vcpu, r: crate::Result<VcpuExit>) -> bool {
    &&& post.spec_id() == pre.spec_id()
    &&& post.spec_vm_id() == pre.spec_vm_id()
    &&& if pre.spec_state() == VcpuState::Stopped {
        &&& post.spec_state() == VcpuState::Exited
        &&& r == crate::Result::<VcpuExit>::Ok(pre.spec_dispatch_exit())
        &&& post.spec_last_exit() == pre.spec_dispatch_exit()
        &&& post.spec_regs().pc == pre.spec_regs().pc
        &&& post.spec_regs().sp == pre.spec_regs().sp
        &&& post.spec_regs().flags == pre.spec_regs().flags
        &&& post.spec_regs().gpr == pre.spec_regs().gpr
    } else {
        r == crate::Result::<VcpuExit>::Err(HypervisorError::ArchError(0)) && post == pre
    }
}

/// What `Vcpu::resume` guarantees: the same dispatch as `run`, legal only
/// from the exited state.
pub open spec fn resume_post(pre: Vcpu, post: Vcpu, r: crate::Result<VcpuExit>) -> bool {
    &&& post.spec_id() == pre.spec_id()
    &&& post.spec_vm_id() == pre.spec_vm_id()
    &&& if pre.spec_state() == VcpuState::Exited {
        &&& post.spec_state() == VcpuState::Exited
        &&& r == crate::Result::<VcpuExit>::Ok(pre.spec_dispatch_exit())
        &&& post.spec_last_exit() == pre.spec_dispatch_exit()
        &&& post.spec_regs().pc == pre.spec_regs().pc
        &&& post.spec_regs().sp == pre.spec_regs().sp
        &&& post.spec_regs().flags == pre.spec_regs().flags
        &&& post.spec_regs().gpr == pre.spec_regs().gpr
    } else {
        r == crate::Result::<VcpuExit>::Err(HypervisorError::ArchError(1)) && post == pre
    }
}

/// Virtual CPU: the generic state machine over one execution control
/// block.
pub struct Vcpu {
    id: VcpuId,
    vm_id: VmId,
    state: VcpuState,
    config: VcpuConfig,
    regs: VcpuRegs,
    last_exit: VcpuExit,
    arch_data: ArchVcpuData,
}

impl Vcpu {
    /// The architecture data is sound.
    pub closed spec fn wf(self) -> bool {
        self.arch_data.wf()
    }

    /// The VCPU's current state.
    pub closed spec fn spec_state(self) -> VcpuState {
        self.state
    }

    /// The VCPU's ID.
    pub closed spec fn spec_id(self) -> VcpuId {
        self.id
    }

    /// The owning VM's ID.
    pub closed spec fn spec_vm_id(self) -> VmId {
        self.vm_id
    }

    /// The generic register snapshot.
    pub closed spec fn spec_regs(self) -> VcpuRegs {
        self.regs
    }

    /// The last recorded exit reason.
    pub closed spec fn spec_last_exit(self) -> VcpuExit {
        self.last_exit
    }

    /// The exit a dispatch of this VCPU returns: the exit its execution
    /// control block records, decoded after the VCPU's snapshot is pushed
    /// into the block.
    pub closed spec fn spec_dispatch_exit(self) -> VcpuExit {
        self.arch_data.spec_exit_after(self.regs)
    }

    /// The event-injection word the VCPU's block currently holds.
    pub closed spec fn spec_pending_interrupt(self) -> u64 {
        self.arch_data.spec_pending_interrupt()
    }

    /// Create a new VCPU in the stopped state, owning a fresh execution
    /// control block, with the configured initial registers (or all
    /// zeroes).
    pub fn new(id: VcpuId, vm_id: VmId, config: VcpuConfig, cpu: &CpuInfo, alloc:
        &mut FrameAllocator) -> (r: crate::Result<Self>)
        requires
            old(alloc).wf(),
        ensures
            final(alloc).wf(),
            spec_detect_virt_tech(*cpu) is Err ==> r == crate::Result::<Self>::Err(
                HypervisorError::NotSupported,
            ),
            spec_detect_virt_tech(*cpu) is Ok && old(alloc).spec_remaining() == 0 ==> r
                == crate::Result::<Self>::Err(HypervisorError::OutOfMemory),
            spec_detect_virt_tech(*cpu) is Ok && old(alloc).spec_remaining() > 0 ==> {
                &&& r is Ok
                &&& r matches Ok(v) && v.wf() && v.spec_id() == id && v.spec_vm_id() == vm_id
                    && v.spec_state() == VcpuState::Stopped && v.spec_last_exit()
                    == VcpuExit::Unknown && (match config.initial_regs {
                    Some(regs) => v.spec_regs() == regs,
                    None => v.spec_regs().pc == 0 && v.spec_regs().sp == 0
                        && v.spec_regs().flags == 0 && (forall|i: int| 0 <= i < 32
                        ==> v.spec_regs().gpr@[i] == 0),
                })
                &&& final(alloc).spec_remaining() == old(alloc).spec_remaining() - 1
            },
    {
        let arch_data = match ArchVcpuData::new(vm_id, cpu, alloc) {
            Ok(d) => d,
            Err(e) => {
                return Err(e);
            },
        };
        let regs = match &config.initial_regs {
            Some(r) => *r,
            None => VcpuRegs { pc: 0, sp: 0, gpr: [0; 32], flags: 0 },
        };
        Ok(
            Vcpu {
                id,
                vm_id,
                state: VcpuState::Stopped,
                config,
                regs,
                last_exit: VcpuExit::Unknown,
                arch_data,
            },
        )
    }

    /// Get the VCPU ID.
    pub fn id(&self) -> (r: VcpuId)
        ensures
            r == self.spec_id(),
    {
        self.id
    }

    /// Get the parent VM ID.
    pub fn vm_id(&self) -> (r: VmId)
        ensures
            r == self.spec_vm_id(),
    {
        self.vm_id
    }

    /// Get the current state.
    pub fn state(&self) -> (r: VcpuState)
        ensures
            r == self.spec_state(),
    {
        self.state
    }

    /// Set the VCPU state.
    pub fn set_state(&mut self, state: VcpuState)
        ensures
            final(self).spec_state() == state,
            final(self).wf() == old(self).wf(),
            final(self).spec_id() == old(self).spec_id(),
            final(self).spec_vm_id() == old(self).spec_vm_id(),
            final(self).spec_regs() == old(self).spec_regs(),
            final(self).spec_last_exit() == old(self).spec_last_exit(),
    {
        self.state = state;
    }

    /// Get the register snapshot.
    pub fn regs(&self) -> (r: &VcpuRegs)
        ensures
            *r == self.spec_regs(),
    {
        &self.regs
    }

    /// Set the register snapshot.
    pub fn set_regs(&mut self, regs: VcpuRegs)
        ensures
            final(self).spec_regs() == regs,
            final(self).wf() == old(self).wf(),
            final(self).spec_state() == old(self).spec_state(),
            final(self).spec_id() == old(self).spec_id(),
            final(self).spec_vm_id() == old(self).spec_vm_id(),
            final(self).spec_last_exit() == old(self).spec_last_exit(),
    {
        self.regs = regs;
    }

    /// Get the last exit reason.
    pub fn last_exit(&self) -> (r: VcpuExit)
        ensures
            r == self.spec_last_exit(),
    {
        self.last_exit
    }

    /// Run the VCPU: push the register snapshot into the execution control
    /// block, enter the guest, pull the post-exit snapshot back, record
    /// the exit reason and move to the exited state.
    ///
    /// Only a stopped VCPU may be run; any other state is an illegal
    /// transition.
    pub fn run(&mut self) -> (r: crate::Result<VcpuExit>)
        requires
            old(self).wf(),
        ensures
            final(self).wf(),
            run_post(*old(self), *final(self), r),
    {
        match self.state {
            VcpuState::Stopped => {},
            _ => {
                return Err(HypervisorError::ArchError(0));
            },
        }
        self.dispatch()
    }

    /// Resume the VCPU after its last exit was handled: the same
    /// synchronize, enter and record sequence as `run`.
    ///
    /// Only an exited VCPU may be resumed; any other state is an illegal
    /// transition.
    pub fn resume(&mut self) -> (r: crate::Result<VcpuExit>)
        requires
            old(self).wf(),
        ensures
            final(self).wf(),
            resume_post(*old(self), *final(self), r),
    {
        match self.state {
            VcpuState::Exited => {},
            _ => {
                return Err(HypervisorError::ArchError(1));
            },
        }
        self.dispatch()
    }

    /// One guest dispatch: synchronize registers into the block, enter,
    /// synchronize back, record the exit and land in the exited state.
    fn dispatch(&mut self) -> (r: crate::Result<VcpuExit>)
        requires
            old(self).wf(),
        ensures
            final(self).wf(),
            final(self).spec_id() == old(self).spec_id(),
            final(self).spec_vm_id() == old(self).spec_vm_id(),
            final(self).spec_state() == VcpuState::Exited,
            final(self).spec_last_exit() == old(self).spec_dispatch_exit(),
            r == crate::Result::<VcpuExit>::Ok(old(self).spec_dispatch_exit()),
            final(self).spec_regs().pc == old(self).spec_regs().pc,
            final(self).spec_regs().sp == old(self).spec_regs().sp,
            final(self).spec_regs().flags == old(self).spec_regs().flags,
            final(self).spec_regs().gpr == old(self).spec_regs().gpr,
    {
        self.state = VcpuState::Running;
        let r = self.arch_data.set_regs(&self.regs);
        match r {
            Ok(()) => {},
            Err(e) => {
                return Err(e);
            },
        }
        let exit_reason = match self.arch_data.run() {
            Ok(x) => x,
            Err(e) => {
                return Err(e);
            },
        };
        let new_regs = match self.arch_data.get_regs() {
            Ok(x) => x,
            Err(e) => {
                return Err(e);
            },
        };
        self.regs = new_regs;
        self.last_exit = exit_reason;
        self.state = VcpuState::Exited;
        Ok(exit_reason)
    }

    /// Stop the VCPU.
    pub fn stop(&mut self) -> (r: crate::Result<()>)
        ensures
            r is Ok,
            final(self).spec_state() == VcpuState::Stopped,
            final(self).wf() == old(self).wf(),
            final(self).spec_id() == old(self).spec_id(),
            final(self).spec_vm_id() == old(self).spec_vm_id(),
            final(self).spec_regs() == old(self).spec_regs(),
            final(self).spec_last_exit() == old(self).spec_last_exit(),
    {
        self.set_state(VcpuState::Stopped);
        Ok(())
    }

    /// Record an external interrupt for injection on the VCPU's next guest
    /// entry, in its execution control block's event-injection field.
    pub fn inject_interrupt(&mut self, vector: u32) -> (r: crate::Result<()>)
        requires
            old(self).wf(),
        ensures
            final(self).wf(),
            r is Ok,
            final(self).spec_id() == old(self).spec_id(),
            final(self).spec_vm_id() == old(self).spec_vm_id(),
            final(self).spec_state() == old(self).spec_state(),
            final(self).spec_regs() == old(self).spec_regs(),
            final(self).spec_last_exit() == old(self).spec_last_exit(),
            final(self).spec_pending_interrupt()
                == crate::arch::x86_64::spec_event_injection(vector),
    {
        self.arch_data.inject_interrupt(vector)
    }
}

/// Allocate a new VCPU ID: monotonically increasing, never reused.
pub fn allocate_vcpu_id(counter: &mut IdCounter) -> (r: VcpuId)
    requires
        old(counter).spec_next() < u64::MAX,
    ensures
        r == old(counter).spec_next(),
        final(counter).spec_next() == old(counter).spec_next() + 1,
{
    counter.allocate()
}

} // verus!
