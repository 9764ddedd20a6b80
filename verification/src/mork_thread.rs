use vstd::prelude::*;
use crate::constants::{CNodeSlot, ObjectType};
use crate::mork_cspace::{mork_alloc_object, mork_cspace_copy};
use crate::mork_task::{mork_task_read_registers, mork_task_set_space, mork_task_write_registers};
use crate::hal::{bare_trap, invocation, Syscall, SyscallArgs};
use crate::message_info::{InvocationLabel, ResponseLabel};
use crate::mork_ipc::mork_notification_wait;
use crate::mork_task::mork_task_resume;
use crate::user_context::{UserContext, REG_A0, REG_A1, REG_SP, REG_TP};

verus! {

/// Size of a thread's thread-local storage block.
pub const TLS_SIZE: usize = 4096 * 1;

/// Size of a thread's stack.
pub const THREAD_STACK_SIZE: usize = 4096 * 32;

/// Alignment of the stack, thread-local storage and IPC buffer blocks.
pub const PAGE_ALIGN: usize = 4096;

/// What a thread created by `CreateThread` owns: the kernel objects in its
/// parent's capability space and the memory blocks it runs on. A zero field
/// owns nothing.
#[derive(Debug, PartialEq, Eq, Structural)]
pub struct ThreadControlBlock {
    pub parent_task: usize,
    pub task_slot: usize,
    pub notification_slot: usize,
    pub ipc_buffer_vaddr: usize,
    pub sp: usize,
    pub tls: usize,
}

impl Default for ThreadControlBlock {
    fn default() -> (t: ThreadControlBlock)
        ensures
            t == ThreadControlBlock::empty(),
    {
        ThreadControlBlock { parent_task: 0, task_slot: 0, notification_slot: 0, ipc_buffer_vaddr: 0, sp: 0, tls: 0 }
    }
}

/// One release that `ThreadControlBlock::free` asks for.
#[derive(Clone, Copy, Debug, PartialEq, Eq, Structural)]
pub enum FreeStep {
    /// Delete the object in slot `object` of capability space `task`; if
    /// the kernel refuses, stop and return its outcome.
    DeleteObject { task: usize, object: usize },
    /// Release a block of the IPC buffer's size at `addr`.
    DeallocIpcBuffer { addr: usize },
    /// Release a stack block (`THREAD_STACK_SIZE`) at `addr`.
    DeallocStack { addr: usize },
    /// Release a thread-local storage block (`TLS_SIZE`) at `addr`.
    DeallocTls { addr: usize },
}

/// `s` when `cond`, else nothing.
pub open spec fn step_if(cond: bool, s: FreeStep) -> Seq<FreeStep> {
    if cond { seq![s] } else { Seq::empty() }
}

impl ThreadControlBlock {
    /// The block that owns nothing.
    pub open spec fn empty() -> ThreadControlBlock {
        ThreadControlBlock { parent_task: 0, task_slot: 0, notification_slot: 0, ipc_buffer_vaddr: 0, sp: 0, tls: 0 }
    }

    /// The releases, in order: the thread object and the notification
    /// (from the parent's space), then the IPC buffer block, the stack and
    /// the thread-local storage. The IPC buffer's release names the stack
    /// address `sp`.
    pub open spec fn free_steps(self) -> Seq<FreeStep> {
        step_if(self.task_slot != 0, FreeStep::DeleteObject { task: self.parent_task, object: self.task_slot })
            + step_if(self.notification_slot != 0, FreeStep::DeleteObject { task: self.parent_task, object: self.notification_slot })
            + step_if(self.ipc_buffer_vaddr != 0, FreeStep::DeallocIpcBuffer { addr: self.sp })
            + step_if(self.sp != 0, FreeStep::DeallocStack { addr: self.sp })
            + step_if(self.tls != 0, FreeStep::DeallocTls { addr: self.tls })
    }

    /// Waits on the thread's notification; the reply carries the badge.
    pub fn wait(&self) -> (a: SyscallArgs)
        ensures
            a == bare_trap(Syscall::SysRecv, self.notification_slot),
    {
        mork_notification_wait(self.notification_slot)
    }

    /// Starts the thread.
    pub fn resume(&self) -> (a: SyscallArgs)
        ensures
            a == invocation(self.task_slot, InvocationLabel::TCBResume, 0, 0, 0, 0, 0),
    {
        mork_task_resume(self.task_slot)
    }

    /// The releases that give back what the block owns, in the order that
    /// `FreeThread` carries them out.
    pub fn free(self) -> (steps: Vec<FreeStep>)
        ensures
            steps@ == self.free_steps(),
    {
        let mut steps: Vec<FreeStep> = Vec::new();
        if self.task_slot != 0 {
            steps.push(FreeStep::DeleteObject { task: self.parent_task, object: self.task_slot });
        }
        let ghost s1 = steps@;
        if self.notification_slot != 0 {
            steps.push(FreeStep::DeleteObject { task: self.parent_task, object: self.notification_slot });
        }
        let ghost s2 = steps@;
        if self.ipc_buffer_vaddr != 0 {
            steps.push(FreeStep::DeallocIpcBuffer { addr: self.sp });
        }
        let ghost s3 = steps@;
        if self.sp != 0 {
            steps.push(FreeStep::DeallocStack { addr: self.sp });
        }
        let ghost s4 = steps@;
        if self.tls != 0 {
            steps.push(FreeStep::DeallocTls { addr: self.tls });
        }
        assert(s1 =~= step_if(self.task_slot != 0, FreeStep::DeleteObject { task: self.parent_task, object: self.task_slot }));
        assert(s2 =~= s1 + step_if(self.notification_slot != 0, FreeStep::DeleteObject { task: self.parent_task, object: self.notification_slot }));
        assert(s3 =~= s2 + step_if(self.ipc_buffer_vaddr != 0, FreeStep::DeallocIpcBuffer { addr: self.sp }));
        assert(s4 =~= s3 + step_if(self.sp != 0, FreeStep::DeallocStack { addr: self.sp }));
        assert(steps@ =~= s4 + step_if(self.tls != 0, FreeStep::DeallocTls { addr: self.tls }));
        steps
    }
}

/// Gives back what a thread control block owns: the releases of
/// `ThreadControlBlock::free`, one at a time, stopping at the first deletion
/// the kernel refuses.
pub struct FreeThread {
    pub steps: Vec<FreeStep>,
    pub next: usize,
    pub refused: Option<ResponseLabel>,
}

impl FreeThread {
    /// The steps are those of a block, and the position lies within them.
    pub open spec fn wf(self) -> bool {
        &&& self.next <= self.steps@.len()
        &&& self.steps@.len() <= usize::MAX
    }

    /// The release to carry out now: none once a deletion was refused or
    /// every step was carried out.
    pub open spec fn current(self) -> Option<FreeStep> {
        if self.refused is None && self.next < self.steps@.len() {
            Some(self.steps@[self.next as int])
        } else {
            None
        }
    }

    /// The result, once nothing is left to do: the refusal, or success
    /// after every step.
    pub open spec fn outcome(self) -> Option<Result<(), ResponseLabel>> {
        match self.refused {
            Some(e) => Some(Err(e)),
            None => if self.next == self.steps@.len() { Some(Ok(())) } else { None },
        }
    }

    /// Starts with the first release of `tcb`.
    pub fn new(tcb: ThreadControlBlock) -> (m: FreeThread)
        ensures
            m.wf(),
            m.steps@ == tcb.free_steps(),
            m.next == 0,
            m.refused is None,
    {
        FreeThread { steps: tcb.free(), next: 0, refused: None }
    }

    /// The release to carry out now.
    pub fn current_step(&self) -> (s: Option<FreeStep>)
        requires
            self.wf(),
        ensures
            s == self.current(),
    {
        if self.refused.is_none() && self.next < self.steps.len() {
            Some(self.steps[self.next])
        } else {
            None
        }
    }

    /// The deletion of the current step answered `r`: go on to the next
    /// step, or stop with the refusal; nothing after a refused deletion is
    /// carried out.
    pub fn on_deleted(&mut self, r: Result<usize, ResponseLabel>)
        requires
            old(self).wf(),
            old(self).current() matches Some(s) && s is DeleteObject,
        ensures
            final(self).wf(),
            final(self).steps@ == old(self).steps@,
            r is Ok ==> final(self).next == old(self).next + 1 && final(self).refused is None,
            r matches Err(e) ==> final(self).refused == Some(e) && final(self).next == old(self).next
                && final(self).current() is None && final(self).outcome() == Some(Err::<(), ResponseLabel>(e)),
    {
        match r {
            Ok(_) => {
                self.next = self.next + 1;
            },
            Err(e) => {
                self.refused = Some(e);
            },
        }
    }

    /// The memory release of the current step was carried out.
    pub fn on_released(&mut self)
        requires
            old(self).wf(),
            old(self).current() matches Some(s) && !(s is DeleteObject),
        ensures
            final(self).wf(),
            final(self).steps@ == old(self).steps@,
            final(self).next == old(self).next + 1,
            final(self).refused is None,
    {
        self.next = self.next + 1;
    }

    /// The result, once nothing is left to do.
    pub fn result(&self) -> (r: Option<Result<(), ResponseLabel>>)
        requires
            self.wf(),
        ensures
            r == self.outcome(),
    {
        match self.refused {
            Some(e) => Some(Err(e)),
            None => if self.next == self.steps.len() { Some(Ok(())) } else { None },
        }
    }
}

/// A refused deletion of a block's thread object or notification ends the
/// freeing with that refusal, before any memory is released: every step
/// carried out before it is a deletion.
pub proof fn lemma_refusal_stops_before_memory(tcb: ThreadControlBlock, m: FreeThread)
    requires
        m.wf(),
        m.steps@ == tcb.free_steps(),
        m.refused is Some,
        m.steps@[m.next as int] is DeleteObject,
        m.next < m.steps@.len(),
    ensures
        m.current() is None,
        m.outcome() == Some(Err::<(), ResponseLabel>(m.refused->0)),
        forall|i: int| 0 <= i <= m.next ==> (#[trigger] m.steps@[i]) is DeleteObject,
{
    lemma_free_releases_owned(tcb);
    assert forall|i: int| 0 <= i <= m.next implies (#[trigger] m.steps@[i]) is DeleteObject by {
        if i < m.next {
            assert(tcb.free_steps()[i] is DeleteObject);
        }
    }
}

/// What `free` asks for: every deletion names an owned slot of the parent's
/// space, the thread object, the notification, the stack and the
/// thread-local storage are each given back when owned, and all deletions
/// come before the releases of memory. The IPC buffer block itself is not
/// given back: its release names the stack address `sp`.
pub proof fn lemma_free_releases_owned(tcb: ThreadControlBlock)
    ensures
        forall|i: int| 0 <= i < tcb.free_steps().len() ==> match #[trigger] tcb.free_steps()[i] {
            FreeStep::DeleteObject { task, object } => task == tcb.parent_task && object != 0
                && (object == tcb.task_slot || object == tcb.notification_slot),
            FreeStep::DeallocIpcBuffer { addr } => tcb.ipc_buffer_vaddr != 0 && addr == tcb.sp,
            FreeStep::DeallocStack { addr } => addr != 0 && addr == tcb.sp,
            FreeStep::DeallocTls { addr } => addr != 0 && addr == tcb.tls,
        },
        tcb.task_slot != 0 ==> tcb.free_steps().contains(FreeStep::DeleteObject { task: tcb.parent_task, object: tcb.task_slot }),
        tcb.notification_slot != 0 ==> tcb.free_steps().contains(FreeStep::DeleteObject { task: tcb.parent_task, object: tcb.notification_slot }),
        tcb.sp != 0 ==> tcb.free_steps().contains(FreeStep::DeallocStack { addr: tcb.sp }),
        tcb.tls != 0 ==> tcb.free_steps().contains(FreeStep::DeallocTls { addr: tcb.tls }),
        forall|i: int, j: int| 0 <= i < j < tcb.free_steps().len() && (#[trigger] tcb.free_steps()[j]) is DeleteObject
            ==> (#[trigger] tcb.free_steps()[i]) is DeleteObject,
{
    let d1 = step_if(tcb.task_slot != 0, FreeStep::DeleteObject { task: tcb.parent_task, object: tcb.task_slot });
    let d2 = step_if(tcb.notification_slot != 0, FreeStep::DeleteObject { task: tcb.parent_task, object: tcb.notification_slot });
    let r1 = step_if(tcb.ipc_buffer_vaddr != 0, FreeStep::DeallocIpcBuffer { addr: tcb.sp });
    let r2 = step_if(tcb.sp != 0, FreeStep::DeallocStack { addr: tcb.sp });
    let r3 = step_if(tcb.tls != 0, FreeStep::DeallocTls { addr: tcb.tls });
    let deletes = d1 + d2;
    let releases = r1 + r2 + r3;
    let steps = tcb.free_steps();
    assert(steps =~= deletes + releases);
    assert(forall|i: int| 0 <= i < deletes.len() ==> (#[trigger] deletes[i]) is DeleteObject);
    assert(forall|i: int| 0 <= i < releases.len() ==> !((#[trigger] releases[i]) is DeleteObject));
    assert forall|i: int, j: int| 0 <= i < j < steps.len() && (#[trigger] steps[j]) is DeleteObject
        implies (#[trigger] steps[i]) is DeleteObject by {
        if j < deletes.len() {
            assert(steps[i] == deletes[i]);
        } else {
            assert(steps[j] == releases[j - deletes.len()]);
        }
    }
    if tcb.task_slot != 0 {
        assert(steps[0] == FreeStep::DeleteObject { task: tcb.parent_task, object: tcb.task_slot });
    }
    if tcb.notification_slot != 0 {
        assert(steps[d1.len() as int] == FreeStep::DeleteObject { task: tcb.parent_task, object: tcb.notification_slot });
    }
    if tcb.sp != 0 {
        assert(steps[(deletes.len() + r1.len()) as int] == FreeStep::DeallocStack { addr: tcb.sp });
    }
    if tcb.tls != 0 {
        assert(steps[(deletes.len() + r1.len() + r2.len()) as int] == FreeStep::DeallocTls { addr: tcb.tls });
    }
}

/// Where a `CreateThread` stands, and so what must be done next.
#[derive(Clone, Copy, Debug, PartialEq, Eq, Structural)]
pub enum CreateStep {
    /// Allocate a zeroed stack (`THREAD_STACK_SIZE`, `PAGE_ALIGN`) and report
    /// it with `on_stack`.
    AllocStack,
    /// Allocate a zeroed thread-local storage block (`TLS_SIZE`,
    /// `PAGE_ALIGN`) and report it with `on_tls`.
    AllocTls,
    /// Allocate a zeroed IPC buffer (`PAGE_ALIGN`) and report it with
    /// `on_ipc_buffer`.
    AllocIpcBuffer,
    /// Send `mork_alloc_object(CapInitThread, Thread)` and report the reply
    /// with `on_task`.
    AllocTask,
    /// Send `mork_alloc_object(CapInitThread, Notification)` and report the
    /// reply with `on_notification`.
    AllocNotification,
    /// Send `mork_cspace_copy(CapInitThread, notification_slot, task_slot,
    /// CapParentCom)` and report the reply with `on_copy`.
    CopyNotification,
    /// Send `mork_task_read_registers(CapInitThread)`, read the registers
    /// from the IPC buffer, and report them with `on_registers_read`.
    ReadRegisters,
    /// Put `context` in the IPC buffer, send
    /// `mork_task_write_registers(task_slot)`, and report the reply with
    /// `on_registers_written`.
    WriteRegisters,
    /// Send `mork_task_set_space(task_slot, CapInitVSpace)` and report the
    /// reply with `on_space_set`.
    SetSpace,
    /// The thread exists; `tcb` is the result.
    Created,
    /// Failed, and nothing is to be released.
    Abandoned,
    /// Failed; carry out `tcb.free()` (a refused deletion is fatal) and
    /// fail.
    Release,
}

/// The step comes after the stack was allocated.
pub open spec fn has_stack(step: CreateStep) -> bool {
    !(step is AllocStack || step is Abandoned)
}

/// The step comes after the thread-local storage was allocated.
pub open spec fn has_tls(step: CreateStep) -> bool {
    has_ipc_buffer(step) || step is AllocIpcBuffer
}

/// The step comes after the IPC buffer was allocated.
pub open spec fn has_ipc_buffer(step: CreateStep) -> bool {
    step is AllocTask || step is AllocNotification || step is CopyNotification || step is ReadRegisters
        || step is WriteRegisters || step is SetSpace || step is Created
}

/// Creates a thread that runs the function at `function`: allocates its
/// stack, thread-local storage and IPC buffer, a thread object and a
/// notification shared with it, and starts it at `entry_point` with
/// `function` and its IPC buffer as arguments.
pub struct CreateThread {
    pub function: usize,
    pub entry_point: usize,
    pub tcb: ThreadControlBlock,
    pub context: UserContext,
    pub step: CreateStep,
}

/// The registers a new thread starts with: `ctx` with the function and the
/// IPC buffer as its two arguments, the top of its stack, its thread-local
/// storage, and the entry point as the address it resumes at.
pub open spec fn start_context(ctx: UserContext, function: usize, entry_point: usize, tcb: ThreadControlBlock) -> bool {
    &&& ctx.regs@.len() == 32
    &&& ctx.regs@[REG_A0 as int] == function
    &&& ctx.regs@[REG_A1 as int] == tcb.ipc_buffer_vaddr
    &&& ctx.regs@[REG_SP as int] == tcb.sp + THREAD_STACK_SIZE
    &&& ctx.regs@[REG_TP as int] == tcb.tls
    &&& ctx.sepc == entry_point
}

impl CreateThread {
    /// The parameters are those of `other`.
    pub open spec fn same_params(self, other: Self) -> bool {
        &&& self.function == other.function
        &&& self.entry_point == other.entry_point
    }

    /// The block's parent is the current thread, and its stack's top
    /// address fits in a word.
    pub open spec fn wf(self) -> bool {
        &&& self.tcb.parent_task == CNodeSlot::CapInitThread.code()
        &&& self.tcb.sp + THREAD_STACK_SIZE <= usize::MAX
        &&& self.tcb.sp % PAGE_ALIGN == 0
        &&& self.tcb.tls % PAGE_ALIGN == 0
        &&& self.tcb.ipc_buffer_vaddr % PAGE_ALIGN == 0
        &&& has_stack(self.step) ==> self.tcb.sp != 0
        &&& has_tls(self.step) ==> self.tcb.tls != 0
        &&& has_ipc_buffer(self.step) ==> self.tcb.ipc_buffer_vaddr != 0
    }

    /// The kernel request that the current step sends, if it sends one.
    pub open spec fn spec_request(self) -> Option<SyscallArgs> {
        let me = CNodeSlot::CapInitThread.code();
        match self.step {
            CreateStep::AllocTask => Some(invocation(me, InvocationLabel::CNodeAlloc, 1, ObjectType::Thread.code(), 0, 0, 0)),
            CreateStep::AllocNotification => Some(invocation(me, InvocationLabel::CNodeAlloc, 1, ObjectType::Notification.code(), 0, 0, 0)),
            CreateStep::CopyNotification => Some(invocation(me, InvocationLabel::CNodeCopy, 3,
                self.tcb.notification_slot, self.tcb.task_slot, CNodeSlot::CapParentCom.code(), 0)),
            CreateStep::ReadRegisters => Some(invocation(me, InvocationLabel::TCBReadRegisters, 0, 0, 0, 0, 0)),
            CreateStep::WriteRegisters => Some(invocation(self.tcb.task_slot, InvocationLabel::TCBWriteRegisters, 0, 0, 0, 0, 0)),
            CreateStep::SetSpace => Some(invocation(self.tcb.task_slot, InvocationLabel::TCBSetSpace, 1,
                CNodeSlot::CapInitVSpace.code(), 0, 0, 0)),
            _ => None,
        }
    }

    /// The kernel request that the current step sends: allocating the
    /// thread object and the notification from the current thread's space,
    /// copying the notification into the new thread's parent-communication
    /// slot, reading the current thread's registers, writing the new
    /// thread's, and giving it the current address space. Allocation and
    /// final steps send none.
    pub fn request(&self) -> (r: Option<SyscallArgs>)
        ensures
            r == self.spec_request(),
    {
        let me = CNodeSlot::CapInitThread.as_usize();
        match self.step {
            CreateStep::AllocTask => Some(mork_alloc_object(me, ObjectType::Thread)),
            CreateStep::AllocNotification => Some(mork_alloc_object(me, ObjectType::Notification)),
            CreateStep::CopyNotification => Some(mork_cspace_copy(me, self.tcb.notification_slot, self.tcb.task_slot,
                CNodeSlot::CapParentCom.as_usize())),
            CreateStep::ReadRegisters => Some(mork_task_read_registers(me)),
            CreateStep::WriteRegisters => Some(mork_task_write_registers(self.tcb.task_slot)),
            CreateStep::SetSpace => Some(mork_task_set_space(self.tcb.task_slot, CNodeSlot::CapInitVSpace.as_usize())),
            _ => None,
        }
    }

    /// Starts with an empty block whose parent is the current thread.
    pub fn new(function: usize, entry_point: usize) -> (m: Self)
        ensures
            m.function == function,
            m.entry_point == entry_point,
            m.tcb == (ThreadControlBlock { parent_task: CNodeSlot::CapInitThread.code(), ..ThreadControlBlock::empty() }),
            m.step == CreateStep::AllocStack,
            m.wf(),
    {
        let mut tcb = ThreadControlBlock::default();
        tcb.parent_task = CNodeSlot::CapInitThread.as_usize();
        CreateThread { function, entry_point, tcb, context: UserContext::new(), step: CreateStep::AllocStack }
    }

    /// The stack allocation gave `addr` (`None`: out of memory).
    pub fn on_stack(&mut self, addr: Option<usize>)
        requires
            old(self).wf(),
            old(self).step == CreateStep::AllocStack,
            addr matches Some(a) ==> a + THREAD_STACK_SIZE <= usize::MAX && a != 0 && a % PAGE_ALIGN == 0,
        ensures
            final(self).wf(),
            final(self).same_params(*old(self)),
            addr is None ==> final(self).step == CreateStep::Abandoned && final(self).tcb == old(self).tcb,
            addr matches Some(a) ==> final(self).step == CreateStep::AllocTls
                && final(self).tcb == (ThreadControlBlock { sp: a, ..old(self).tcb }),
    {
        match addr {
            None => {
                self.step = CreateStep::Abandoned;
            },
            Some(a) => {
                self.tcb.sp = a;
                self.step = CreateStep::AllocTls;
            },
        }
    }

    /// The thread-local storage allocation gave `addr`.
    pub fn on_tls(&mut self, addr: Option<usize>)
        requires
            old(self).wf(),
            old(self).step == CreateStep::AllocTls,
            addr matches Some(a) ==> a != 0 && a % PAGE_ALIGN == 0,
        ensures
            final(self).wf(),
            final(self).same_params(*old(self)),
            addr is None ==> final(self).step == CreateStep::Release && final(self).tcb == old(self).tcb,
            addr matches Some(a) ==> final(self).step == CreateStep::AllocIpcBuffer
                && final(self).tcb == (ThreadControlBlock { tls: a, ..old(self).tcb }),
    {
        match addr {
            None => {
                self.step = CreateStep::Release;
            },
            Some(a) => {
                self.tcb.tls = a;
                self.step = CreateStep::AllocIpcBuffer;
            },
        }
    }

    /// The IPC buffer allocation gave `addr`.
    pub fn on_ipc_buffer(&mut self, addr: Option<usize>)
        requires
            old(self).wf(),
            old(self).step == CreateStep::AllocIpcBuffer,
            addr matches Some(a) ==> a != 0 && a % PAGE_ALIGN == 0,
        ensures
            final(self).wf(),
            final(self).same_params(*old(self)),
            addr is None ==> final(self).step == CreateStep::Release && final(self).tcb == old(self).tcb,
            addr matches Some(a) ==> final(self).step == CreateStep::AllocTask
                && final(self).tcb == (ThreadControlBlock { ipc_buffer_vaddr: a, ..old(self).tcb }),
    {
        match addr {
            None => {
                self.step = CreateStep::Release;
            },
            Some(a) => {
                self.tcb.ipc_buffer_vaddr = a;
                self.step = CreateStep::AllocTask;
            },
        }
    }

    /// The thread-object allocation answered `r`. A refusal abandons the
    /// creation without releasing the memory already allocated.
    pub fn on_task(&mut self, r: Result<usize, ResponseLabel>)
        requires
            old(self).wf(),
            old(self).step == CreateStep::AllocTask,
        ensures
            final(self).wf(),
            final(self).same_params(*old(self)),
            r is Err ==> final(self).step == CreateStep::Abandoned && final(self).tcb == old(self).tcb,
            r matches Ok(t) ==> final(self).step == CreateStep::AllocNotification
                && final(self).tcb == (ThreadControlBlock { task_slot: t, ..old(self).tcb }),
    {
        match r {
            Err(_) => {
                self.step = CreateStep::Abandoned;
            },
            Ok(t) => {
                self.tcb.task_slot = t;
                self.step = CreateStep::AllocNotification;
            },
        }
    }

    /// The notification allocation answered `r`.
    pub fn on_notification(&mut self, r: Result<usize, ResponseLabel>)
        requires
            old(self).wf(),
            old(self).step == CreateStep::AllocNotification,
        ensures
            final(self).wf(),
            final(self).same_params(*old(self)),
            r is Err ==> final(self).step == CreateStep::Release && final(self).tcb == old(self).tcb,
            r matches Ok(n) ==> final(self).step == CreateStep::CopyNotification
                && final(self).tcb == (ThreadControlBlock { notification_slot: n, ..old(self).tcb }),
    {
        match r {
            Err(_) => {
                self.step = CreateStep::Release;
            },
            Ok(n) => {
                self.tcb.notification_slot = n;
                self.step = CreateStep::CopyNotification;
            },
        }
    }

    /// Copying the notification into the new thread's space answered `r`;
    /// a success always names the parent-communication slot.
    pub fn on_copy(&mut self, r: Result<usize, ResponseLabel>)
        requires
            old(self).wf(),
            old(self).step == CreateStep::CopyNotification,
            r matches Ok(slot) ==> slot == CNodeSlot::CapParentCom.code(),
        ensures
            final(self).wf(),
            final(self).same_params(*old(self)),
            final(self).tcb == old(self).tcb,
            r is Err ==> final(self).step == CreateStep::Release,
            r is Ok ==> final(self).step == CreateStep::ReadRegisters,
    {
        match r {
            Err(_) => {
                self.step = CreateStep::Release;
            },
            Ok(_) => {
                self.step = CreateStep::ReadRegisters;
            },
        }
    }

    /// Reading the current thread's registers answered `r`; on success the
    /// new thread's registers are those, set up to start the function.
    pub fn on_registers_read(&mut self, r: Result<UserContext, ResponseLabel>)
        requires
            old(self).wf(),
            old(self).step == CreateStep::ReadRegisters,
        ensures
            final(self).wf(),
            final(self).same_params(*old(self)),
            final(self).tcb == old(self).tcb,
            r is Err ==> final(self).step == CreateStep::Release,
            r matches Ok(ctx) ==> {
                &&& final(self).step == CreateStep::WriteRegisters
                &&& start_context(final(self).context, old(self).function, old(self).entry_point, old(self).tcb)
                &&& final(self).context.sstatus == ctx.sstatus
                &&& forall|i: int| 0 <= i < 32 && i != REG_A0 && i != REG_A1 && i != REG_SP && i != REG_TP
                    ==> #[trigger] final(self).context.regs@[i] == ctx.regs@[i]
            },
    {
        match r {
            Err(_) => {
                self.step = CreateStep::Release;
            },
            Ok(ctx) => {
                let mut user_context = ctx;
                user_context.set_arg0(self.function);
                user_context.set_arg1(self.tcb.ipc_buffer_vaddr);
                user_context.set_next_ip(self.entry_point);
                user_context.set_sp(self.tcb.sp + THREAD_STACK_SIZE);
                user_context.set_tls(self.tcb.tls);
                self.context = user_context;
                self.step = CreateStep::WriteRegisters;
            },
        }
    }

    /// Writing the new thread's registers answered `r`.
    pub fn on_registers_written(&mut self, r: Result<(), ResponseLabel>)
        requires
            old(self).wf(),
            old(self).step == CreateStep::WriteRegisters,
        ensures
            final(self).wf(),
            final(self).same_params(*old(self)),
            final(self).tcb == old(self).tcb,
            r is Err ==> final(self).step == CreateStep::Release,
            r is Ok ==> final(self).step == CreateStep::SetSpace,
    {
        match r {
            Err(_) => {
                self.step = CreateStep::Release;
            },
            Ok(()) => {
                self.step = CreateStep::SetSpace;
            },
        }
    }

    /// Giving the new thread the current address space answered `r`.
    pub fn on_space_set(&mut self, r: Result<(), ResponseLabel>)
        requires
            old(self).wf(),
            old(self).step == CreateStep::SetSpace,
        ensures
            final(self).wf(),
            final(self).same_params(*old(self)),
            final(self).tcb == old(self).tcb,
            r is Err ==> final(self).step == CreateStep::Release,
            r is Ok ==> final(self).step == CreateStep::Created,
    {
        match r {
            Err(_) => {
                self.step = CreateStep::Release;
            },
            Ok(()) => {
                self.step = CreateStep::Created;
            },
        }
    }
}

/// A created thread owns a stack, a thread-local storage block and an IPC
/// buffer, each at a non-zero, page-aligned address, and belongs to the
/// current thread.
pub proof fn lemma_created_owns_blocks(m: CreateThread)
    requires
        m.wf(),
        m.step == CreateStep::Created,
    ensures
        m.tcb.parent_task == CNodeSlot::CapInitThread.code(),
        m.tcb.sp != 0 && m.tcb.sp % PAGE_ALIGN == 0,
        m.tcb.tls != 0 && m.tcb.tls % PAGE_ALIGN == 0,
        m.tcb.ipc_buffer_vaddr != 0 && m.tcb.ipc_buffer_vaddr % PAGE_ALIGN == 0,
{
}

} // verus!
