use vstd::prelude::*;
use crate::constants::{CNodeSlot, ObjectType, VMRights};
use crate::hal::{bare_trap, invocation, Syscall, SyscallArgs};
use crate::message_info::InvocationLabel;
use crate::mork_cspace::mork_alloc_object;
use crate::mork_ipc::mork_notification_signal;
use crate::mork_task::{mork_task_set_ipc_buffer, mork_task_set_tls_base, mork_task_suspend};
use crate::message_info::ResponseLabel;
use crate::mork_mm::{MapFrameAnyway, MapStep};

verus! {

/// Where the heap lives in the address space.
pub const HEAP_START: usize = 0x0000_4440_0000;

/// Size of the heap: one 2 MiB frame.
pub const HEAP_SIZE: usize = 1 << 21;

/// Size and alignment of the initial thread's thread-local storage block.
pub const INIT_TLS_SIZE: usize = 4096;

/// Why start-up could not go on.
#[derive(Clone, Copy, Debug, PartialEq, Eq, Structural)]
pub enum BootFailure {
    /// No frame could be had for the heap.
    HeapFrame { resp: ResponseLabel },
    /// The heap frame could not be mapped.
    HeapMap { resp: ResponseLabel },
    /// No memory for the IPC buffer.
    IpcBufferAlloc,
    /// The thread could not suspend itself.
    Suspend { resp: ResponseLabel },
}

/// Where start-up stands, and so what must be done next.
#[derive(Clone, Copy, Debug, PartialEq, Eq, Structural)]
pub enum BootStep {
    /// Send `mork_alloc_object(CapInitThread, Frame2M)` and report the reply
    /// with `on_heap_frame`.
    AllocHeapFrame,
    /// Drive `map_heap` until it stops, then call `on_heap_mapped`.
    MapHeap,
    /// Hand `[HEAP_START, HEAP_START + HEAP_SIZE)` to the heap allocator and
    /// call `on_heap_ready`.
    InitHeap,
    /// Allocate a zeroed block of `INIT_TLS_SIZE` bytes (aligned to as
    /// much) and report it with `on_tls`.
    AllocTls,
    /// Send `mork_task_set_tls_base(CapInitThread, addr)` and report the
    /// reply with `on_tls_base_set`.
    SetTlsBase { addr: usize },
    /// Allocate a zeroed IPC buffer (aligned to `constants::PAGE_SIZE_NORMAL`) and
    /// report it with `on_ipc_buffer`.
    AllocIpcBuffer,
    /// Send `mork_task_set_ipc_buffer(CapInitThread, vaddr)`; on success
    /// make the buffer at `vaddr` the thread's IPC buffer. Report the reply
    /// with `on_ipc_buffer_set`.
    SetIpcBuffer { vaddr: usize },
    /// Run the program's `main`, then call `on_main_returned`.
    RunMain,
    /// Send `mork_notification_signal(CapParentCom)` and call
    /// `on_parent_signalled` whatever the reply.
    SignalParent,
    /// Send `mork_task_suspend(CapInitThread)` and report the reply with
    /// `on_suspended`.
    Suspend,
    /// Start-up and the program are over.
    Finished,
    /// Start-up gave up before `main`; the entry returns.
    Stopped,
    /// Start-up cannot go on; the thread panics.
    Panicked { reason: BootFailure },
}

/// The start-up of a program's initial thread: heap, thread-local storage
/// and IPC buffer, then `main`, then a signal to the parent and suspension.
pub struct Boot {
    pub step: BootStep,
    pub map_heap: MapFrameAnyway,
    pub heap_ready: bool,
    pub tls_base: Option<usize>,
    pub ipc_buffer: Option<usize>,
    pub main_returned: bool,
}

/// The heap's mapping request for `frame`: read and write rights at
/// `HEAP_START` in the initial address space, with no page-table list.
pub open spec fn heap_mapping(m: MapFrameAnyway, frame: usize) -> bool {
    &&& m.task == CNodeSlot::CapInitThread.code()
    &&& m.vspace == CNodeSlot::CapInitVSpace.code()
    &&& m.frame == frame
    &&& m.vaddr == HEAP_START
    &&& m.vm_rights.bits == 3
    &&& m.alloc_page_table is None
}

/// The step comes after the heap was set up.
pub open spec fn after_heap(step: BootStep) -> bool {
    match step {
        BootStep::AllocHeapFrame | BootStep::MapHeap | BootStep::InitHeap => false,
        BootStep::Panicked { reason } => !(reason is HeapFrame || reason is HeapMap),
        _ => true,
    }
}

/// The step comes after the thread-local storage was set up.
pub open spec fn after_tls(step: BootStep) -> bool {
    match step {
        BootStep::AllocIpcBuffer | BootStep::SetIpcBuffer { .. } | BootStep::RunMain | BootStep::SignalParent
        | BootStep::Suspend | BootStep::Finished => true,
        BootStep::Panicked { reason } => reason is IpcBufferAlloc || reason is Suspend,
        _ => false,
    }
}

/// The step comes after the IPC buffer was set up.
pub open spec fn after_ipc_buffer(step: BootStep) -> bool {
    match step {
        BootStep::RunMain | BootStep::SignalParent | BootStep::Suspend | BootStep::Finished => true,
        BootStep::Panicked { reason } => reason is Suspend,
        _ => false,
    }
}

/// The step comes after `main` returned.
pub open spec fn after_main(step: BootStep) -> bool {
    match step {
        BootStep::SignalParent | BootStep::Suspend | BootStep::Finished => true,
        BootStep::Panicked { reason } => reason is Suspend,
        _ => false,
    }
}

impl Boot {
    /// `self` records what `other` records: heap, thread-local storage,
    /// IPC buffer and whether `main` returned.
    pub open spec fn same_record(self, other: Self) -> bool {
        &&& self.heap_ready == other.heap_ready
        &&& self.tls_base == other.tls_base
        &&& self.ipc_buffer == other.ipc_buffer
        &&& self.main_returned == other.main_returned
    }

    /// What start-up has done agrees with where it stands.
    pub open spec fn wf(self) -> bool {
        &&& self.step == BootStep::MapHeap ==> heap_mapping(self.map_heap, self.map_heap.frame)
        &&& after_heap(self.step) ==> self.heap_ready
        &&& after_tls(self.step) ==> self.tls_base is Some
        &&& after_ipc_buffer(self.step) ==> self.ipc_buffer is Some
        &&& self.step == BootStep::AllocHeapFrame ==> !self.heap_ready && self.tls_base is None && self.ipc_buffer is None
        &&& self.main_returned == after_main(self.step)
    }

    /// The kernel request of the current step: the heap frame's allocation
    /// from the current thread's space, registering the thread-local
    /// storage or the IPC buffer of the current thread, the signal to the
    /// parent, and the suspension of the current thread. Other steps send
    /// none (the heap mapping sends those of `map_heap`).
    pub open spec fn spec_request(self) -> Option<SyscallArgs> {
        let me = CNodeSlot::CapInitThread.code();
        match self.step {
            BootStep::AllocHeapFrame => Some(invocation(me, InvocationLabel::CNodeAlloc, 1, ObjectType::Frame2M.code(), 0, 0, 0)),
            BootStep::SetTlsBase { addr } => Some(invocation(me, InvocationLabel::TCBSetTLSBase, 1, addr, 0, 0, 0)),
            BootStep::SetIpcBuffer { vaddr } => Some(invocation(me, InvocationLabel::TCBSetIPCBuffer, 1, vaddr, 0, 0, 0)),
            BootStep::SignalParent => Some(bare_trap(Syscall::SysNBSend, CNodeSlot::CapParentCom.code())),
            BootStep::Suspend => Some(invocation(me, InvocationLabel::TCBSuspend, 0, 0, 0, 0, 0)),
            _ => None,
        }
    }

    /// The kernel request of the current step (see `spec_request`).
    pub fn request(&self) -> (r: Option<SyscallArgs>)
        ensures
            r == self.spec_request(),
    {
        let me = CNodeSlot::CapInitThread.as_usize();
        match self.step {
            BootStep::AllocHeapFrame => Some(mork_alloc_object(me, ObjectType::Frame2M)),
            BootStep::SetTlsBase { addr } => Some(mork_task_set_tls_base(me, addr)),
            BootStep::SetIpcBuffer { vaddr } => Some(mork_task_set_ipc_buffer(me, vaddr)),
            BootStep::SignalParent => Some(mork_notification_signal(CNodeSlot::CapParentCom.as_usize())),
            BootStep::Suspend => Some(mork_task_suspend(me)),
            _ => None,
        }
    }

    /// Nothing done yet: no heap, no thread-local storage, no IPC buffer,
    /// `main` not run; the heap mapping waits for its frame.
    pub fn new() -> (b: Boot)
        ensures
            b.wf(),
            b.step == BootStep::AllocHeapFrame,
            !b.heap_ready,
            b.tls_base is None,
            b.ipc_buffer is None,
            !b.main_returned,
            heap_mapping(b.map_heap, 0),
            b.map_heap.step == MapStep::MapFrame,
    {
        let rights = VMRights::r().union(VMRights::w());
        assert(1usize | 2usize == 3usize) by (bit_vector);
        Boot {
            step: BootStep::AllocHeapFrame,
            map_heap: MapFrameAnyway::new(CNodeSlot::CapInitThread.as_usize(), CNodeSlot::CapInitVSpace.as_usize(), 0, HEAP_START, rights, None),
            heap_ready: false,
            tls_base: None,
            ipc_buffer: None,
            main_returned: false,
        }
    }

    /// The heap-frame allocation answered `r`: map the frame at
    /// `HEAP_START`, or panic.
    pub fn on_heap_frame(&mut self, r: Result<usize, ResponseLabel>)
        requires
            old(self).wf(),
            old(self).step == BootStep::AllocHeapFrame,
        ensures
            final(self).same_record(*old(self)),
            final(self).wf(),
            r matches Ok(frame) ==> final(self).step == BootStep::MapHeap
                && heap_mapping(final(self).map_heap, frame)
                && final(self).map_heap.step == MapStep::MapFrame,
            r matches Err(e) ==> final(self).step == (BootStep::Panicked { reason: BootFailure::HeapFrame { resp: e } }),
    {
        match r {
            Ok(frame) => {
                let rights = VMRights::r().union(VMRights::w());
                assert(1usize | 2usize == 3usize) by (bit_vector);
                self.map_heap = MapFrameAnyway::new(
                    CNodeSlot::CapInitThread.as_usize(),
                    CNodeSlot::CapInitVSpace.as_usize(),
                    frame,
                    HEAP_START,
                    rights,
                    None,
                );
                self.step = BootStep::MapHeap;
            },
            Err(resp) => {
                self.step = BootStep::Panicked { reason: BootFailure::HeapFrame { resp } };
            },
        }
    }

    /// The heap mapping has stopped: set up the allocator, or panic.
    pub fn on_heap_mapped(&mut self)
        requires
            old(self).wf(),
            old(self).step == BootStep::MapHeap,
            old(self).map_heap.outcome() is Some,
        ensures
            final(self).same_record(*old(self)),
            final(self).map_heap == old(self).map_heap,
            final(self).wf(),
            old(self).map_heap.outcome() == Some(Ok::<(), ResponseLabel>(())) ==> final(self).step == BootStep::InitHeap,
            old(self).map_heap.outcome() matches Some(Err(e)) ==> final(self).step == (BootStep::Panicked {
                reason: BootFailure::HeapMap { resp: e },
            }),
    {
        match self.map_heap.result() {
            Some(Ok(())) => {
                self.step = BootStep::InitHeap;
            },
            Some(Err(resp)) => {
                self.step = BootStep::Panicked { reason: BootFailure::HeapMap { resp } };
            },
            None => {},
        }
    }

    /// The heap allocator owns the heap region.
    pub fn on_heap_ready(&mut self)
        requires
            old(self).wf(),
            old(self).step == BootStep::InitHeap,
        ensures
            final(self).tls_base == old(self).tls_base,
            final(self).ipc_buffer == old(self).ipc_buffer,
            final(self).main_returned == old(self).main_returned,
            final(self).map_heap == old(self).map_heap,
            final(self).wf(),
            final(self).step == BootStep::AllocTls,
            final(self).heap_ready,
    {
        self.heap_ready = true;
        self.step = BootStep::AllocTls;
    }

    /// The thread-local storage allocation gave `addr`: register it, or stop.
    pub fn on_tls(&mut self, addr: Option<usize>)
        requires
            old(self).wf(),
            old(self).step == BootStep::AllocTls,
        ensures
            final(self).same_record(*old(self)),
            final(self).map_heap == old(self).map_heap,
            final(self).wf(),
            addr matches Some(a) ==> final(self).step == (BootStep::SetTlsBase { addr: a }),
            addr is None ==> final(self).step == BootStep::Stopped,
    {
        match addr {
            Some(a) => {
                self.step = BootStep::SetTlsBase { addr: a };
            },
            None => {
                self.step = BootStep::Stopped;
            },
        }
    }

    /// Registering the thread-local storage answered `r`: go on to the IPC
    /// buffer, or stop.
    pub fn on_tls_base_set(&mut self, r: Result<(), ResponseLabel>)
        requires
            old(self).wf(),
            old(self).step is SetTlsBase,
        ensures
            r is Err ==> final(self).same_record(*old(self)),
            final(self).heap_ready == old(self).heap_ready,
            final(self).ipc_buffer == old(self).ipc_buffer,
            final(self).main_returned == old(self).main_returned,
            final(self).map_heap == old(self).map_heap,
            final(self).wf(),
            r is Ok ==> final(self).step == BootStep::AllocIpcBuffer
                && final(self).tls_base == Some(old(self).step->addr),
            r is Err ==> final(self).step == BootStep::Stopped,
    {
        let addr = match self.step {
            BootStep::SetTlsBase { addr } => addr,
            _ => 0,
        };
        match r {
            Ok(()) => {
                self.tls_base = Some(addr);
                self.step = BootStep::AllocIpcBuffer;
            },
            Err(_) => {
                self.step = BootStep::Stopped;
            },
        }
    }

    /// The IPC buffer allocation gave `addr`: register it, or panic.
    pub fn on_ipc_buffer(&mut self, addr: Option<usize>)
        requires
            old(self).wf(),
            old(self).step == BootStep::AllocIpcBuffer,
        ensures
            final(self).same_record(*old(self)),
            final(self).map_heap == old(self).map_heap,
            final(self).wf(),
            addr matches Some(a) ==> final(self).step == (BootStep::SetIpcBuffer { vaddr: a }),
            addr is None ==> final(self).step == (BootStep::Panicked { reason: BootFailure::IpcBufferAlloc }),
    {
        match addr {
            Some(a) => {
                self.step = BootStep::SetIpcBuffer { vaddr: a };
            },
            None => {
                self.step = BootStep::Panicked { reason: BootFailure::IpcBufferAlloc };
            },
        }
    }

    /// Registering the IPC buffer answered `r`: run `main`, or stop.
    pub fn on_ipc_buffer_set(&mut self, r: Result<(), ResponseLabel>)
        requires
            old(self).wf(),
            old(self).step is SetIpcBuffer,
        ensures
            r is Err ==> final(self).same_record(*old(self)),
            final(self).heap_ready == old(self).heap_ready,
            final(self).tls_base == old(self).tls_base,
            final(self).main_returned == old(self).main_returned,
            final(self).map_heap == old(self).map_heap,
            final(self).wf(),
            r is Ok ==> final(self).step == BootStep::RunMain
                && final(self).ipc_buffer == Some(old(self).step->vaddr),
            r is Err ==> final(self).step == BootStep::Stopped,
    {
        let vaddr = match self.step {
            BootStep::SetIpcBuffer { vaddr } => vaddr,
            _ => 0,
        };
        match r {
            Ok(()) => {
                self.ipc_buffer = Some(vaddr);
                self.step = BootStep::RunMain;
            },
            Err(_) => {
                self.step = BootStep::Stopped;
            },
        }
    }

    /// `main` returned: tell the parent.
    pub fn on_main_returned(&mut self)
        requires
            old(self).wf(),
            old(self).step == BootStep::RunMain,
        ensures
            final(self).main_returned,
            final(self).heap_ready == old(self).heap_ready,
            final(self).tls_base == old(self).tls_base,
            final(self).ipc_buffer == old(self).ipc_buffer,
            final(self).map_heap == old(self).map_heap,
            final(self).wf(),
            final(self).step == BootStep::SignalParent,
    {
        self.main_returned = true;
        self.step = BootStep::SignalParent;
    }

    /// The parent was signalled (whatever the kernel answered): suspend.
    pub fn on_parent_signalled(&mut self)
        requires
            old(self).wf(),
            old(self).step == BootStep::SignalParent,
        ensures
            final(self).same_record(*old(self)),
            final(self).map_heap == old(self).map_heap,
            final(self).wf(),
            final(self).step == BootStep::Suspend,
    {
        self.step = BootStep::Suspend;
    }

    /// The suspension answered `r` (after the thread was resumed): finish,
    /// or panic.
    pub fn on_suspended(&mut self, r: Result<(), ResponseLabel>)
        requires
            old(self).wf(),
            old(self).step == BootStep::Suspend,
        ensures
            final(self).same_record(*old(self)),
            final(self).map_heap == old(self).map_heap,
            final(self).wf(),
            r is Ok ==> final(self).step == BootStep::Finished,
            r matches Err(e) ==> final(self).step == (BootStep::Panicked { reason: BootFailure::Suspend { resp: e } }),
    {
        match r {
            Ok(()) => {
                self.step = BootStep::Finished;
            },
            Err(resp) => {
                self.step = BootStep::Panicked { reason: BootFailure::Suspend { resp } };
            },
        }
    }
}

/// The program's `main` runs only once the heap, the thread-local storage
/// and the IPC buffer are all in place, and the parent is told only after
/// `main` has returned.
pub proof fn lemma_main_runs_after_setup(b: Boot)
    requires
        b.wf(),
    ensures
        b.step == BootStep::RunMain ==> b.heap_ready && b.tls_base is Some && b.ipc_buffer is Some && !b.main_returned,
        b.step == BootStep::SignalParent ==> b.main_returned,
        b.step == BootStep::Stopped ==> b.heap_ready && !b.main_returned,
{
}

} // verus!
