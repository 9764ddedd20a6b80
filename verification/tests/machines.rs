use mork_user_lib::boot::{Boot, BootFailure, BootStep, HEAP_START};
use mork_user_lib::constants::VMRights;
use mork_user_lib::message_info::ResponseLabel;
use mork_user_lib::mork_mm::{MapFrameAnyway, MapStep};
use mork_user_lib::mork_thread::{CreateStep, CreateThread, FreeStep, ThreadControlBlock, THREAD_STACK_SIZE};
use mork_user_lib::user_context::{UserContext, REG_A0, REG_A1, REG_SP, REG_TP};

fn rw() -> VMRights {
    VMRights::r().union(VMRights::w())
}

#[test]
fn map_anyway_maps_directly() {
    let mut m = MapFrameAnyway::new(1, 2, 30, 0x4000, rw(), Some(Vec::new()));
    m.on_map_frame(Ok(()));
    assert_eq!(m.step, MapStep::Mapped);
    assert_eq!(m.result(), Some(Ok(())));
    assert_eq!(m.into_page_tables(), Some(Vec::new()));
}

#[test]
fn map_anyway_fills_missing_page_tables() {
    let mut m = MapFrameAnyway::new(1, 2, 30, 0x4000, rw(), Some(vec![5]));
    m.on_map_frame(Err(ResponseLabel::PageTableMiss));
    assert_eq!(m.step, MapStep::AllocPageTable);
    m.on_page_table_allocated(Ok(40));
    assert_eq!(m.step, MapStep::MapPageTable { page_table: 40 });
    m.on_page_table_mapped(Ok(()));
    assert_eq!(m.step, MapStep::MapFrame);
    m.on_map_frame(Err(ResponseLabel::PageTableMiss));
    m.on_page_table_allocated(Ok(41));
    m.on_page_table_mapped(Ok(()));
    assert_eq!(m.result(), None);
    m.on_map_frame(Ok(()));
    assert_eq!(m.result(), Some(Ok(())));
    assert_eq!(m.into_page_tables(), Some(vec![5, 40, 41]));
}

#[test]
fn map_anyway_without_list_records_nothing() {
    let mut m = MapFrameAnyway::new(1, 2, 30, 0x4000, rw(), None);
    m.on_map_frame(Err(ResponseLabel::PageTableMiss));
    m.on_page_table_allocated(Ok(40));
    m.on_page_table_mapped(Ok(()));
    m.on_map_frame(Ok(()));
    assert_eq!(m.into_page_tables(), None);
}

#[test]
fn map_anyway_gives_up() {
    let mut m = MapFrameAnyway::new(1, 2, 30, 0x4001, rw(), Some(Vec::new()));
    m.on_map_frame(Err(ResponseLabel::InvalidParam));
    assert_eq!(m.result(), Some(Err(ResponseLabel::InvalidParam)));

    let mut m = MapFrameAnyway::new(1, 2, 30, 0x4000, rw(), Some(Vec::new()));
    m.on_map_frame(Err(ResponseLabel::PageTableMiss));
    m.on_page_table_allocated(Err(ResponseLabel::UnknownError));
    assert_eq!(m.result(), Some(Err(ResponseLabel::UnknownError)));

    let mut m = MapFrameAnyway::new(1, 2, 30, 0x4000, rw(), Some(Vec::new()));
    m.on_map_frame(Err(ResponseLabel::PageTableMiss));
    m.on_page_table_allocated(Ok(40));
    m.on_page_table_mapped(Err(ResponseLabel::InvalidParam));
    assert_eq!(m.result(), Some(Err(ResponseLabel::InvalidParam)));
    assert_eq!(m.into_page_tables(), Some(Vec::new()));
}

fn full_tcb() -> ThreadControlBlock {
    ThreadControlBlock { parent_task: 1, task_slot: 20, notification_slot: 21, ipc_buffer_vaddr: 0x3000, sp: 0x1000, tls: 0x2000 }
}

#[test]
fn free_releases_everything_owned() {
    assert_eq!(
        full_tcb().free(),
        vec![
            FreeStep::DeleteObject { task: 1, object: 20 },
            FreeStep::DeleteObject { task: 1, object: 21 },
            FreeStep::DeallocIpcBuffer { addr: 0x1000 },
            FreeStep::DeallocStack { addr: 0x1000 },
            FreeStep::DeallocTls { addr: 0x2000 },
        ]
    );
}

#[test]
fn free_skips_what_is_not_owned() {
    assert_eq!(ThreadControlBlock::default().free(), vec![]);
    let partial = ThreadControlBlock { sp: 0x1000, ..ThreadControlBlock::default() };
    assert_eq!(partial.free(), vec![FreeStep::DeallocStack { addr: 0x1000 }]);
}

#[test]
fn thread_wait_and_resume() {
    let tcb = full_tcb();
    assert_eq!(tcb.wait(), mork_user_lib::mork_ipc::mork_notification_wait(21));
    assert_eq!(tcb.resume(), mork_user_lib::mork_task::mork_task_resume(20));
}

fn ctx_with(value: usize) -> UserContext {
    let mut c = UserContext::new();
    for i in 0..32 {
        c.regs[i] = value + i;
    }
    c.sstatus = 0x22;
    c
}

#[test]
fn create_thread_succeeds() {
    let mut m = CreateThread::new(0xdead0, 0xbeef0);
    assert_eq!(m.step, CreateStep::AllocStack);
    m.on_stack(Some(0x10_0000));
    m.on_tls(Some(0x20_0000));
    m.on_ipc_buffer(Some(0x30_0000));
    m.on_task(Ok(40));
    m.on_notification(Ok(41));
    assert_eq!(m.step, CreateStep::CopyNotification);
    m.on_copy(Ok(3));
    assert_eq!(m.step, CreateStep::ReadRegisters);
    m.on_registers_read(Ok(ctx_with(100)));
    assert_eq!(m.step, CreateStep::WriteRegisters);
    assert_eq!(m.context.regs[REG_A0], 0xdead0);
    assert_eq!(m.context.regs[REG_A1], 0x30_0000);
    assert_eq!(m.context.regs[REG_SP], 0x10_0000 + THREAD_STACK_SIZE);
    assert_eq!(m.context.regs[REG_TP], 0x20_0000);
    assert_eq!(m.context.sepc, 0xbeef0);
    assert_eq!(m.context.regs[5], 105);
    assert_eq!(m.context.sstatus, 0x22);
    m.on_registers_written(Ok(()));
    assert_eq!(m.step, CreateStep::SetSpace);
    m.on_space_set(Ok(()));
    assert_eq!(m.step, CreateStep::Created);
    assert_eq!(
        m.tcb,
        ThreadControlBlock { parent_task: 1, task_slot: 40, notification_slot: 41, ipc_buffer_vaddr: 0x30_0000, sp: 0x10_0000, tls: 0x20_0000 }
    );
}

#[test]
fn create_thread_stack_failure_abandons() {
    let mut m = CreateThread::new(1, 2);
    m.on_stack(None);
    assert_eq!(m.step, CreateStep::Abandoned);
    assert_eq!(m.tcb.free(), vec![]);
}

#[test]
fn create_thread_memory_failure_releases() {
    let mut m = CreateThread::new(1, 2);
    m.on_stack(Some(0x1000));
    m.on_tls(None);
    assert_eq!(m.step, CreateStep::Release);
    assert_eq!(m.tcb.free(), vec![FreeStep::DeallocStack { addr: 0x1000 }]);

    let mut m = CreateThread::new(1, 2);
    m.on_stack(Some(0x1000));
    m.on_tls(Some(0x2000));
    m.on_ipc_buffer(None);
    assert_eq!(m.step, CreateStep::Release);
    assert_eq!(m.tcb.free(), vec![FreeStep::DeallocStack { addr: 0x1000 }, FreeStep::DeallocTls { addr: 0x2000 }]);
}

#[test]
fn create_thread_task_failure_abandons() {
    let mut m = CreateThread::new(1, 2);
    m.on_stack(Some(0x1000));
    m.on_tls(Some(0x2000));
    m.on_ipc_buffer(Some(0x3000));
    m.on_task(Err(ResponseLabel::UnknownError));
    assert_eq!(m.step, CreateStep::Abandoned);
}

#[test]
fn create_thread_kernel_failures_release() {
    let start = || {
        let mut m = CreateThread::new(1, 2);
        m.on_stack(Some(0x1000));
        m.on_tls(Some(0x2000));
        m.on_ipc_buffer(Some(0x3000));
        m.on_task(Ok(40));
        m
    };
    let mut m = start();
    m.on_notification(Err(ResponseLabel::UnknownError));
    assert_eq!(m.step, CreateStep::Release);
    assert_eq!(m.tcb.free()[0], FreeStep::DeleteObject { task: 1, object: 40 });

    let mut m = start();
    m.on_notification(Ok(41));
    m.on_copy(Err(ResponseLabel::InvalidParam));
    assert_eq!(m.step, CreateStep::Release);
    assert_eq!(m.tcb.free().len(), 5);

    let mut m = start();
    m.on_notification(Ok(41));
    m.on_copy(Ok(3));
    m.on_registers_read(Err(ResponseLabel::InvalidParam));
    assert_eq!(m.step, CreateStep::Release);

    let mut m = start();
    m.on_notification(Ok(41));
    m.on_copy(Ok(3));
    m.on_registers_read(Ok(UserContext::new()));
    m.on_registers_written(Err(ResponseLabel::InvalidParam));
    assert_eq!(m.step, CreateStep::Release);

    let mut m = start();
    m.on_notification(Ok(41));
    m.on_copy(Ok(3));
    m.on_registers_read(Ok(UserContext::new()));
    m.on_registers_written(Ok(()));
    m.on_space_set(Err(ResponseLabel::InvalidParam));
    assert_eq!(m.step, CreateStep::Release);
}

#[test]
fn boot_runs_main_after_setup() {
    let mut b = Boot::new();
    assert_eq!(b.step, BootStep::AllocHeapFrame);
    b.on_heap_frame(Ok(50));
    assert_eq!(b.step, BootStep::MapHeap);
    assert_eq!((b.map_heap.task, b.map_heap.vspace, b.map_heap.frame, b.map_heap.vaddr), (1, 2, 50, HEAP_START));
    assert_eq!(b.map_heap.vm_rights.bits(), 3);
    b.map_heap.on_map_frame(Err(ResponseLabel::PageTableMiss));
    b.map_heap.on_page_table_allocated(Ok(60));
    b.map_heap.on_page_table_mapped(Ok(()));
    b.map_heap.on_map_frame(Ok(()));
    b.on_heap_mapped();
    assert_eq!(b.step, BootStep::InitHeap);
    b.on_heap_ready();
    assert!(b.heap_ready);
    assert_eq!(b.step, BootStep::AllocTls);
    b.on_tls(Some(0x7000));
    assert_eq!(b.step, BootStep::SetTlsBase { addr: 0x7000 });
    b.on_tls_base_set(Ok(()));
    assert_eq!(b.tls_base, Some(0x7000));
    b.on_ipc_buffer(Some(0x8000));
    assert_eq!(b.step, BootStep::SetIpcBuffer { vaddr: 0x8000 });
    b.on_ipc_buffer_set(Ok(()));
    assert_eq!(b.step, BootStep::RunMain);
    assert_eq!(b.ipc_buffer, Some(0x8000));
    assert!(!b.main_returned);
    b.on_main_returned();
    assert_eq!(b.step, BootStep::SignalParent);
    b.on_parent_signalled();
    assert_eq!(b.step, BootStep::Suspend);
    b.on_suspended(Ok(()));
    assert_eq!(b.step, BootStep::Finished);
}

fn boot_to_tls() -> Boot {
    let mut b = Boot::new();
    b.on_heap_frame(Ok(50));
    b.map_heap.on_map_frame(Ok(()));
    b.on_heap_mapped();
    b.on_heap_ready();
    b
}

#[test]
fn boot_failures() {
    let mut b = Boot::new();
    b.on_heap_frame(Err(ResponseLabel::UnknownError));
    assert_eq!(b.step, BootStep::Panicked { reason: BootFailure::HeapFrame { resp: ResponseLabel::UnknownError } });

    let mut b = Boot::new();
    b.on_heap_frame(Ok(50));
    b.map_heap.on_map_frame(Err(ResponseLabel::InvalidParam));
    b.on_heap_mapped();
    assert_eq!(b.step, BootStep::Panicked { reason: BootFailure::HeapMap { resp: ResponseLabel::InvalidParam } });

    let mut b = boot_to_tls();
    b.on_tls(None);
    assert_eq!(b.step, BootStep::Stopped);

    let mut b = boot_to_tls();
    b.on_tls(Some(0x7000));
    b.on_tls_base_set(Err(ResponseLabel::InvalidParam));
    assert_eq!(b.step, BootStep::Stopped);

    let mut b = boot_to_tls();
    b.on_tls(Some(0x7000));
    b.on_tls_base_set(Ok(()));
    b.on_ipc_buffer(None);
    assert_eq!(b.step, BootStep::Panicked { reason: BootFailure::IpcBufferAlloc });

    let mut b = boot_to_tls();
    b.on_tls(Some(0x7000));
    b.on_tls_base_set(Ok(()));
    b.on_ipc_buffer(Some(0x8000));
    b.on_ipc_buffer_set(Err(ResponseLabel::InvalidParam));
    assert_eq!(b.step, BootStep::Stopped);
    assert!(!b.main_returned);

    let mut b = boot_to_tls();
    b.on_tls(Some(0x7000));
    b.on_tls_base_set(Ok(()));
    b.on_ipc_buffer(Some(0x8000));
    b.on_ipc_buffer_set(Ok(()));
    b.on_main_returned();
    b.on_parent_signalled();
    b.on_suspended(Err(ResponseLabel::UnknownError));
    assert_eq!(b.step, BootStep::Panicked { reason: BootFailure::Suspend { resp: ResponseLabel::UnknownError } });
}

#[test]
fn user_context_setters() {
    let mut c = UserContext::new();
    assert_eq!(c.regs, [0; 32]);
    c.set_arg0(1);
    c.set_arg1(2);
    c.set_sp(3);
    c.set_tls(4);
    c.set_next_ip(5);
    assert_eq!((c.get_reg(10), c.get_reg(11), c.get_reg(2), c.get_reg(4), c.sepc), (1, 2, 3, 4, 5));
    assert_eq!(c.get_reg(1), 0);
}
