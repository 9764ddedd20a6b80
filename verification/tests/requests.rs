use mork_user_lib::boot::{Boot, BootStep};
use mork_user_lib::constants::{ObjectType, VMRights};
use mork_user_lib::hal::sys_nb_send;
use mork_user_lib::message_info::ResponseLabel;
use mork_user_lib::mork_cspace::{mork_alloc_object, mork_cspace_copy};
use mork_user_lib::mork_ipc_buffer::{buffer_to_install, context_from_words, context_to_words, ipc_buffer_init_with_vaddr, IPC_MSG_WORDS};
use mork_user_lib::mork_mm::{mork_map_frame, mork_map_page_table, MapFrameAnyway};
use mork_user_lib::mork_task::{
    mork_task_read_registers, mork_task_set_ipc_buffer, mork_task_set_space, mork_task_set_tls_base, mork_task_suspend,
    mork_task_write_registers,
};
use mork_user_lib::mork_thread::{CreateStep, CreateThread};
use mork_user_lib::user_context::UserContext;

#[test]
fn map_anyway_requests() {
    let rw = VMRights::r().union(VMRights::w());
    let mut m = MapFrameAnyway::new(1, 2, 30, 0x4000, rw, None);
    assert_eq!(m.request(), Some(mork_map_frame(2, 30, 0x4000, rw)));
    m.on_map_frame(Err(ResponseLabel::PageTableMiss));
    assert_eq!(m.request(), Some(Ok(mork_alloc_object(1, ObjectType::PageTable))));
    m.on_page_table_allocated(Ok(40));
    assert_eq!(m.request(), Some(mork_map_page_table(2, 40, 0x4000)));
    m.on_page_table_mapped(Ok(()));
    m.on_map_frame(Ok(()));
    assert_eq!(m.request(), None);
    let unaligned = MapFrameAnyway::new(1, 2, 30, 0x4001, rw, None);
    assert_eq!(unaligned.request(), Some(Err(ResponseLabel::InvalidParam)));
}

#[test]
fn create_thread_requests() {
    let mut m = CreateThread::new(7, 8);
    assert_eq!(m.request(), None);
    m.on_stack(Some(0x1000));
    m.on_tls(Some(0x2000));
    m.on_ipc_buffer(Some(0x3000));
    assert_eq!(m.request(), Some(mork_alloc_object(1, ObjectType::Thread)));
    m.on_task(Ok(40));
    assert_eq!(m.request(), Some(mork_alloc_object(1, ObjectType::Notification)));
    m.on_notification(Ok(41));
    assert_eq!(m.request(), Some(mork_cspace_copy(1, 41, 40, 3)));
    m.on_copy(Ok(3));
    assert_eq!(m.request(), Some(mork_task_read_registers(1)));
    m.on_registers_read(Ok(UserContext::new()));
    assert_eq!(m.request(), Some(mork_task_write_registers(40)));
    m.on_registers_written(Ok(()));
    assert_eq!(m.request(), Some(mork_task_set_space(40, 2)));
    m.on_space_set(Ok(()));
    assert_eq!(m.step, CreateStep::Created);
    assert_eq!(m.request(), None);
    assert!(m.tcb.sp != 0 && m.tcb.tls != 0 && m.tcb.ipc_buffer_vaddr != 0);
}

#[test]
fn boot_requests() {
    let mut b = Boot::new();
    assert_eq!(b.request(), Some(mork_alloc_object(1, ObjectType::Frame2M)));
    b.on_heap_frame(Ok(50));
    assert_eq!(b.request(), None);
    b.map_heap.on_map_frame(Ok(()));
    b.on_heap_mapped();
    b.on_heap_ready();
    b.on_tls(Some(0x7000));
    assert_eq!(b.request(), Some(mork_task_set_tls_base(1, 0x7000)));
    b.on_tls_base_set(Ok(()));
    b.on_ipc_buffer(Some(0x8000));
    assert_eq!(b.request(), Some(mork_task_set_ipc_buffer(1, 0x8000)));
    b.on_ipc_buffer_set(Ok(()));
    assert_eq!(b.step, BootStep::RunMain);
    assert_eq!(b.request(), None);
    b.on_main_returned();
    assert_eq!(b.request(), Some(sys_nb_send(3)));
    b.on_parent_signalled();
    assert_eq!(b.request(), Some(mork_task_suspend(1)));
}

#[test]
fn context_round_trip_through_words() {
    let mut c = UserContext::new();
    for i in 0..32 {
        c.regs[i] = 1000 + i;
    }
    c.sepc = 0x8000_0000;
    c.sstatus = 0x22;
    let mut msg = [7usize; IPC_MSG_WORDS];
    context_to_words(&c, &mut msg);
    assert_eq!(msg[0], 1000);
    assert_eq!(msg[31], 1031);
    assert_eq!(msg[32], 0x8000_0000);
    assert_eq!(msg[33], 0x22);
    assert_eq!(msg[34], 7);
    assert_eq!(msg[IPC_MSG_WORDS - 1], 7);
    let back = context_from_words(&msg);
    assert_eq!(back.regs, c.regs);
    assert_eq!((back.sepc, back.sstatus), (c.sepc, c.sstatus));
}

#[test]
fn ipc_buffer_registration() {
    assert_eq!(ipc_buffer_init_with_vaddr(1, 0x9000), mork_task_set_ipc_buffer(1, 0x9000));
    assert_eq!(buffer_to_install(Ok(()), 0x9000), Ok(0x9000));
    assert_eq!(buffer_to_install(Err(ResponseLabel::InvalidParam), 0x9000), Err(()));
}
