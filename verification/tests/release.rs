use mork_user_lib::boot::Boot;
use mork_user_lib::message_info::ResponseLabel;
use mork_user_lib::mork_ipc_buffer::IpcBufferRegistration;
use mork_user_lib::mork_thread::{FreeStep, FreeThread, ThreadControlBlock};

fn owned() -> ThreadControlBlock {
    ThreadControlBlock { parent_task: 1, task_slot: 20, notification_slot: 21, ipc_buffer_vaddr: 0x3000, sp: 0x1000, tls: 0x2000 }
}

#[test]
fn free_thread_runs_every_step() {
    let mut m = FreeThread::new(owned());
    assert_eq!(m.current_step(), Some(FreeStep::DeleteObject { task: 1, object: 20 }));
    m.on_deleted(Ok(0));
    assert_eq!(m.current_step(), Some(FreeStep::DeleteObject { task: 1, object: 21 }));
    m.on_deleted(Ok(0));
    assert_eq!(m.current_step(), Some(FreeStep::DeallocIpcBuffer { addr: 0x1000 }));
    m.on_released();
    assert_eq!(m.current_step(), Some(FreeStep::DeallocStack { addr: 0x1000 }));
    m.on_released();
    assert_eq!(m.result(), None);
    assert_eq!(m.current_step(), Some(FreeStep::DeallocTls { addr: 0x2000 }));
    m.on_released();
    assert_eq!(m.current_step(), None);
    assert_eq!(m.result(), Some(Ok(())));
}

#[test]
fn free_thread_stops_at_refused_deletion() {
    let mut m = FreeThread::new(owned());
    m.on_deleted(Ok(0));
    m.on_deleted(Err(ResponseLabel::InvalidParam));
    assert_eq!(m.current_step(), None);
    assert_eq!(m.result(), Some(Err(ResponseLabel::InvalidParam)));

    let mut m = FreeThread::new(owned());
    m.on_deleted(Err(ResponseLabel::UnknownError));
    assert_eq!(m.current_step(), None);
    assert_eq!(m.result(), Some(Err(ResponseLabel::UnknownError)));
}

#[test]
fn free_thread_of_empty_block() {
    let m = FreeThread::new(ThreadControlBlock::default());
    assert_eq!(m.current_step(), None);
    assert_eq!(m.result(), Some(Ok(())));
}

#[test]
fn ipc_buffer_registration_follows_last_acceptance() {
    let mut r = IpcBufferRegistration::new();
    assert_eq!(r.buffer(), None);
    assert_eq!(r.on_registered(Err(ResponseLabel::InvalidParam), 0x8000), Err(()));
    assert_eq!(r.buffer(), None);
    assert_eq!(r.on_registered(Ok(()), 0x8000), Ok(()));
    assert_eq!(r.buffer(), Some(0x8000));
    assert_eq!(r.on_registered(Err(ResponseLabel::InvalidParam), 0x9000), Err(()));
    assert_eq!(r.buffer(), Some(0x8000));
    assert_eq!(r.on_registered(Ok(()), 0x9000), Ok(()));
    assert_eq!(r.buffer(), Some(0x9000));
}

#[test]
fn boot_steps_keep_their_record() {
    let mut b = Boot::new();
    b.on_heap_frame(Ok(50));
    assert!(!b.heap_ready && b.tls_base.is_none() && b.ipc_buffer.is_none() && !b.main_returned);
    b.map_heap.on_map_frame(Ok(()));
    b.on_heap_mapped();
    assert!(!b.heap_ready && b.tls_base.is_none());
    b.on_heap_ready();
    b.on_tls(Some(0x7000));
    assert!(b.heap_ready && b.tls_base.is_none());
    b.on_tls_base_set(Err(ResponseLabel::InvalidParam));
    assert!(b.heap_ready && b.tls_base.is_none() && b.ipc_buffer.is_none() && !b.main_returned);
}
