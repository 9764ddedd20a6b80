use mork_user_lib::constants::{ObjectType, VMRights};
use mork_user_lib::hal::{Syscall, SyscallArgs};
use mork_user_lib::message_info::{InvocationLabel, ResponseLabel};
use mork_user_lib::mork_alloc;
use mork_user_lib::mork_cspace::{mork_alloc_object, mork_cspace_copy, mork_delete_object};
use mork_user_lib::mork_ipc::{mork_notification_signal, mork_notification_wait};
use mork_user_lib::mork_mm::{mork_map_frame, mork_map_page_table, mork_unmap_frame, mork_unmap_page_table};
use mork_user_lib::mork_task::{
    mork_task_read_registers, mork_task_resume, mork_task_set_ipc_buffer, mork_task_set_space, mork_task_set_tls_base,
    mork_task_suspend, mork_task_write_registers,
};

fn call(dest: usize, label: InvocationLabel, length: usize, mrs: [usize; 4]) -> SyscallArgs {
    SyscallArgs {
        sys: Syscall::Syscall,
        dest,
        info: (label.as_usize() << 12) | length,
        mr0: mrs[0],
        mr1: mrs[1],
        mr2: mrs[2],
        mr3: mrs[3],
    }
}

#[test]
fn cspace_invocations() {
    assert_eq!(mork_alloc_object(1, ObjectType::Notification), call(1, InvocationLabel::CNodeAlloc, 1, [2, 0, 0, 0]));
    assert_eq!(mork_delete_object(1, 17), call(1, InvocationLabel::CNodeDelete, 1, [17, 0, 0, 0]));
    assert_eq!(mork_cspace_copy(1, 17, 20, 3), call(1, InvocationLabel::CNodeCopy, 3, [17, 20, 3, 0]));
    assert_eq!(
        mork_alloc::mork_alloc_object(1, ObjectType::Frame2M),
        call(1, InvocationLabel::AllocObject, 1, [4, 0, 0, 0])
    );
}

#[test]
fn task_invocations() {
    assert_eq!(mork_task_suspend(1), call(1, InvocationLabel::TCBSuspend, 0, [0; 4]));
    assert_eq!(mork_task_resume(8), call(8, InvocationLabel::TCBResume, 0, [0; 4]));
    assert_eq!(mork_task_set_space(8, 2), call(8, InvocationLabel::TCBSetSpace, 1, [2, 0, 0, 0]));
    assert_eq!(mork_task_set_ipc_buffer(1, 0x9000), call(1, InvocationLabel::TCBSetIPCBuffer, 1, [0x9000, 0, 0, 0]));
    assert_eq!(mork_task_set_tls_base(1, 0xa000), call(1, InvocationLabel::TCBSetTLSBase, 1, [0xa000, 0, 0, 0]));
    assert_eq!(mork_task_read_registers(1), call(1, InvocationLabel::TCBReadRegisters, 0, [0; 4]));
    assert_eq!(mork_task_write_registers(8), call(8, InvocationLabel::TCBWriteRegisters, 0, [0; 4]));
}

#[test]
fn notification_traps() {
    assert_eq!(mork_notification_signal(3).sys, Syscall::SysNBSend);
    assert_eq!(mork_notification_signal(3).dest, 3);
    assert_eq!(mork_notification_wait(5).sys, Syscall::SysRecv);
    assert_eq!(mork_notification_wait(5).dest, 5);
}

#[test]
fn map_frame_checks_alignment() {
    let rw = VMRights::r().union(VMRights::w());
    assert_eq!(mork_map_frame(2, 30, 0x4440_0001, rw), Err(ResponseLabel::InvalidParam));
    assert_eq!(mork_map_frame(2, 30, 0x4440_0000, rw), Ok(call(2, InvocationLabel::PageMap, 4, [30, 0x4440_0000, 3, 0])));
}

#[test]
fn map_page_table_checks_alignment() {
    assert_eq!(mork_map_page_table(2, 31, 0x123), Err(ResponseLabel::InvalidParam));
    assert_eq!(mork_map_page_table(2, 31, 0x2000), Ok(call(2, InvocationLabel::PageTableMap, 2, [31, 0x2000, 0, 0])));
}

#[test]
fn unmap_invocations() {
    assert_eq!(mork_unmap_frame(2, 30), call(2, InvocationLabel::PageUnmap, 1, [30, 0, 0, 0]));
    assert_eq!(mork_unmap_page_table(2, 31), call(2, InvocationLabel::PageTableUnmap, 1, [31, 0, 0, 0]));
}
