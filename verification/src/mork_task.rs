use vstd::prelude::*;
use crate::hal::{invocation, invoke, SyscallArgs};
use crate::message_info::InvocationLabel;

verus! {

/// Stops thread `task`.
pub fn mork_task_suspend(task: usize) -> (a: SyscallArgs)
    ensures
        a == invocation(task, InvocationLabel::TCBSuspend, 0, 0, 0, 0, 0),
{
    invoke(task, InvocationLabel::TCBSuspend, 0, 0, 0, 0, 0)
}

/// Starts thread `task` again.
pub fn mork_task_resume(task: usize) -> (a: SyscallArgs)
    ensures
        a == invocation(task, InvocationLabel::TCBResume, 0, 0, 0, 0, 0),
{
    invoke(task, InvocationLabel::TCBResume, 0, 0, 0, 0, 0)
}

/// Gives thread `task` the address space in slot `vspace`.
pub fn mork_task_set_space(task: usize, vspace: usize) -> (a: SyscallArgs)
    ensures
        a == invocation(task, InvocationLabel::TCBSetSpace, 1, vspace, 0, 0, 0),
{
    invoke(task, InvocationLabel::TCBSetSpace, 1, vspace, 0, 0, 0)
}

/// Tells the kernel where thread `task`'s IPC buffer lies.
pub fn mork_task_set_ipc_buffer(task: usize, vaddr: usize) -> (a: SyscallArgs)
    ensures
        a == invocation(task, InvocationLabel::TCBSetIPCBuffer, 1, vaddr, 0, 0, 0),
{
    invoke(task, InvocationLabel::TCBSetIPCBuffer, 1, vaddr, 0, 0, 0)
}

/// Sets the thread-local storage base of thread `task`.
pub fn mork_task_set_tls_base(task: usize, tls_base: usize) -> (a: SyscallArgs)
    ensures
        a == invocation(task, InvocationLabel::TCBSetTLSBase, 1, tls_base, 0, 0, 0),
{
    invoke(task, InvocationLabel::TCBSetTLSBase, 1, tls_base, 0, 0, 0)
}

/// Asks the kernel to copy thread `task`'s registers into the caller's IPC
/// buffer.
pub fn mork_task_read_registers(task: usize) -> (a: SyscallArgs)
    ensures
        a == invocation(task, InvocationLabel::TCBReadRegisters, 0, 0, 0, 0, 0),
{
    invoke(task, InvocationLabel::TCBReadRegisters, 0, 0, 0, 0, 0)
}

/// Asks the kernel to load thread `task`'s registers from the caller's IPC
/// buffer.
pub fn mork_task_write_registers(task: usize) -> (a: SyscallArgs)
    ensures
        a == invocation(task, InvocationLabel::TCBWriteRegisters, 0, 0, 0, 0, 0),
{
    invoke(task, InvocationLabel::TCBWriteRegisters, 0, 0, 0, 0, 0)
}

} // verus!
