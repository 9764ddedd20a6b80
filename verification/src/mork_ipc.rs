use vstd::prelude::*;
use crate::hal::{bare_trap, sys_nb_send, sys_receive, Syscall, SyscallArgs};

verus! {

/// Signals the notification in slot `notification`; the reply word says
/// whether it was delivered (read it with `unit_reply`).
pub fn mork_notification_signal(notification: usize) -> (a: SyscallArgs)
    ensures
        a == bare_trap(Syscall::SysNBSend, notification),
{
    sys_nb_send(notification)
}

/// Waits on the notification in slot `notification`; the reply carries the
/// badge of the signal (read it with `badge_reply`).
pub fn mork_notification_wait(notification: usize) -> (a: SyscallArgs)
    ensures
        a == bare_trap(Syscall::SysRecv, notification),
{
    sys_receive(notification)
}

} // verus!
