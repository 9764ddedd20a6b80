use vstd::prelude::*;

pub mod boot;
pub mod constants;
pub mod hal;
pub mod message_info;
pub mod mork_alloc;
pub mod mork_cspace;
pub mod mork_ipc;
pub mod mork_ipc_buffer;
pub mod mork_mm;
pub mod mork_task;
pub mod mork_thread;
pub mod user_context;

use crate::hal::SyscallArgs;

verus! {

/// The trap that powers the machine off.
pub fn mork_shutdown() -> (a: SyscallArgs)
    ensures
        a == hal::bare_trap(hal::Syscall::SysDebugShutdown, 0),
{
    hal::sys_shutdown()
}

/// Does nothing; a symbol for programs to link against.
pub fn dummy_function() {
}

} // verus!
