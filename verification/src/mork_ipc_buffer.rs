use vstd::prelude::*;
use crate::hal::{invocation, SyscallArgs};
use crate::message_info::{InvocationLabel, ResponseLabel};
use crate::mork_task::mork_task_set_ipc_buffer;
use crate::user_context::UserContext;

verus! {

/// Message words in an IPC buffer.
pub const IPC_MSG_WORDS: usize = 120;

/// `msg` carries `c`: its first 32 words are the general registers, then the
/// resume address and the status word.
pub open spec fn holds_context(msg: Seq<usize>, c: UserContext) -> bool {
    &&& msg.len() == IPC_MSG_WORDS
    &&& msg.subrange(0, 32) == c.regs@
    &&& msg[32] == c.sepc
    &&& msg[33] == c.sstatus
}

/// The registers that the kernel left in the message words `msg`.
pub fn context_from_words(msg: &[usize; IPC_MSG_WORDS]) -> (c: UserContext)
    ensures
        holds_context(msg@, c),
{
    let mut c = UserContext::new();
    for i in 0..32
        invariant
            msg@.len() == IPC_MSG_WORDS,
            c.regs@.len() == 32,
            forall|j: int| 0 <= j < i ==> #[trigger] c.regs@[j] == msg@[j],
    {
        c.regs[i] = msg[i];
    }
    c.sepc = msg[32];
    c.sstatus = msg[33];
    assert(msg@.subrange(0, 32) =~= c.regs@);
    c
}

/// Puts `c` in the message words `msg` for the kernel to read; the words
/// after the transfer keep their values.
pub fn context_to_words(c: &UserContext, msg: &mut [usize; IPC_MSG_WORDS])
    ensures
        holds_context(final(msg)@, *c),
        final(msg)@.subrange(34, IPC_MSG_WORDS as int) == old(msg)@.subrange(34, IPC_MSG_WORDS as int),
{
    for i in 0..32
        invariant
            msg@.len() == IPC_MSG_WORDS,
            c.regs@.len() == 32,
            forall|j: int| 0 <= j < i ==> #[trigger] msg@[j] == c.regs@[j],
            forall|j: int| 32 <= j < IPC_MSG_WORDS ==> #[trigger] msg@[j] == old(msg)@[j],
    {
        msg[i] = c.regs[i];
    }
    msg[32] = c.sepc;
    msg[33] = c.sstatus;
    assert(msg@.subrange(0, 32) =~= c.regs@);
    assert(msg@.subrange(34, IPC_MSG_WORDS as int) =~= old(msg)@.subrange(34, IPC_MSG_WORDS as int));
}

/// Message words carry at most one set of registers: reading back what was
/// written gives the registers that were written.
pub proof fn lemma_context_round_trip(msg: Seq<usize>, written: UserContext, read: UserContext)
    requires
        holds_context(msg, written),
        holds_context(msg, read),
    ensures
        read == written,
{
    assert(read.regs =~= written.regs) by {
        broadcast use vstd::array::axiom_array_ext_equal;
        assert forall|i: int| 0 <= i < 32 implies read.regs[i] == written.regs[i] by {
            assert(read.regs@[i] == msg.subrange(0, 32)[i]);
        }
    }
}

/// Registers the page at `vaddr` as `thread`'s IPC buffer.
pub fn ipc_buffer_init_with_vaddr(thread: usize, vaddr: usize) -> (a: SyscallArgs)
    ensures
        a == invocation(thread, InvocationLabel::TCBSetIPCBuffer, 1, vaddr, 0, 0, 0),
{
    mork_task_set_ipc_buffer(thread, vaddr)
}

/// What to make the current thread's IPC buffer once the kernel answered
/// `reply` to the registration of `vaddr`: the page at `vaddr` on success,
/// nothing (a failed registration) otherwise.
pub fn buffer_to_install(reply: Result<(), ResponseLabel>, vaddr: usize) -> (r: Result<usize, ()>)
    ensures
        reply is Ok ==> r == Ok::<usize, ()>(vaddr),
        reply is Err ==> r == Err::<usize, ()>(()),
{
    match reply {
        Ok(()) => Ok(vaddr),
        Err(_) => Err(()),
    }
}

/// Which buffer the current thread uses once the kernel answered `reply` to
/// the registration of `vaddr`, given that it used `before`.
pub open spec fn registered_after(before: Option<usize>, reply: Result<(), ResponseLabel>, vaddr: usize) -> Option<usize> {
    if reply is Ok { Some(vaddr) } else { before }
}

/// The buffer that the last accepted registration of `history` named, if
/// any was accepted; each entry is a kernel reply and the address it
/// answered.
pub open spec fn last_accepted(history: Seq<(Result<(), ResponseLabel>, usize)>) -> Option<usize>
    decreases history.len(),
{
    if history.len() == 0 {
        None
    } else if history.last().0 is Ok {
        Some(history.last().1)
    } else {
        last_accepted(history.drop_last())
    }
}

/// The buffer of a registration that starts with none, after `history`.
pub open spec fn after_history(history: Seq<(Result<(), ResponseLabel>, usize)>) -> Option<usize>
    decreases history.len(),
{
    if history.len() == 0 {
        None
    } else {
        registered_after(after_history(history.drop_last()), history.last().0, history.last().1)
    }
}

/// The IPC buffer that the kernel knows for the current thread, as the
/// thread registered it.
pub struct IpcBufferRegistration {
    buffer: Option<usize>,
}

impl IpcBufferRegistration {
    /// The buffer that accesses use.
    pub closed spec fn registered(self) -> Option<usize> {
        self.buffer
    }

    /// No buffer registered yet.
    pub fn new() -> (r: IpcBufferRegistration)
        ensures
            r.registered() is None,
    {
        IpcBufferRegistration { buffer: None }
    }

    /// The kernel answered `reply` to the registration of `vaddr`: on
    /// success the buffer at `vaddr` is the one used from now on; a refused
    /// registration changes nothing and fails.
    pub fn on_registered(&mut self, reply: Result<(), ResponseLabel>, vaddr: usize) -> (r: Result<(), ()>)
        ensures
            final(self).registered() == registered_after(old(self).registered(), reply, vaddr),
            reply is Ok ==> r == Ok::<(), ()>(()),
            reply is Err ==> r == Err::<(), ()>(()),
    {
        match buffer_to_install(reply, vaddr) {
            Ok(addr) => {
                self.buffer = Some(addr);
                Ok(())
            },
            Err(()) => Err(()),
        }
    }

    /// The buffer that an access uses now.
    pub fn buffer(&self) -> (b: Option<usize>)
        ensures
            b == self.registered(),
    {
        self.buffer
    }
}

/// After any run of registrations, accesses use the buffer of the last one
/// the kernel accepted, and no buffer if it accepted none.
pub proof fn lemma_accesses_use_last_accepted(history: Seq<(Result<(), ResponseLabel>, usize)>)
    ensures
        after_history(history) == last_accepted(history),
    decreases history.len(),
{
    if history.len() > 0 {
        lemma_accesses_use_last_accepted(history.drop_last());
    }
}

} // verus!
