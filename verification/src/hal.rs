use vstd::prelude::*;
use crate::message_info::MessageInfo;
use crate::message_info::ResponseLabel;
use crate::message_info::InvocationLabel;
use crate::message_info::pack;
use crate::message_info::lemma_invocation_message;

verus! {

/// The kinds of trap into the kernel.
#[derive(Clone, Copy, Debug, PartialEq, Eq, Structural)]
pub enum Syscall {
    /// Invoke a capability and wait for the reply.
    Syscall,
    /// Signal without blocking.
    SysNBSend,
    /// Wait for a signal.
    SysRecv,
    /// Print one byte on the debug console.
    SysDebugPutChar,
    /// Power the machine off.
    SysDebugShutdown,
}

impl Syscall {
    /// The number that selects the trap.
    pub open spec fn code(self) -> isize {
        match self {
            Syscall::Syscall => -1isize,
            Syscall::SysNBSend => -2isize,
            Syscall::SysRecv => -3isize,
            Syscall::SysDebugPutChar => -4isize,
            Syscall::SysDebugShutdown => -5isize,
        }
    }

    pub fn as_isize(&self) -> (c: isize)
        ensures
            c == self.code(),
    {
        match self {
            Syscall::Syscall => -1,
            Syscall::SysNBSend => -2,
            Syscall::SysRecv => -3,
            Syscall::SysDebugPutChar => -4,
            Syscall::SysDebugShutdown => -5,
        }
    }
}

/// The registers that one trap hands to the kernel: the trap kind, the
/// destination capability, the message word and four message registers.
#[derive(Clone, Copy, Debug, PartialEq, Eq, Structural)]
pub struct SyscallArgs {
    pub sys: Syscall,
    pub dest: usize,
    pub info: usize,
    pub mr0: usize,
    pub mr1: usize,
    pub mr2: usize,
    pub mr3: usize,
}

/// The registers that the kernel hands back: the badge, the reply's message
/// word and four message registers.
#[derive(Clone, Copy, Debug, PartialEq, Eq, Structural)]
pub struct SyscallRet {
    pub badge: usize,
    pub info: MessageInfo,
    pub mr0: usize,
    pub mr1: usize,
    pub mr2: usize,
    pub mr3: usize,
}

/// A trap that carries nothing but its kind and destination.
pub open spec fn bare_trap(sys: Syscall, dest: usize) -> SyscallArgs {
    SyscallArgs { sys, dest, info: 0, mr0: 0, mr1: 0, mr2: 0, mr3: 0 }
}

/// The registers of an invocation: message register `i` is sent when the
/// message's length is above `i`, and zero is sent in its place otherwise.
pub open spec fn call_args(dest: usize, msg_info: MessageInfo, mr0: usize, mr1: usize, mr2: usize, mr3: usize) -> SyscallArgs {
    let n = MessageInfo::length_of(msg_info.word);
    SyscallArgs {
        sys: Syscall::Syscall,
        dest,
        info: msg_info.word,
        mr0: if n > 0 { mr0 } else { 0 },
        mr1: if n > 1 { mr1 } else { 0 },
        mr2: if n > 2 { mr2 } else { 0 },
        mr3: if n > 3 { mr3 } else { 0 },
    }
}

/// What the kernel's reply word says of the request: success, or the outcome its label names.
pub open spec fn reply_status(tag: MessageInfo) -> Result<(), ResponseLabel> {
    let label = MessageInfo::label_of(tag.word);
    if label == ResponseLabel::Success.code() {
        Ok(())
    } else {
        Err(ResponseLabel::from_code(label))
    }
}

/// The registers of an invocation of `label` on capability `dest` with
/// `length` message registers, the unused ones zero.
pub open spec fn invocation(dest: usize, label: InvocationLabel, length: usize, mr0: usize, mr1: usize, mr2: usize, mr3: usize) -> SyscallArgs {
    SyscallArgs { sys: Syscall::Syscall, dest, info: pack(label.code(), 0, 0, length), mr0, mr1, mr2, mr3 }
}

/// Builds the message for `label` and the trap that carries it.
pub(crate) fn invoke(dest: usize, label: InvocationLabel, length: usize, mr0: usize, mr1: usize, mr2: usize, mr3: usize) -> (a: SyscallArgs)
    requires
        length <= 4,
        length <= 0 ==> mr0 == 0,
        length <= 1 ==> mr1 == 0,
        length <= 2 ==> mr2 == 0,
        length <= 3 ==> mr3 == 0,
    ensures
        a == invocation(dest, label, length, mr0, mr1, mr2, mr3),
{
    let message_info = MessageInfo::new(label, 0, 0, length);
    proof {
        lemma_invocation_message(label, length);
    }
    call_with_mrs(dest, message_info, mr0, mr1, mr2, mr3)
}

/// The trap that prints `v8` on the debug console.
pub fn sys_put_char(v8: u8) -> (a: SyscallArgs)
    ensures
        a == bare_trap(Syscall::SysDebugPutChar, v8 as usize),
{
    SyscallArgs { sys: Syscall::SysDebugPutChar, dest: v8 as usize, info: 0, mr0: 0, mr1: 0, mr2: 0, mr3: 0 }
}

/// The trap that powers the machine off.
pub fn sys_shutdown() -> (a: SyscallArgs)
    ensures
        a == bare_trap(Syscall::SysDebugShutdown, 0),
{
    SyscallArgs { sys: Syscall::SysDebugShutdown, dest: 0, info: 0, mr0: 0, mr1: 0, mr2: 0, mr3: 0 }
}

/// The trap that signals the notification in slot `dest` without blocking;
/// the kernel's reply word is the result.
pub fn sys_nb_send(dest: usize) -> (a: SyscallArgs)
    ensures
        a == bare_trap(Syscall::SysNBSend, dest),
{
    SyscallArgs { sys: Syscall::SysNBSend, dest, info: 0, mr0: 0, mr1: 0, mr2: 0, mr3: 0 }
}

/// The trap that waits on the notification in slot `dest`; the kernel's
/// reply word and the badge are the result.
pub fn sys_receive(dest: usize) -> (a: SyscallArgs)
    ensures
        a == bare_trap(Syscall::SysRecv, dest),
{
    SyscallArgs { sys: Syscall::SysRecv, dest, info: 0, mr0: 0, mr1: 0, mr2: 0, mr3: 0 }
}

/// The trap that invokes capability `dest` with `msg_info`; only the first
/// `msg_info.get_length()` message registers carry their values.
pub fn call_with_mrs(dest: usize, msg_info: MessageInfo, mr0: usize, mr1: usize, mr2: usize, mr3: usize) -> (a: SyscallArgs)
    ensures
        a == call_args(dest, msg_info, mr0, mr1, mr2, mr3),
        a.sys == Syscall::Syscall,
        a.dest == dest,
        a.info == msg_info.word,
        a.mr0 == (if msg_info.word & 0x7f > 0 { mr0 } else { 0 }),
        a.mr1 == (if msg_info.word & 0x7f > 1 { mr1 } else { 0 }),
        a.mr2 == (if msg_info.word & 0x7f > 2 { mr2 } else { 0 }),
        a.mr3 == (if msg_info.word & 0x7f > 3 { mr3 } else { 0 }),
{
    proof {
        lemma_call_registers(dest, msg_info, mr0, mr1, mr2, mr3);
    }
    let n = msg_info.get_length();
    let msg0 = if n > 0 { mr0 } else { 0 };
    let msg1 = if n > 1 { mr1 } else { 0 };
    let msg2 = if n > 2 { mr2 } else { 0 };
    let msg3 = if n > 3 { mr3 } else { 0 };
    SyscallArgs { sys: Syscall::Syscall, dest, info: msg_info.word, mr0: msg0, mr1: msg1, mr2: msg2, mr3: msg3 }
}

/// Reads the kernel's reply word: `Ok` when its label is the success label,
/// else the outcome the label names.
pub fn check_reply(tag: MessageInfo) -> (r: Result<(), ResponseLabel>)
    ensures
        r == reply_status(tag),
{
    let label = tag.get_label();
    if label != ResponseLabel::Success.as_usize() {
        Err(ResponseLabel::from_usize(label))
    } else {
        Ok(())
    }
}

/// Reads a reply that carries a value: `value` when the reply word reports
/// success, else the outcome its label names.
pub fn reply_value(tag: MessageInfo, value: usize) -> (r: Result<usize, ResponseLabel>)
    ensures
        reply_status(tag) is Ok ==> r == Ok::<usize, ResponseLabel>(value),
        reply_status(tag) matches Err(e) ==> r == Err::<usize, ResponseLabel>(e),
{
    match check_reply(tag) {
        Ok(()) => Ok(value),
        Err(e) => Err(e),
    }
}

/// The result of a request whose reply carries nothing.
pub fn unit_reply(ret: &SyscallRet) -> (r: Result<(), ResponseLabel>)
    ensures
        r == reply_status(ret.info),
{
    check_reply(ret.info)
}

/// The result of an invocation whose reply carries a value in the first
/// message register.
pub fn value_reply(ret: &SyscallRet) -> (r: Result<usize, ResponseLabel>)
    ensures
        reply_status(ret.info) is Ok ==> r == Ok::<usize, ResponseLabel>(ret.mr0),
        reply_status(ret.info) matches Err(e) ==> r == Err::<usize, ResponseLabel>(e),
{
    reply_value(ret.info, ret.mr0)
}

/// The result of a wait: the badge of the signal.
pub fn badge_reply(ret: &SyscallRet) -> (r: Result<usize, ResponseLabel>)
    ensures
        reply_status(ret.info) is Ok ==> r == Ok::<usize, ResponseLabel>(ret.badge),
        reply_status(ret.info) matches Err(e) ==> r == Err::<usize, ResponseLabel>(e),
{
    reply_value(ret.info, ret.badge)
}

/// A failed reply never reports success.
pub proof fn lemma_reply_error_is_not_success(tag: MessageInfo)
    ensures
        reply_status(tag) matches Err(e) ==> e != ResponseLabel::Success,
        reply_status(tag) is Ok <==> MessageInfo::label_of(tag.word) == 0,
{
}

/// A message register past the message's length is never sent.
pub proof fn lemma_call_sends_only_length(dest: usize, msg_info: MessageInfo, mr0: usize, mr1: usize, mr2: usize, mr3: usize)
    ensures
        MessageInfo::length_of(msg_info.word) >= 4 ==> call_args(dest, msg_info, mr0, mr1, mr2, mr3) == (SyscallArgs {
            sys: Syscall::Syscall, dest, info: msg_info.word, mr0, mr1, mr2, mr3,
        }),
        MessageInfo::length_of(msg_info.word) == 0 ==> call_args(dest, msg_info, mr0, mr1, mr2, mr3) == (SyscallArgs {
            sys: Syscall::Syscall, dest, info: msg_info.word, mr0: 0, mr1: 0, mr2: 0, mr3: 0,
        }),
{
}

/// An invocation sends exactly the message registers its length covers:
/// for a message whose length field (the low seven bits of its word) is
/// `n`, register `i` carries its value when `n > i` and zero otherwise, for
/// every `n`; the trap kind is an invocation of `dest` with the message
/// word itself.
pub proof fn lemma_call_registers(dest: usize, msg_info: MessageInfo, mr0: usize, mr1: usize, mr2: usize, mr3: usize)
    ensures
        ({
            let a = call_args(dest, msg_info, mr0, mr1, mr2, mr3);
            let n = msg_info.word & 0x7f;
            &&& a.sys == Syscall::Syscall
            &&& a.dest == dest
            &&& a.info == msg_info.word
            &&& (n > 0 ==> a.mr0 == mr0) &&& (n <= 0 ==> a.mr0 == 0)
            &&& (n > 1 ==> a.mr1 == mr1) &&& (n <= 1 ==> a.mr1 == 0)
            &&& (n > 2 ==> a.mr2 == mr2) &&& (n <= 2 ==> a.mr2 == 0)
            &&& (n > 3 ==> a.mr3 == mr3) &&& (n <= 3 ==> a.mr3 == 0)
        }),
{
}

} // verus!
