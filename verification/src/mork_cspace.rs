use vstd::prelude::*;
use crate::constants::ObjectType;
use crate::hal::{invocation, invoke, SyscallArgs};
use crate::message_info::InvocationLabel;

verus! {

/// Asks `task`'s capability space for a new object of kind `obj_type`; the
/// reply carries the slot of the new capability (read it with `value_reply`).
pub fn mork_alloc_object(task: usize, obj_type: ObjectType) -> (a: SyscallArgs)
    ensures
        a == invocation(task, InvocationLabel::CNodeAlloc, 1, obj_type.code(), 0, 0, 0),
{
    invoke(task, InvocationLabel::CNodeAlloc, 1, obj_type.as_usize(), 0, 0, 0)
}

/// Asks `task`'s capability space to delete the object in slot `object`.
pub fn mork_delete_object(task: usize, object: usize) -> (a: SyscallArgs)
    ensures
        a == invocation(task, InvocationLabel::CNodeDelete, 1, object, 0, 0, 0),
{
    invoke(task, InvocationLabel::CNodeDelete, 1, object, 0, 0, 0)
}

/// Asks `src_task`'s capability space to copy the capability in `src_cap`
/// into slot `dest_slot` of `dest_task`; the reply carries the slot written.
pub fn mork_cspace_copy(src_task: usize, src_cap: usize, dest_task: usize, dest_slot: usize) -> (a: SyscallArgs)
    ensures
        a == invocation(src_task, InvocationLabel::CNodeCopy, 3, src_cap, dest_task, dest_slot, 0),
{
    invoke(src_task, InvocationLabel::CNodeCopy, 3, src_cap, dest_task, dest_slot, 0)
}

} // verus!
