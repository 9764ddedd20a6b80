use vstd::prelude::*;
use crate::constants::ObjectType;
use crate::hal::{invocation, invoke, SyscallArgs};
use crate::message_info::InvocationLabel;

verus! {

/// Asks capability space `cspace` for a new object of kind `obj_type`
/// through the generic allocation invocation; the reply carries the slot of
/// the new capability.
pub fn mork_alloc_object(cspace: usize, obj_type: ObjectType) -> (a: SyscallArgs)
    ensures
        a == invocation(cspace, InvocationLabel::AllocObject, 1, obj_type.code(), 0, 0, 0),
{
    invoke(cspace, InvocationLabel::AllocObject, 1, obj_type.as_usize(), 0, 0, 0)
}

} // verus!
