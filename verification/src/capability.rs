//! Task capability acquisition: the handle that every memory and thread
//! operation on a target process requires, and the interpretation of the
//! kernel's reply to the acquisition request.

use vstd::prelude::*;

use crate::status::{spec_from_raw, op_error_wf, KernelRet, OpError};

verus! {

/// The granted privilege to operate on one target process's address space
/// and threads: an opaque kernel port name. Acquired once per target and
/// exclusively owned by the session that acquired it; it must eventually be
/// released back to the kernel, capabilities being a scarce kernel resource.
#[derive(Clone, Copy, Debug, PartialEq, Eq, Structural)]
pub struct TaskCapability {
    /// The kernel's name for the granted task port.
    pub port: u32,
}

/// Interprets the kernel's reply to a task-capability request for a process
/// identifier: on success the capability wrapping the granted port name, on
/// any other status the translated kernel error and never a handle.
pub fn interpret_acquire_reply(code: u32, port: u32) -> (r: Result<TaskCapability, OpError>)
    ensures
        code == 0 ==> r == Ok::<TaskCapability, OpError>(TaskCapability { port }),
        code != 0 ==> r == Err::<TaskCapability, OpError>(OpError::Kernel(spec_from_raw(code))),
        r matches Err(e) ==> op_error_wf(e),
{
    if code == 0 {
        Ok(TaskCapability { port })
    } else {
        Err(OpError::Kernel(KernelRet::from_raw(code)))
    }
}

} // verus!
