//! The thread state accessor's computational core: the fixed-size
//! general-purpose register snapshot of the one supported register flavor,
//! and the interpretation of the kernel's get- and set-state replies,
//! including the defensive check on the returned element count.

use vstd::prelude::*;

use crate::status::{spec_from_raw, op_error_wf, KernelRet, OpError};

verus! {

/// The flavor selector for the full 64-bit general-purpose register state.
pub const THREAD_STATE64_FLAVOR: u32 = 4;

/// The element count, in 4-byte units, of the full 64-bit general-purpose
/// register state: twenty-one 8-byte registers.
pub const THREAD_STATE64_COUNT: u32 = 42;

/// One thread's full general-purpose register values at one point in time.
/// Read as a full unit and written as a full unit; the underlying primitive
/// supports no partial register write.
#[derive(Clone, Copy, Debug, PartialEq, Eq, Structural)]
pub struct RegisterSnapshot {
    pub rax: u64,
    pub rbx: u64,
    pub rcx: u64,
    pub rdx: u64,
    pub rdi: u64,
    pub rsi: u64,
    pub rbp: u64,
    pub rsp: u64,
    pub r8: u64,
    pub r9: u64,
    pub r10: u64,
    pub r11: u64,
    pub r12: u64,
    pub r13: u64,
    pub r14: u64,
    pub r15: u64,
    pub rip: u64,
    pub rflags: u64,
    pub cs: u64,
    pub fs: u64,
    pub gs: u64,
}

/// Interprets the kernel's reply to a get-registers request. `count` is the
/// element count the kernel reported for the filled snapshot; a successful
/// reply whose count differs from the flavor's expected count is an
/// invariant violation, never a partial snapshot.
pub fn interpret_get_state_reply(code: u32, count: u32, state: RegisterSnapshot) -> (r: Result<
    RegisterSnapshot,
    OpError,
>)
    ensures
        code != 0 ==> r == Err::<RegisterSnapshot, OpError>(OpError::Kernel(spec_from_raw(code))),
        code == 0 && count != THREAD_STATE64_COUNT ==> r == Err::<RegisterSnapshot, OpError>(
            OpError::InvariantViolation,
        ),
        code == 0 && count == THREAD_STATE64_COUNT ==> r == Ok::<RegisterSnapshot, OpError>(state),
        r matches Err(e) ==> op_error_wf(e),
{
    if code != 0 {
        Err(OpError::Kernel(KernelRet::from_raw(code)))
    } else if count != THREAD_STATE64_COUNT {
        Err(OpError::InvariantViolation)
    } else {
        Ok(state)
    }
}

/// Interprets the kernel's reply to a set-registers request: success or the
/// translated kernel status.
pub fn interpret_set_state_reply(code: u32) -> (r: Result<(), OpError>)
    ensures
        code == 0 <==> r is Ok,
        code != 0 ==> r == Err::<(), OpError>(OpError::Kernel(spec_from_raw(code))),
        r matches Err(e) ==> op_error_wf(e),
{
    crate::status::translate_code(code)
}

} // verus!
