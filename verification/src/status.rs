//! Translation of the kernel's raw status codes into a closed taxonomy, and
//! the error type that every operation of this crate reports.

use vstd::prelude::*;

verus! {

/// The closed taxonomy of kernel status codes. Every raw code the kernel can
/// return maps to exactly one member; codes outside the recognized set are
/// carried unchanged in `Other`.
#[derive(Clone, Copy, Debug, PartialEq, Eq, Structural)]
pub enum KernelRet {
    Success,
    InvalidAddress,
    ProtectionFailure,
    InvalidArgument,
    Failure,
    ResourceShortage,
    NoAccess,
    MemoryFailure,
    MemoryError,
    Aborted,
    InvalidName,
    InvalidTask,
    InvalidRight,
    InvalidValue,
    InvalidCapability,
    ExceptionProtected,
    Terminated,
    NotSupported,
    OperationTimedOut,
    Other(u32),
}

/// The taxonomy member that a raw kernel status code denotes.
pub open spec fn spec_from_raw(code: u32) -> KernelRet {
    if code == 0 {
        KernelRet::Success
    } else if code == 1 {
        KernelRet::InvalidAddress
    } else if code == 2 {
        KernelRet::ProtectionFailure
    } else if code == 4 {
        KernelRet::InvalidArgument
    } else if code == 5 {
        KernelRet::Failure
    } else if code == 6 {
        KernelRet::ResourceShortage
    } else if code == 8 {
        KernelRet::NoAccess
    } else if code == 9 {
        KernelRet::MemoryFailure
    } else if code == 10 {
        KernelRet::MemoryError
    } else if code == 14 {
        KernelRet::Aborted
    } else if code == 15 {
        KernelRet::InvalidName
    } else if code == 16 {
        KernelRet::InvalidTask
    } else if code == 17 {
        KernelRet::InvalidRight
    } else if code == 18 {
        KernelRet::InvalidValue
    } else if code == 20 {
        KernelRet::InvalidCapability
    } else if code == 32 {
        KernelRet::ExceptionProtected
    } else if code == 37 {
        KernelRet::Terminated
    } else if code == 46 {
        KernelRet::NotSupported
    } else if code == 49 {
        KernelRet::OperationTimedOut
    } else {
        KernelRet::Other(code)
    }
}

impl KernelRet {
    /// Translates a raw kernel status code. Total: every recognized code
    /// yields its taxonomy member, every other code is kept in `Other`.
    pub fn from_raw(code: u32) -> (r: KernelRet)
        ensures
            r == spec_from_raw(code),
    {
        match code {
            0 => KernelRet::Success,
            1 => KernelRet::InvalidAddress,
            2 => KernelRet::ProtectionFailure,
            4 => KernelRet::InvalidArgument,
            5 => KernelRet::Failure,
            6 => KernelRet::ResourceShortage,
            8 => KernelRet::NoAccess,
            9 => KernelRet::MemoryFailure,
            10 => KernelRet::MemoryError,
            14 => KernelRet::Aborted,
            15 => KernelRet::InvalidName,
            16 => KernelRet::InvalidTask,
            17 => KernelRet::InvalidRight,
            18 => KernelRet::InvalidValue,
            20 => KernelRet::InvalidCapability,
            32 => KernelRet::ExceptionProtected,
            37 => KernelRet::Terminated,
            46 => KernelRet::NotSupported,
            49 => KernelRet::OperationTimedOut,
            e => KernelRet::Other(e),
        }
    }

    /// Whether this status is the kernel's success code: the only
    /// non-error outcome of any operation.
    pub fn is_success(&self) -> (r: bool)
        ensures
            r <==> *self is Success,
    {
        matches!(self, KernelRet::Success)
    }
}

impl From<u32> for KernelRet {
    fn from(code: u32) -> KernelRet {
        KernelRet::from_raw(code)
    }
}

impl vstd::std_specs::convert::FromSpecImpl<u32> for KernelRet {
    open spec fn obeys_from_spec() -> bool {
        true
    }

    open spec fn from_spec(code: u32) -> KernelRet {
        spec_from_raw(code)
    }
}

/// An operation's failure: either a non-success kernel status, or a breach
/// of one of this crate's defensive invariants (a reply whose returned count
/// does not match what was requested, or an empty thread table).
#[derive(Clone, Copy, Debug, PartialEq, Eq, Structural)]
pub enum OpError {
    /// The kernel reported a non-success status.
    Kernel(KernelRet),
    /// The kernel reported success but the reply breaks an invariant this
    /// crate relies on; the result cannot be trusted.
    InvariantViolation,
}

/// A well-formed failure never carries the success status.
pub open spec fn op_error_wf(e: OpError) -> bool {
    e matches OpError::Kernel(k) ==> k !is Success
}

/// Translates a raw kernel status code into this crate's result shape:
/// success becomes `Ok`, everything else the translated taxonomy member.
pub fn translate_code(code: u32) -> (r: Result<(), OpError>)
    ensures
        code == 0 <==> r is Ok,
        code != 0 ==> r == Err::<(), OpError>(OpError::Kernel(spec_from_raw(code))),
        r matches Err(e) ==> op_error_wf(e),
{
    if code == 0 {
        Ok(())
    } else {
        Err(OpError::Kernel(KernelRet::from_raw(code)))
    }
}

} // verus!
