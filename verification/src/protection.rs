//! Page protection flags and the protection manager's reply interpretation.
//!
//! Protection is always queried and set in units of the platform page, even
//! when the logical operation targets a single word. Some pages start without
//! write permission; before a word can be written the page must first be
//! granted the copy protection (a private copy-on-write page) and then full
//! read/write/execute. A single set call is not guaranteed to reach the
//! target state atomically, so the caller re-queries and repeats the two-step
//! escalation until the queried protection equals all permissions.

use vstd::prelude::*;

use crate::status::{spec_from_raw, op_error_wf, KernelRet, OpError};

verus! {

/// Read permission bit.
pub const PROT_READ: i32 = 1;

/// Write permission bit.
pub const PROT_WRITE: i32 = 2;

/// Execute permission bit.
pub const PROT_EXECUTE: i32 = 4;

/// All permissions: read, write and execute.
pub const PROT_ALL: i32 = 1 | 2 | 4;

/// Copy protection: requests a private copy-on-write page.
pub const PROT_COPY: i32 = 16;

/// The platform page size in bytes.
pub const PAGE_SIZE: u64 = 4096;

/// The page-aligned base of the page containing `addr`.
pub open spec fn spec_page_base(addr: u64) -> u64 {
    (addr - addr % (PAGE_SIZE as u64)) as u64
}

/// Computes the page-aligned base of the page containing `addr`.
pub fn page_base(addr: u64) -> (base: u64)
    ensures
        base == spec_page_base(addr),
        base <= addr,
        addr - base < PAGE_SIZE,
        base % (PAGE_SIZE as u64) == 0,
{
    addr - addr % PAGE_SIZE
}

/// Interprets the kernel's reply to a region-protection query: on success
/// the page-aligned base of the region containing the queried address and
/// its current protection, otherwise the translated kernel status.
pub fn interpret_region_reply(code: u32, base: u64, prot: i32) -> (r: Result<(u64, i32), OpError>)
    ensures
        code == 0 ==> r == Ok::<(u64, i32), OpError>((base, prot)),
        code != 0 ==> r == Err::<(u64, i32), OpError>(OpError::Kernel(spec_from_raw(code))),
        r matches Err(e) ==> op_error_wf(e),
{
    if code == 0 {
        Ok((base, prot))
    } else {
        Err(OpError::Kernel(KernelRet::from_raw(code)))
    }
}

/// Interprets the kernel's reply to a set-protection request: success or the
/// translated kernel status.
pub fn interpret_protect_reply(code: u32) -> (r: Result<(), OpError>)
    ensures
        code == 0 <==> r is Ok,
        code != 0 ==> r == Err::<(), OpError>(OpError::Kernel(spec_from_raw(code))),
        r matches Err(e) ==> op_error_wf(e),
{
    crate::status::translate_code(code)
}

} // verus!
