//! Thread enumeration and selection: the handles a thread-table snapshot
//! yields, the identity facts queried per thread, and the deterministic
//! selection rule — the thread with the numerically highest identifier,
//! first seen winning under equal identifiers.

use vstd::prelude::*;

use crate::status::{spec_from_raw, op_error_wf, KernelRet, OpError};

verus! {

/// The info-flavor selector for a thread's identity facts.
pub const THREAD_IDENTIFIER_INFO: u32 = 4;

/// The element count, in 4-byte units, of the identity info structure.
pub const THREAD_IDENTIFIER_INFO_COUNT: u32 = 6;

/// An opaque per-thread capability, one per live thread of a target,
/// obtained by enumeration. Valid only as long as the task capability that
/// produced it is valid and the thread has not exited.
#[derive(Clone, Copy, Debug, PartialEq, Eq, Structural)]
pub struct ThreadHandle {
    /// The kernel's name for the thread's port.
    pub port: u32,
}

/// Immutable facts about a thread, retrieved by a kernel query rather than
/// carried in the handle itself.
#[derive(Clone, Copy, Debug, PartialEq, Eq, Structural)]
pub struct ThreadIdentity {
    /// The kernel-assigned numeric thread identifier.
    pub thread_id: u64,
    /// The kernel's handle value for the thread, as the identity query
    /// reports it.
    pub thread_handle: u64,
    /// The address of the thread's dispatch queue.
    pub dispatch_qaddr: u64,
}

/// A thread handle paired with the identity queried for it: one entry of an
/// enumerated thread set.
#[derive(Clone, Copy, Debug, PartialEq, Eq, Structural)]
pub struct ThreadRecord {
    /// The handle obtained from the thread-table snapshot.
    pub handle: ThreadHandle,
    /// The identity facts queried for that handle.
    pub identity: ThreadIdentity,
}

/// Interprets the kernel's reply to a thread-table request. `ports` holds
/// the port names of the snapshot, its length the count the kernel
/// reported. A non-success status is the translated kernel error; a
/// successful reply with an empty table is an invariant violation (a live
/// target always has at least one thread); otherwise the handles, in the
/// snapshot's order.
pub fn interpret_thread_list_reply(code: u32, ports: &Vec<u32>) -> (r: Result<
    Vec<ThreadHandle>,
    OpError,
>)
    ensures
        code != 0 ==> r == Err::<Vec<ThreadHandle>, OpError>(OpError::Kernel(spec_from_raw(code))),
        code == 0 && ports@.len() == 0 ==> r == Err::<Vec<ThreadHandle>, OpError>(
            OpError::InvariantViolation,
        ),
        code == 0 && ports@.len() > 0 ==> (r matches Ok(v) && v@.len() == ports@.len() && (forall|
            i: int,
        |
            0 <= i < ports@.len() ==> v@[i].port == ports@[i])),
        r matches Err(e) ==> op_error_wf(e),
{
    if code != 0 {
        return Err(OpError::Kernel(KernelRet::from_raw(code)));
    }
    if ports.len() == 0 {
        return Err(OpError::InvariantViolation);
    }
    let mut handles: Vec<ThreadHandle> = Vec::new();
    let mut k: usize = 0;
    while k < ports.len()
        invariant
            k <= ports@.len(),
            handles@.len() == k,
            forall|i: int| 0 <= i < k ==> handles@[i].port == ports@[i],
        decreases ports@.len() - k,
    {
        handles.push(ThreadHandle { port: ports[k] });
        k = k + 1;
    }
    Ok(handles)
}

/// Interprets the kernel's reply to a thread-identity query. `count` is the
/// element count the kernel reported for the filled structure; a successful
/// reply whose count differs from the identity structure's size is an
/// invariant violation.
pub fn interpret_identity_reply(code: u32, count: u32, identity: ThreadIdentity) -> (r: Result<
    ThreadIdentity,
    OpError,
>)
    ensures
        code != 0 ==> r == Err::<ThreadIdentity, OpError>(OpError::Kernel(spec_from_raw(code))),
        code == 0 && count != THREAD_IDENTIFIER_INFO_COUNT ==> r == Err::<ThreadIdentity, OpError>(
            OpError::InvariantViolation,
        ),
        code == 0 && count == THREAD_IDENTIFIER_INFO_COUNT ==> r == Ok::<ThreadIdentity, OpError>(
            identity,
        ),
        r matches Err(e) ==> op_error_wf(e),
{
    if code != 0 {
        Err(OpError::Kernel(KernelRet::from_raw(code)))
    } else if count != THREAD_IDENTIFIER_INFO_COUNT {
        Err(OpError::InvariantViolation)
    } else {
        Ok(identity)
    }
}

/// Whether index `i` points at the selected entry of a thread set: the
/// entry whose identifier no entry exceeds, and the first such entry, so
/// that under equal identifiers the one seen first wins.
pub open spec fn is_first_max(s: Seq<ThreadRecord>, i: int) -> bool {
    &&& 0 <= i < s.len()
    &&& forall|j: int|
        0 <= j < s.len() ==> s[j].identity.thread_id <= s[i].identity.thread_id
    &&& forall|j: int| 0 <= j < i ==> s[j].identity.thread_id < s[i].identity.thread_id
}

/// The selection rule is deterministic: a thread set has at most one
/// first-maximum entry, so the selected handle is uniquely determined by
/// the set.
pub proof fn lemma_first_max_unique(s: Seq<ThreadRecord>, i: int, j: int)
    requires
        is_first_max(s, i),
        is_first_max(s, j),
    ensures
        i == j,
{
    if i < j {
        assert(s[i].identity.thread_id < s[j].identity.thread_id);
    }
    if j < i {
        assert(s[j].identity.thread_id < s[i].identity.thread_id);
    }
}

/// Selects from a non-empty enumerated thread set the handle whose
/// identity's numeric identifier is the maximum across the set; under equal
/// identifiers the first-seen entry wins, and a single-entry set yields its
/// only handle.
pub fn select_thread_from(records: &Vec<ThreadRecord>) -> (r: ThreadHandle)
    requires
        records@.len() > 0,
    ensures
        exists|i: int| #[trigger] is_first_max(records@, i) && r == records@[i].handle,
        records@.len() == 1 ==> r == records@[0].handle,
{
    let mut best_idx: usize = 0;
    let mut best_id: u64 = records[0].identity.thread_id;
    let mut k: usize = 1;
    while k < records.len()
        invariant
            1 <= k <= records@.len(),
            best_idx < k,
            best_id == records@[best_idx as int].identity.thread_id,
            forall|j: int| 0 <= j < k ==> records@[j].identity.thread_id <= best_id,
            forall|j: int| 0 <= j < best_idx ==> records@[j].identity.thread_id < best_id,
        decreases records@.len() - k,
    {
        if records[k].identity.thread_id > best_id {
            best_idx = k;
            best_id = records[k].identity.thread_id;
        }
        k = k + 1;
    }
    proof {
        assert(is_first_max(records@, best_idx as int));
    }
    records[best_idx].handle
}

} // verus!
