//! The word-granularity memory accessor's computational core: the codec
//! between a signed 64-bit word and its byte representation (the byte order
//! of the one supported architecture, least significant byte first), and the
//! interpretation of the kernel's read and write replies, including the
//! defensive check that the kernel returned exactly the requested byte count.

use vstd::prelude::*;

use crate::protection::{PROT_ALL, PROT_COPY};
use crate::status::{spec_from_raw, op_error_wf, KernelRet, OpError};

verus! {

/// The size in bytes of the one transfer unit this crate supports.
pub const WORD_SIZE: usize = 8;

/// The byte representation of a word: eight bytes, least significant first.
pub open spec fn spec_encode_word(v: i64) -> Seq<u8> {
    let u = v as u64;
    seq![
        (u & 0xff) as u8,
        ((u >> 8) & 0xff) as u8,
        ((u >> 16) & 0xff) as u8,
        ((u >> 24) & 0xff) as u8,
        ((u >> 32) & 0xff) as u8,
        ((u >> 40) & 0xff) as u8,
        ((u >> 48) & 0xff) as u8,
        ((u >> 56) & 0xff) as u8,
    ]
}

/// The word that eight bytes, least significant first, represent.
pub open spec fn spec_decode_word(b: Seq<u8>) -> i64
    recommends
        b.len() == WORD_SIZE,
{
    ((b[0] as u64) | ((b[1] as u64) << 8) | ((b[2] as u64) << 16) | ((b[3] as u64) << 24)
        | ((b[4] as u64) << 32) | ((b[5] as u64) << 40) | ((b[6] as u64) << 48)
        | ((b[7] as u64) << 56)) as i64
}

/// Decoding the encoding of any word gives that word back.
pub proof fn lemma_codec_round_trip(v: i64)
    ensures
        spec_decode_word(spec_encode_word(v)) == v,
{
    let u = v as u64;
    assert((((u & 0xff) as u8) as u64) | ((((u >> 8) & 0xff) as u8) as u64) << 8 | ((((u >> 16)
        & 0xff) as u8) as u64) << 16 | ((((u >> 24) & 0xff) as u8) as u64) << 24 | ((((u >> 32)
        & 0xff) as u8) as u64) << 32 | ((((u >> 40) & 0xff) as u8) as u64) << 40 | ((((u >> 48)
        & 0xff) as u8) as u64) << 48 | ((((u >> 56) & 0xff) as u8) as u64) << 56 == u)
        by (bit_vector);
    assert((v as u64) as i64 == v) by (bit_vector);
}

/// Encodes a word as the eight bytes the kernel is asked to write.
pub fn encode_word(v: i64) -> (b: Vec<u8>)
    ensures
        b@ == spec_encode_word(v),
        b@.len() == WORD_SIZE,
{
    let u = v as u64;
    let mut b: Vec<u8> = Vec::new();
    b.push((u & 0xff) as u8);
    b.push(((u >> 8) & 0xff) as u8);
    b.push(((u >> 16) & 0xff) as u8);
    b.push(((u >> 24) & 0xff) as u8);
    b.push(((u >> 32) & 0xff) as u8);
    b.push(((u >> 40) & 0xff) as u8);
    b.push(((u >> 48) & 0xff) as u8);
    b.push(((u >> 56) & 0xff) as u8);
    proof {
        assert(b@ =~= spec_encode_word(v));
    }
    b
}

/// Decodes the eight bytes the kernel handed back into a word.
pub fn decode_word(b: &Vec<u8>) -> (v: i64)
    requires
        b@.len() == WORD_SIZE,
    ensures
        v == spec_decode_word(b@),
{
    let u: u64 = (b[0] as u64) | ((b[1] as u64) << 8) | ((b[2] as u64) << 16) | ((b[3]
        as u64) << 24) | ((b[4] as u64) << 32) | ((b[5] as u64) << 40) | ((b[6] as u64) << 48)
        | ((b[7] as u64) << 56);
    u as i64
}

/// Interprets the kernel's reply to a word read. `bytes` is the buffer the
/// kernel handed back, whose length is the byte count it reported. A
/// non-success status is the translated kernel error; a success whose count
/// differs from the requested word size is an invariant violation, never a
/// silently truncated value; otherwise the decoded word.
pub fn interpret_read_reply(code: u32, bytes: &Vec<u8>) -> (r: Result<i64, OpError>)
    ensures
        code != 0 ==> r == Err::<i64, OpError>(OpError::Kernel(spec_from_raw(code))),
        code == 0 && bytes@.len() != WORD_SIZE ==> r == Err::<i64, OpError>(
            OpError::InvariantViolation,
        ),
        code == 0 && bytes@.len() == WORD_SIZE ==> r == Ok::<i64, OpError>(
            spec_decode_word(bytes@),
        ),
        r matches Err(e) ==> op_error_wf(e),
{
    if code != 0 {
        Err(OpError::Kernel(KernelRet::from_raw(code)))
    } else if bytes.len() != WORD_SIZE {
        Err(OpError::InvariantViolation)
    } else {
        Ok(decode_word(bytes))
    }
}

/// Interprets the kernel's reply to a word write: success or the translated
/// kernel status.
pub fn interpret_write_reply(code: u32) -> (r: Result<(), OpError>)
    ensures
        code == 0 <==> r is Ok,
        code != 0 ==> r == Err::<(), OpError>(OpError::Kernel(spec_from_raw(code))),
        r matches Err(e) ==> op_error_wf(e),
{
    crate::status::translate_code(code)
}

/// Where the write path stands between kernel calls. The path loops: it
/// queries the protection of the page holding the target address; a page
/// already granting all permissions lets the write proceed, any other page
/// is granted the copy protection and then all permissions, and the query
/// repeats — a single set call is not guaranteed to reach the target state
/// atomically. The prior protection is not restored afterwards: the page is
/// left fully permissive.
#[derive(Clone, Copy, Debug, PartialEq, Eq, Structural)]
pub enum WritePhase {
    /// Query the protection of the page holding the target address.
    Query,
    /// Grant the page the copy protection (a private copy-on-write page).
    GrantCopy,
    /// Grant the page all permissions.
    GrantAll,
    /// Permissions are confirmed: issue the word write.
    Write,
    /// The word write completed.
    Done,
    /// A kernel call failed; the write path stops with this error.
    Failed(OpError),
}

/// The write path's step out of `Query`, given the kernel's reply to the
/// protection query: a failed query stops the path; a page granting exactly
/// all permissions lets the write proceed; any other protection starts the
/// copy-then-all escalation.
pub fn write_step_after_query(code: u32, prot: i32) -> (p: WritePhase)
    ensures
        code != 0 ==> p == WritePhase::Failed(OpError::Kernel(spec_from_raw(code))),
        code == 0 && prot == PROT_ALL ==> p == WritePhase::Write,
        code == 0 && prot != PROT_ALL ==> p == WritePhase::GrantCopy,
        p matches WritePhase::Failed(e) ==> op_error_wf(e),
{
    if code != 0 {
        WritePhase::Failed(OpError::Kernel(KernelRet::from_raw(code)))
    } else if prot == PROT_ALL {
        WritePhase::Write
    } else {
        WritePhase::GrantCopy
    }
}

/// The protection the write path requests in an escalation phase: the copy
/// protection first, then all permissions.
pub fn protection_to_grant(p: &WritePhase) -> (f: i32)
    requires
        *p is GrantCopy || *p is GrantAll,
    ensures
        *p is GrantCopy ==> f == PROT_COPY,
        *p is GrantAll ==> f == PROT_ALL,
{
    match p {
        WritePhase::GrantCopy => PROT_COPY,
        _ => PROT_ALL,
    }
}

/// The write path's step out of an escalation phase, given the kernel's
/// reply to the set-protection request: a failure stops the path; after the
/// copy grant comes the grant of all permissions, and after that the
/// protection is queried again rather than trusted.
pub fn write_step_after_protect(p: &WritePhase, code: u32) -> (q: WritePhase)
    requires
        *p is GrantCopy || *p is GrantAll,
    ensures
        code != 0 ==> q == WritePhase::Failed(OpError::Kernel(spec_from_raw(code))),
        code == 0 && *p is GrantCopy ==> q == WritePhase::GrantAll,
        code == 0 && *p is GrantAll ==> q == WritePhase::Query,
        q matches WritePhase::Failed(e) ==> op_error_wf(e),
{
    if code != 0 {
        WritePhase::Failed(OpError::Kernel(KernelRet::from_raw(code)))
    } else {
        match p {
            WritePhase::GrantCopy => WritePhase::GrantAll,
            _ => WritePhase::Query,
        }
    }
}

/// The write path's step out of `Write`, given the kernel's reply to the
/// word write itself.
pub fn write_step_after_write(code: u32) -> (q: WritePhase)
    ensures
        code == 0 ==> q == WritePhase::Done,
        code != 0 ==> q == WritePhase::Failed(OpError::Kernel(spec_from_raw(code))),
        q matches WritePhase::Failed(e) ==> op_error_wf(e),
{
    if code == 0 {
        WritePhase::Done
    } else {
        WritePhase::Failed(OpError::Kernel(KernelRet::from_raw(code)))
    }
}

} // verus!
