//! A mathematical model of the kernel-visible state of one target process,
//! and the laws that the operations of this crate obey over it.
//!
//! Each kernel primitive is a single synchronous call whose effect on the
//! target is stated here as a spec function. The laws hold under exactly the
//! stated assumption of the compound sequences: no external mutation of the
//! target intervenes between the two calls of a pair. The compound sequences
//! themselves are not atomic, so a concurrent mutation between steps is
//! outside what the laws promise.

use vstd::prelude::*;

use crate::memory::{spec_decode_word, spec_encode_word, lemma_codec_round_trip, WORD_SIZE};
use crate::protection::{spec_page_base, PROT_ALL, PROT_COPY};
use crate::registers::RegisterSnapshot;
use crate::threads::ThreadIdentity;

verus! {

/// One thread of the modeled target: its queried identity and its current
/// register snapshot, keyed in the target by the thread's port name.
pub struct ThreadModel {
    /// The thread's immutable identity facts.
    pub identity: ThreadIdentity,
    /// The thread's current general-purpose register values.
    pub regs: RegisterSnapshot,
}

/// The kernel-visible state of one target process: its byte-addressed
/// virtual memory, the protection of each page (keyed by page base), and
/// its live threads (keyed by thread port name).
pub struct TargetState {
    /// The target's virtual memory, byte by byte.
    pub mem: Map<u64, u8>,
    /// Page protection, keyed by the page-aligned base address.
    pub prot: Map<u64, i32>,
    /// The target's live threads, keyed by thread port name.
    pub threads: Map<u32, ThreadModel>,
}

/// Memory after the kernel overwrites `bytes.len()` bytes starting at
/// `addr`; every other byte is unchanged.
pub open spec fn store_bytes(mem: Map<u64, u8>, addr: u64, bytes: Seq<u8>) -> Map<u64, u8> {
    Map::new(
        |a: u64| mem.dom().contains(a) || (addr <= a < addr + bytes.len()),
        |a: u64|
            if addr <= a < addr + bytes.len() {
                bytes[a - addr]
            } else {
                mem[a]
            },
    )
}

/// The `n` bytes starting at `addr` that the kernel copies out on a read.
pub open spec fn fetch_bytes(mem: Map<u64, u8>, addr: u64, n: nat) -> Seq<u8> {
    Seq::new(n, |i: int| mem[(addr + i) as u64])
}

/// The target after a word write at `addr`: the word's encoding overwrites
/// the eight bytes at `addr`, and the page holding `addr` is left granting
/// all permissions, the write path having escalated it and not restored the
/// prior protection.
pub open spec fn write_word_effect(t: TargetState, addr: u64, v: i64) -> TargetState {
    TargetState {
        mem: store_bytes(t.mem, addr, spec_encode_word(v)),
        prot: t.prot.insert(spec_page_base(addr), PROT_ALL),
        threads: t.threads,
    }
}

/// The word a read at `addr` returns: the eight bytes at `addr`, decoded.
pub open spec fn read_word_result(t: TargetState, addr: u64) -> i64 {
    spec_decode_word(fetch_bytes(t.mem, addr, WORD_SIZE as nat))
}

/// The target after the protection of the page holding `addr` is set to
/// exactly `flags`, overwriting rather than merging the prior protection.
pub open spec fn set_protection_effect(t: TargetState, addr: u64, flags: i32) -> TargetState {
    TargetState {
        mem: t.mem,
        prot: t.prot.insert(spec_page_base(addr), flags),
        threads: t.threads,
    }
}

/// What a protection query at `addr` reports: the page-aligned base of the
/// page holding `addr`, and that page's current protection.
pub open spec fn query_protection_result(t: TargetState, addr: u64) -> (u64, i32) {
    (spec_page_base(addr), t.prot[spec_page_base(addr)])
}

/// The snapshot a get-registers call on thread `h` returns.
pub open spec fn get_registers_result(t: TargetState, h: u32) -> RegisterSnapshot {
    t.threads[h].regs
}

/// The target after a set-registers call on thread `h`: the thread's
/// registers are overwritten as a full unit, its identity kept.
pub open spec fn set_registers_effect(t: TargetState, h: u32, regs: RegisterSnapshot) -> TargetState {
    TargetState {
        mem: t.mem,
        prot: t.prot,
        threads: t.threads.insert(
            h,
            ThreadModel { identity: t.threads[h].identity, regs },
        ),
    }
}

/// Round-trip law of the memory accessor: a word write followed by a word
/// read at the same address, with no intervening external mutation, returns
/// the written value exactly.
pub proof fn lemma_write_then_read(t: TargetState, addr: u64, v: i64)
    requires
        addr <= u64::MAX - 7,
    ensures
        read_word_result(write_word_effect(t, addr, v), addr) == v,
{
    let bytes = spec_encode_word(v);
    let m2 = store_bytes(t.mem, addr, bytes);
    assert forall|i: int| 0 <= i < WORD_SIZE implies fetch_bytes(m2, addr, WORD_SIZE as nat)[i]
        == bytes[i] by {
        let a = (addr + i) as u64;
        assert(a == addr + i);
        assert(m2[a] == bytes[i]);
    };
    assert(fetch_bytes(m2, addr, WORD_SIZE as nat) =~= bytes);
    lemma_codec_round_trip(v);
}

/// Idempotence law of the protection manager: once a set to all permissions
/// has taken effect, an immediate query at any address of the same page
/// reports that page granting all permissions.
pub proof fn lemma_protection_all_reached(t: TargetState, addr: u64, probe: u64)
    requires
        spec_page_base(probe) == spec_page_base(addr),
    ensures
        query_protection_result(set_protection_effect(t, addr, PROT_ALL), probe) == (
            spec_page_base(addr),
            PROT_ALL,
        ),
{
}

/// Progress of the write path's escalation under no interference: after
/// the copy-then-all sequence, with no intervening external mutation, the
/// re-query observes all permissions, so the write proceeds instead of
/// escalating again.
pub proof fn lemma_escalation_reaches_all(t: TargetState, addr: u64)
    ensures
        query_protection_result(
            set_protection_effect(set_protection_effect(t, addr, PROT_COPY), addr, PROT_ALL),
            addr,
        ).1 == PROT_ALL,
{
}

/// Identity round-trip law of the thread state accessor: writing back an
/// unmodified snapshot leaves the target unchanged, so a subsequent read
/// observes the same snapshot.
pub proof fn lemma_register_round_trip(t: TargetState, h: u32)
    requires
        t.threads.dom().contains(h),
    ensures
        set_registers_effect(t, h, get_registers_result(t, h)) == t,
        get_registers_result(set_registers_effect(t, h, get_registers_result(t, h)), h)
            == get_registers_result(t, h),
{
    let t2 = set_registers_effect(t, h, get_registers_result(t, h));
    assert(t2.threads =~= t.threads);
}

} // verus!
