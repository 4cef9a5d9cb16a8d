use taskport::registers::{
    interpret_get_state_reply, interpret_set_state_reply, RegisterSnapshot, THREAD_STATE64_COUNT,
};
use taskport::status::{KernelRet, OpError};

fn snapshot() -> RegisterSnapshot {
    RegisterSnapshot {
        rax: 1,
        rbx: 2,
        rcx: 3,
        rdx: 4,
        rdi: 5,
        rsi: 6,
        rbp: 7,
        rsp: 8,
        r8: 9,
        r9: 10,
        r10: 11,
        r11: 12,
        r12: 13,
        r13: 14,
        r14: 15,
        r15: 16,
        rip: 0x1000,
        rflags: 0x202,
        cs: 0x2b,
        fs: 0,
        gs: 0,
    }
}

#[test]
fn get_state_reply_checks_the_element_count() {
    let s = snapshot();
    assert_eq!(interpret_get_state_reply(0, THREAD_STATE64_COUNT, s), Ok(s));
    assert_eq!(
        interpret_get_state_reply(0, THREAD_STATE64_COUNT - 1, s),
        Err(OpError::InvariantViolation)
    );
    assert_eq!(
        interpret_get_state_reply(4, THREAD_STATE64_COUNT, s),
        Err(OpError::Kernel(KernelRet::InvalidArgument))
    );
}

#[test]
fn set_state_reply_is_translated() {
    assert_eq!(interpret_set_state_reply(0), Ok(()));
    assert_eq!(
        interpret_set_state_reply(18),
        Err(OpError::Kernel(KernelRet::InvalidValue))
    );
}

#[test]
fn unmodified_snapshot_round_trips_through_the_replies() {
    let s = snapshot();
    let got = interpret_get_state_reply(0, THREAD_STATE64_COUNT, s).unwrap();
    assert_eq!(got, s);
    assert_eq!(interpret_set_state_reply(0), Ok(()));
    let again = interpret_get_state_reply(0, THREAD_STATE64_COUNT, got).unwrap();
    assert_eq!(again, s);
}
