use taskport::memory::{
    decode_word, encode_word, interpret_read_reply, interpret_write_reply, protection_to_grant,
    write_step_after_protect, write_step_after_query, write_step_after_write, WritePhase,
    WORD_SIZE,
};
use taskport::protection::{PROT_ALL, PROT_COPY, PROT_READ};
use taskport::status::{KernelRet, OpError};

#[test]
fn encode_is_least_significant_byte_first() {
    let b = encode_word(0x0102030405060708);
    assert_eq!(b, vec![8, 7, 6, 5, 4, 3, 2, 1]);
    assert_eq!(encode_word(0), vec![0; 8]);
    assert_eq!(encode_word(-1), vec![0xff; 8]);
}

#[test]
fn decode_reads_least_significant_byte_first() {
    assert_eq!(decode_word(&vec![8, 7, 6, 5, 4, 3, 2, 1]), 0x0102030405060708);
    assert_eq!(decode_word(&vec![0xff; 8]), -1);
    assert_eq!(decode_word(&vec![1, 0, 0, 0, 0, 0, 0, 0]), 1);
}

#[test]
fn codec_round_trips() {
    for v in [0i64, 1, -1, 42, -4096, i64::MAX, i64::MIN, 0x00ff_ee00_1234_5678] {
        assert_eq!(decode_word(&encode_word(v)), v);
    }
}

#[test]
fn read_reply_success_decodes_the_word() {
    let bytes = encode_word(-987654321);
    assert_eq!(interpret_read_reply(0, &bytes), Ok(-987654321));
}

#[test]
fn read_reply_short_count_is_an_invariant_violation() {
    let short = vec![1, 2, 3];
    assert_eq!(interpret_read_reply(0, &short), Err(OpError::InvariantViolation));
    let empty: Vec<u8> = Vec::new();
    assert_eq!(interpret_read_reply(0, &empty), Err(OpError::InvariantViolation));
    let long = vec![0; WORD_SIZE + 1];
    assert_eq!(interpret_read_reply(0, &long), Err(OpError::InvariantViolation));
}

#[test]
fn read_reply_kernel_error_is_translated() {
    let bytes = vec![0; 8];
    assert_eq!(
        interpret_read_reply(1, &bytes),
        Err(OpError::Kernel(KernelRet::InvalidAddress))
    );
}

#[test]
fn write_reply_is_translated() {
    assert_eq!(interpret_write_reply(0), Ok(()));
    assert_eq!(
        interpret_write_reply(2),
        Err(OpError::Kernel(KernelRet::ProtectionFailure))
    );
}

#[test]
fn write_path_proceeds_only_on_all_permissions() {
    assert_eq!(write_step_after_query(0, PROT_ALL), WritePhase::Write);
    assert_eq!(write_step_after_query(0, PROT_READ), WritePhase::GrantCopy);
    assert_eq!(write_step_after_query(0, 0), WritePhase::GrantCopy);
    assert_eq!(write_step_after_query(0, PROT_ALL | PROT_COPY), WritePhase::GrantCopy);
    assert_eq!(
        write_step_after_query(16, PROT_ALL),
        WritePhase::Failed(OpError::Kernel(KernelRet::InvalidTask))
    );
}

#[test]
fn write_path_escalates_copy_then_all_then_requeries() {
    assert_eq!(protection_to_grant(&WritePhase::GrantCopy), PROT_COPY);
    assert_eq!(protection_to_grant(&WritePhase::GrantAll), PROT_ALL);
    assert_eq!(
        write_step_after_protect(&WritePhase::GrantCopy, 0),
        WritePhase::GrantAll
    );
    assert_eq!(
        write_step_after_protect(&WritePhase::GrantAll, 0),
        WritePhase::Query
    );
    assert_eq!(
        write_step_after_protect(&WritePhase::GrantCopy, 2),
        WritePhase::Failed(OpError::Kernel(KernelRet::ProtectionFailure))
    );
}

#[test]
fn write_path_finishes_on_the_write_reply() {
    assert_eq!(write_step_after_write(0), WritePhase::Done);
    assert_eq!(
        write_step_after_write(10),
        WritePhase::Failed(OpError::Kernel(KernelRet::MemoryError))
    );
}
