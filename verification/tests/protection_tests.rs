use taskport::capability::{interpret_acquire_reply, TaskCapability};
use taskport::protection::{
    interpret_protect_reply, interpret_region_reply, page_base, PAGE_SIZE, PROT_ALL, PROT_COPY,
    PROT_EXECUTE, PROT_READ, PROT_WRITE,
};
use taskport::status::{KernelRet, OpError};

#[test]
fn protection_constants_compose() {
    assert_eq!(PROT_ALL, PROT_READ | PROT_WRITE | PROT_EXECUTE);
    assert_eq!(PROT_COPY, 16);
}

#[test]
fn page_base_truncates_to_the_page() {
    assert_eq!(page_base(0), 0);
    assert_eq!(page_base(4095), 0);
    assert_eq!(page_base(4096), 4096);
    assert_eq!(page_base(0x7fff_1234), 0x7fff_1000);
    assert_eq!(page_base(u64::MAX), u64::MAX - (u64::MAX % PAGE_SIZE));
}

#[test]
fn region_reply_reports_base_and_protection() {
    assert_eq!(
        interpret_region_reply(0, 0x1000, PROT_READ | PROT_WRITE),
        Ok((0x1000, PROT_READ | PROT_WRITE))
    );
    assert_eq!(
        interpret_region_reply(1, 0, 0),
        Err(OpError::Kernel(KernelRet::InvalidAddress))
    );
}

#[test]
fn protect_reply_is_translated() {
    assert_eq!(interpret_protect_reply(0), Ok(()));
    assert_eq!(
        interpret_protect_reply(2),
        Err(OpError::Kernel(KernelRet::ProtectionFailure))
    );
}

#[test]
fn acquire_success_wraps_the_granted_port() {
    assert_eq!(
        interpret_acquire_reply(0, 0x903),
        Ok(TaskCapability { port: 0x903 })
    );
}

#[test]
fn acquire_for_a_missing_process_is_an_error_never_a_handle() {
    assert_eq!(
        interpret_acquire_reply(5, 0),
        Err(OpError::Kernel(KernelRet::Failure))
    );
    assert_eq!(
        interpret_acquire_reply(16, 0),
        Err(OpError::Kernel(KernelRet::InvalidTask))
    );
}
