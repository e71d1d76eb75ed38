use lcp::host_api::{command_outcome, ocall_output_len, HostApiError, OUTPUT_MAXLEN, SGX_SUCCESS};

#[test]
fn failed_ocall_is_an_sgx_error() {
    assert!(matches!(ocall_output_len(1, 0), Err(HostApiError::SgxError { status: 1 })));
    assert!(matches!(ocall_output_len(0x2001, 70000), Err(HostApiError::SgxError { status: 0x2001 })));
}

#[test]
fn successful_ocall_gives_the_output_length() {
    assert_eq!(ocall_output_len(SGX_SUCCESS, 12).ok(), Some(12));
    assert_eq!(ocall_output_len(SGX_SUCCESS, 0).ok(), Some(0));
    assert_eq!(ocall_output_len(SGX_SUCCESS, (OUTPUT_MAXLEN - 1) as u32).ok(), Some(OUTPUT_MAXLEN - 1));
}

#[test]
fn successful_command_returns_the_reply() {
    assert_eq!(command_outcome(SGX_SUCCESS, 5u32, None).ok(), Some(5));
    assert_eq!(command_outcome(SGX_SUCCESS, 6u32, Some("e".to_string())).ok(), Some(6));
}

#[test]
fn failed_command_returns_its_error() {
    match command_outcome(3, 0u32, Some("bad".to_string())) {
        Err(HostApiError::Command { status, descr }) => {
            assert_eq!(status, 3);
            assert_eq!(descr, "bad");
        }
        _ => panic!("expected a command error"),
    }
}
