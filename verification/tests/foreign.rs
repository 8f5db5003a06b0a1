use remote_pid::c_api::{
    address_texts, finish, remote_pid_err_code, remote_pid_err_desc, replace_nul, CError, FAILURE,
    NON_LOCAL_CONNECTION, NO_ERROR, OTHER,
};
use remote_pid::text::decode;
use remote_pid::{Cause, RemotePidError};

fn other(cause: Cause) -> RemotePidError {
    RemotePidError::Other(cause)
}

#[test]
fn codes_are_fixed() {
    assert_eq!(NO_ERROR, 0x00);
    assert_eq!(NON_LOCAL_CONNECTION, 0x01);
    assert_eq!(OTHER, 0xff);
    assert_eq!(FAILURE, 0xffff_ffff);
}

#[test]
fn non_local_connection_has_code_one() {
    let shown = CError::new(RemotePidError::NonLocalConnection);
    assert_eq!(shown.code(), 0x01);
    assert_eq!(shown.desc(), b"NonLocalConnection");
}

#[test]
fn every_other_failure_has_code_ff() {
    let causes = [
        Cause::InvalidInput,
        Cause::Io(String::from("broken pipe")),
        Cause::InvalidUtf8,
        Cause::BinaryNotFound,
        Cause::NonZeroExitCode { exit_code: Some(1) },
        Cause::NonZeroExitCode { exit_code: None },
        Cause::InvalidPid,
        Cause::UnknownRemotePid,
        Cause::InvalidMultipleRemotePids,
    ];
    for cause in causes {
        assert_eq!(CError::new(other(cause)).code(), 0xff);
    }
}

#[test]
fn descriptions_name_the_failure() {
    let texts = [
        (RemotePidError::NonLocalConnection, "NonLocalConnection"),
        (other(Cause::InvalidInput), "Other(InvalidInput)"),
        (other(Cause::Io(String::from("No such file"))), "Other(No such file)"),
        (other(Cause::Io(String::new())), "Other()"),
        (other(Cause::InvalidUtf8), "Other(InvalidUtf8)"),
        (other(Cause::BinaryNotFound), "Other(BinaryNotFound)"),
        (
            other(Cause::NonZeroExitCode { exit_code: Some(1) }),
            "Other(NonZeroExitCode { exit_code: Some(1) })",
        ),
        (
            other(Cause::NonZeroExitCode { exit_code: Some(-2147483648) }),
            "Other(NonZeroExitCode { exit_code: Some(-2147483648) })",
        ),
        (
            other(Cause::NonZeroExitCode { exit_code: None }),
            "Other(NonZeroExitCode { exit_code: None })",
        ),
        (other(Cause::InvalidPid), "Other(InvalidPid)"),
        (other(Cause::UnknownRemotePid), "Other(UnknownRemotePid)"),
        (other(Cause::InvalidMultipleRemotePids), "Other(InvalidMultipleRemotePids)"),
    ];
    for (error, text) in texts {
        assert_eq!(error.description(), text);
        assert_eq!(CError::new(error).desc(), text.as_bytes());
    }
}

#[test]
fn cause_is_the_source() {
    assert_eq!(RemotePidError::NonLocalConnection.source(), None);
    assert_eq!(other(Cause::InvalidPid).source(), Some(&Cause::InvalidPid));
    assert_eq!(RemotePidError::from(Cause::BinaryNotFound), other(Cause::BinaryNotFound));
}

#[test]
fn nul_bytes_become_the_replacement_character() {
    assert_eq!(replace_nul(b""), b"");
    assert_eq!(replace_nul(b"abc"), b"abc");
    assert_eq!(replace_nul(b"\0"), "\u{fffd}".as_bytes());
    assert_eq!(replace_nul(b"a\0b\0\0"), b"a\xef\xbf\xbdb\xef\xbf\xbd\xef\xbf\xbd");
    assert_eq!(replace_nul(b"\xef\xbf\xbd"), b"\xef\xbf\xbd");
}

#[test]
fn description_holds_no_nul() {
    let shown = CError::new(other(Cause::Io(String::from("a\0b"))));
    assert_eq!(shown.desc(), "Other(a\u{fffd}b)".as_bytes());
    assert!(!shown.desc().contains(&0));
}

#[test]
fn success_leaves_the_slot_empty() {
    let mut slot = Some(CError::new(RemotePidError::NonLocalConnection));
    assert_eq!(finish(&mut slot, Ok(5678)), 5678);
    assert_eq!(remote_pid_err_code(&slot), 0x00);
    assert_eq!(remote_pid_err_desc(&slot), None);
}

#[test]
fn failure_fills_the_slot_and_returns_all_ones() {
    let mut slot = None;
    assert_eq!(finish(&mut slot, Err(RemotePidError::NonLocalConnection)), 0xffff_ffff);
    assert_eq!(remote_pid_err_code(&slot), 0x01);
    assert_eq!(remote_pid_err_desc(&slot), Some(&b"NonLocalConnection"[..]));
    assert_eq!(finish(&mut slot, Err(other(Cause::UnknownRemotePid))), 0xffff_ffff);
    assert_eq!(remote_pid_err_code(&slot), 0xff);
    assert_eq!(remote_pid_err_desc(&slot), Some(&b"Other(UnknownRemotePid)"[..]));
}

#[test]
fn largest_pid_is_told_from_failure_by_the_code() {
    let mut slot = None;
    assert_eq!(finish(&mut slot, Ok(u32::MAX)), 0xffff_ffff);
    assert_eq!(remote_pid_err_code(&slot), 0x00);
    assert_eq!(remote_pid_err_desc(&slot), None);
}

#[test]
fn set_and_clear_work_on_the_slot() {
    let mut slot = None;
    assert_eq!(remote_pid_err_code(&slot), 0x00);
    CError::set(&mut slot, other(Cause::InvalidPid));
    assert_eq!(remote_pid_err_code(&slot), 0xff);
    assert_eq!(remote_pid_err_desc(&slot), Some(&b"Other(InvalidPid)"[..]));
    CError::set(&mut slot, RemotePidError::NonLocalConnection);
    assert_eq!(remote_pid_err_code(&slot), 0x01);
    CError::clear(&mut slot);
    assert_eq!(remote_pid_err_code(&slot), 0x00);
    assert_eq!(remote_pid_err_desc(&slot), None);
}

#[test]
fn address_texts_must_be_utf8() {
    assert_eq!(
        address_texts(b"127.0.0.1:80", "localhost:443".as_bytes()),
        Ok(("127.0.0.1:80", "localhost:443"))
    );
    assert_eq!(address_texts(b"", b""), Ok(("", "")));
    assert_eq!(address_texts(b"\xff", b"127.0.0.1:80"), Err(other(Cause::InvalidUtf8)));
    assert_eq!(address_texts(b"127.0.0.1:80", b"\xc0\x80"), Err(other(Cause::InvalidUtf8)));
}

#[test]
fn bytes_are_text_if_they_are_utf8() {
    assert_eq!(decode(b"p5678\n"), Ok("p5678\n"));
    assert_eq!(decode("€".as_bytes()), Ok("€"));
    assert_eq!(decode(b""), Ok(""));
    assert_eq!(decode(b"\x80"), Err(other(Cause::InvalidUtf8)));
    assert_eq!(decode(b"\xf4\x90\x80\x80"), Err(other(Cause::InvalidUtf8)));
    assert_eq!(decode(b"\xe2\x82"), Err(other(Cause::InvalidUtf8)));
}
