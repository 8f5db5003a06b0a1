use remote_pid::address::Endpoint;
use remote_pid::inspector::{Inspection, TRUSTED_PATHS};
use remote_pid::resolve::{addr_pair, first_address, raw_fd, Step};
use remote_pid::{Cause, RemotePid, RemotePidError};

fn v4(a: u8, b: u8, c: u8, d: u8, port: u16) -> Endpoint {
    Endpoint::V4 { octets: [a, b, c, d], port }
}

fn v6(bits: u128, scope_id: u32, port: u16) -> Endpoint {
    Endpoint::V6 { bits, scope_id, port }
}

fn run(exit_code: Option<i32>, stdout: &[u8], own_pid: u32) -> Result<u32, RemotePidError> {
    Inspection { exit_code, stdout: stdout.to_vec(), own_pid }.remote_pid()
}

#[test]
fn loopback_is_127_slash_8_and_colon_colon_1() {
    assert!(v4(127, 0, 0, 1, 80).is_loopback());
    assert!(v4(127, 255, 255, 254, 80).is_loopback());
    assert!(v4(127, 0, 0, 0, 0).is_loopback());
    assert!(!v4(126, 255, 255, 255, 80).is_loopback());
    assert!(!v4(128, 0, 0, 1, 80).is_loopback());
    assert!(!v4(0, 0, 0, 0, 80).is_loopback());
    assert!(!v4(1, 0, 0, 127, 80).is_loopback());
    assert!(v6(1, 0, 80).is_loopback());
    assert!(v6(1, 7, 80).is_loopback());
    assert!(!v6(0, 0, 80).is_loopback());
    assert!(!v6(2, 0, 80).is_loopback());
    assert!(!v6(0xffff_7f00_0001, 0, 80).is_loopback());
}

#[test]
fn port_is_kept() {
    assert_eq!(v4(127, 0, 0, 1, 65535).port(), 65535);
    assert_eq!(v6(1, 0, 0).port(), 0);
}

#[test]
fn first_address_is_taken() {
    let both = [v4(127, 0, 0, 1, 80), v4(10, 0, 0, 1, 80)];
    assert_eq!(first_address(&both), Ok(v4(127, 0, 0, 1, 80)));
    assert_eq!(first_address(&both[1..]), Ok(v4(10, 0, 0, 1, 80)));
}

#[test]
fn no_address_is_an_invalid_input() {
    assert_eq!(first_address(&[]), Err(RemotePidError::Other(Cause::InvalidInput)));
}

#[test]
fn descriptor_must_fit_32_signed_bits() {
    assert_eq!(raw_fd(0), Ok(0));
    assert_eq!(raw_fd(3), Ok(3));
    assert_eq!(raw_fd(0x7fff_ffff), Ok(i32::MAX));
    assert_eq!(raw_fd(0x8000_0000), Err(RemotePidError::Other(Cause::InvalidInput)));
    assert_eq!(raw_fd(u64::MAX), Err(RemotePidError::Other(Cause::InvalidInput)));
}

#[test]
fn both_ends_loopback_starts_at_the_first_trusted_path() {
    let search = addr_pair(v4(127, 0, 0, 1, 1), v6(1, 0, 2)).ok().unwrap();
    assert_eq!(search.path(), "/usr/sbin/lsof");
    assert_eq!(TRUSTED_PATHS, 2);
}

#[test]
fn first_path_that_is_a_file_is_run() {
    let search = addr_pair(v4(127, 0, 0, 1, 4000), v4(127, 0, 0, 2, 443)).ok().unwrap();
    match search.probed(true) {
        Step::Inspect(invocation) => {
            assert_eq!(invocation.program(), "/usr/sbin/lsof");
            assert_eq!(
                invocation.arguments(),
                vec!["-Fp", "-i", "TCP@127.0.0.1:4000", "-i", "TCP@127.0.0.2:443"]
            );
        }
        _ => panic!("the first path is the inspector"),
    }
}

#[test]
fn invocation_is_for_the_connection_that_was_accepted() {
    let local = v6(1, 3, 50000);
    let remote = v4(127, 1, 2, 3, 22);
    let search = addr_pair(local, remote).ok().unwrap();
    match search.probed(true) {
        Step::Inspect(invocation) => assert_eq!(invocation.connection(), (local, remote)),
        _ => panic!("the first path is the inspector"),
    }
}

#[test]
fn second_path_is_run_when_the_first_is_no_file() {
    let search = addr_pair(v4(127, 0, 0, 1, 1), v4(127, 0, 0, 1, 2)).ok().unwrap();
    let search = match search.probed(false) {
        Step::Probe(next) => next,
        _ => panic!("a second path is left to probe"),
    };
    match search.probed(true) {
        Step::Inspect(invocation) => {
            assert_eq!(invocation.program(), "/usr/bin/lsof");
            assert_eq!(
                invocation.arguments(),
                vec!["-Fp", "-i", "TCP@127.0.0.1:1", "-i", "TCP@127.0.0.1:2"]
            );
        }
        _ => panic!("the second path is the inspector"),
    }
}

#[test]
fn filters_write_every_octet_and_port_in_full() {
    let search = addr_pair(v4(127, 0, 10, 255, 0), v4(127, 100, 9, 99, 65535)).ok().unwrap();
    match search.probed(true) {
        Step::Inspect(invocation) => assert_eq!(
            invocation.arguments(),
            vec!["-Fp", "-i", "TCP@127.0.10.255:0", "-i", "TCP@127.100.9.99:65535"]
        ),
        _ => panic!("the first path is the inspector"),
    }
}

#[test]
fn ipv6_filters_are_bracketed_and_carry_a_scope_that_is_not_zero() {
    let search = addr_pair(v6(1, 0, 8080), v6(1, 4294967295, 443)).ok().unwrap();
    match search.probed(true) {
        Step::Inspect(invocation) => assert_eq!(
            invocation.arguments(),
            vec!["-Fp", "-i", "TCP@[::1]:8080", "-i", "TCP@[::1%4294967295]:443"]
        ),
        _ => panic!("the first path is the inspector"),
    }
}

#[test]
fn status_other_than_zero_fails_with_the_status() {
    assert_eq!(
        run(Some(1), b"p5678\n", 1),
        Err(RemotePidError::Other(Cause::NonZeroExitCode { exit_code: Some(1) }))
    );
    assert_eq!(
        run(Some(-1), b"p5678\n", 1),
        Err(RemotePidError::Other(Cause::NonZeroExitCode { exit_code: Some(-1) }))
    );
}

#[test]
fn missing_status_fails_without_one() {
    assert_eq!(
        run(None, b"p5678\n", 1),
        Err(RemotePidError::Other(Cause::NonZeroExitCode { exit_code: None }))
    );
}

#[test]
fn output_that_is_not_utf8_fails() {
    assert_eq!(run(Some(0), b"p5678\n\xff\n", 1), Err(RemotePidError::Other(Cause::InvalidUtf8)));
    assert_eq!(run(Some(0), b"\xc3", 1), Err(RemotePidError::Other(Cause::InvalidUtf8)));
    assert_eq!(run(Some(0), b"\xed\xa0\x80", 1), Err(RemotePidError::Other(Cause::InvalidUtf8)));
}

#[test]
fn status_is_looked_at_before_the_output() {
    assert_eq!(
        run(Some(2), b"\xff", 1),
        Err(RemotePidError::Other(Cause::NonZeroExitCode { exit_code: Some(2) }))
    );
}

#[test]
fn text_beyond_ascii_is_read_as_text() {
    assert_eq!(run(Some(0), "nä\np5678\n€p1\n".as_bytes(), 1), Ok(5678));
}

#[test]
fn empty_output_names_nobody() {
    assert_eq!(run(Some(0), b"", 1), Err(RemotePidError::Other(Cause::UnknownRemotePid)));
}
