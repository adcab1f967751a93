use tracedbg::maps::{parse_base_address, parse_hex};
use tracedbg::ptrace::{error_of_errno, Error};

fn addr_of(line: &str) -> Option<u64> {
    parse_base_address(&line.as_bytes().to_vec())
}

#[test]
fn the_first_token_up_to_the_dash_is_the_base() {
    let line = "55e0a1b2c000-55e0a1b2d000 r-xp 00000000 08:01 131 /usr/bin/hello\n";
    assert_eq!(addr_of(line), Some(0x55e0a1b2c000));
}

#[test]
fn only_the_first_line_is_read() {
    let text = "7f0000000000-7f0000001000 r--p 0 0:0 0\nffffffffff600000-ffffffffff601000\n";
    assert_eq!(addr_of(text), Some(0x7f0000000000));
}

#[test]
fn upper_case_digits_parse_too() {
    assert_eq!(addr_of("7FA0B1-7fa0c0 rw-p\n"), Some(0x7FA0B1));
}

#[test]
fn an_empty_buffer_has_no_base() {
    assert_eq!(addr_of(""), None);
}

#[test]
fn a_non_hexadecimal_token_has_no_base() {
    assert_eq!(addr_of("not hex at all\n"), None);
    assert_eq!(addr_of("-55e0 r-xp\n"), None);
}

#[test]
fn a_token_too_large_for_an_address_has_no_base() {
    assert_eq!(addr_of("10000000000000000-1 r-xp\n"), None);
    assert_eq!(addr_of("ffffffffffffffff-f r-xp\n"), Some(u64::MAX));
}

#[test]
fn parse_hex_reads_a_middle_slice() {
    let bytes = b"xx1a2bxx".to_vec();
    assert_eq!(parse_hex(&bytes, 2, 6), Some(0x1a2b));
    assert_eq!(parse_hex(&bytes, 2, 2), None);
    assert_eq!(parse_hex(&bytes, 0, 4), None);
}

#[test]
fn errno_values_classify_as_tracing_errors() {
    assert_eq!(error_of_errno(3), Error::NoSuchProcess);
    assert_eq!(error_of_errno(5), Error::EIO);
    assert_eq!(error_of_errno(14), Error::EIO);
}
