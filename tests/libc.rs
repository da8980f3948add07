use uacpi::libc::{copy_fits, snprintf_output, snprintf_result, strcmp, strncmp, strnlen};

#[test]
fn strcmp_orders_strings() {
    assert_eq!(strcmp(b"abc\0", b"abc\0"), 0);
    assert_eq!(strcmp(b"abc\0", b"abd\0"), -1);
    assert_eq!(strcmp(b"abd\0", b"abc\0"), 1);
    assert_eq!(strcmp(b"ab\0", b"abc\0"), -(b'c' as i32));
    assert_eq!(strcmp(b"abc\0", b"ab\0"), b'c' as i32);
    assert_eq!(strcmp(b"\0", b"\0"), 0);
    assert_eq!(strcmp(b"a\0junk", b"a\0other"), 0);
}

#[test]
fn strcmp_reads_bytes_as_unsigned() {
    assert_eq!(strcmp(&[0xFF, 0], &[0x01, 0]), 0xFE);
}

#[test]
fn strncmp_stops_at_the_limit() {
    assert_eq!(strncmp(b"_HID\0", b"_HIX\0", 3), 0);
    assert_eq!(strncmp(b"_HID\0", b"_HIX\0", 4), (b'D' as i32) - (b'X' as i32));
    assert_eq!(strncmp(b"abc\0", b"xyz\0", 0), 0);
}

#[test]
fn strnlen_counts_to_nul_or_limit() {
    assert_eq!(strnlen(b"hello\0", 10), 5);
    assert_eq!(strnlen(b"hello\0", 3), 3);
    assert_eq!(strnlen(b"\0", 4), 0);
    assert_eq!(strnlen(b"abc", 10), 3);
}

#[test]
fn snprintf_truncates_and_terminates() {
    assert_eq!(snprintf_output(b"hello", 10), b"hello\0".to_vec());
    assert_eq!(snprintf_output(b"hello", 4), b"hel\0".to_vec());
    assert_eq!(snprintf_output(b"hello", 6), b"hello\0".to_vec());
    assert_eq!(snprintf_output(b"hello", 1), b"\0".to_vec());
    assert_eq!(snprintf_output(b"hello", 0), Vec::<u8>::new());
    assert_eq!(snprintf_result(5), 5);
    assert_eq!(snprintf_result(usize::MAX), -1);
}

#[test]
fn checked_copies() {
    assert!(copy_fits(4, 4));
    assert!(copy_fits(0, 0));
    assert!(!copy_fits(5, 4));
}
