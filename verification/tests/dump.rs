use cmsis_dap::dump::{dump_buf, hex_digit_of};

#[test]
fn digits_are_upper_case_hexadecimal() {
    assert_eq!(hex_digit_of(0), b'0');
    assert_eq!(hex_digit_of(9), b'9');
    assert_eq!(hex_digit_of(10), b'A');
    assert_eq!(hex_digit_of(15), b'F');
    assert_eq!(hex_digit_of(0x1B), b'B');
}

#[test]
fn nothing_is_listed_as_nothing() {
    assert_eq!(dump_buf(&[]), Vec::<u8>::new());
}

#[test]
fn short_listing_is_one_line() {
    assert_eq!(dump_buf(&[0x7F]), b"7F\n".to_vec());
    assert_eq!(dump_buf(&[0x7F, 0x01, 0xA0]), b"7F, 01, A0\n".to_vec());
}

#[test]
fn line_is_parted_in_the_middle_and_ends_after_sixteen_bytes() {
    let bytes: Vec<u8> = (0u8..18).collect();
    let expected = "00, 01, 02, 03, 04, 05, 06, 07,   08, 09, 0A, 0B, 0C, 0D, 0E, 0F\n10, 11\n";
    assert_eq!(dump_buf(&bytes), expected.as_bytes().to_vec());
}

#[test]
fn listing_that_ends_in_the_middle_of_a_line_ends_with_a_line_feed() {
    let bytes: Vec<u8> = (0xF8u8..=0xFF).collect();
    assert_eq!(dump_buf(&bytes), b"F8, F9, FA, FB, FC, FD, FE, FF\n".to_vec());
    let bytes = [0u8; 16];
    let expected = "00, 00, 00, 00, 00, 00, 00, 00,   00, 00, 00, 00, 00, 00, 00, 00\n";
    assert_eq!(dump_buf(&bytes), expected.as_bytes().to_vec());
}
