use periph::ioctl::{
    decode_dir, decode_nr, decode_size, decode_type, ioc, request_code_none, request_code_read,
    request_code_readwrite, request_code_write, DIR_NONE, DIR_READ, DIR_WRITE,
};

#[test]
fn ioctl_read_request_matches_kernel_constant() {
    // SPI "read mode" (type 'k', number 1, one payload byte) is the
    // documented constant SPI_IOC_RD_MODE.
    assert_eq!(request_code_read(b'k', 1, 1), 0x8001_6b01);
}

#[test]
fn ioctl_write_request_matches_kernel_constant() {
    // SPI_IOC_WR_MODE.
    assert_eq!(request_code_write(b'k', 1, 1), 0x4001_6b01);
}

#[test]
fn ioctl_none_request_has_only_type_and_number() {
    assert_eq!(request_code_none(b'k', 2), 0x6b02);
}

#[test]
fn ioctl_readwrite_request_sets_both_direction_bits() {
    assert_eq!(request_code_readwrite(b'k', 5, 4), 0xc004_6b05);
}

#[test]
fn ioctl_direction_constants() {
    assert_eq!(DIR_NONE, 0);
    assert_eq!(DIR_WRITE, 1);
    assert_eq!(DIR_READ, 2);
}

#[test]
fn ioctl_decode_recovers_fields() {
    let code = request_code_read(b'k', 4, 4); // SPI_IOC_RD_MAX_SPEED_HZ
    assert_eq!(code, 0x8004_6b04);
    assert_eq!(decode_dir(code), DIR_READ);
    assert_eq!(decode_type(code), 0x6b);
    assert_eq!(decode_nr(code), 4);
    assert_eq!(decode_size(code), 4);
}

#[test]
fn ioctl_decode_recovers_fields_write() {
    let code = request_code_write(b'k', 3, 1); // SPI_IOC_WR_BITS_PER_WORD
    assert_eq!(code, 0x4001_6b03);
    assert_eq!(decode_dir(code), DIR_WRITE);
    assert_eq!(decode_type(code), 0x6b);
    assert_eq!(decode_nr(code), 3);
    assert_eq!(decode_size(code), 1);
}

#[test]
fn ioctl_out_of_range_fields_are_masked() {
    // A field wider than its slot must not spill into its neighbors.
    assert_eq!(ioc(7, 0x16b, 0x103, 0x4002), ioc(3, 0x6b, 0x03, 0x02));
    assert_eq!(decode_dir(ioc(7, 0, 0, 0)), 3);
    assert_eq!(decode_nr(ioc(0, 0, 0x1ff, 0)), 0xff);
}
