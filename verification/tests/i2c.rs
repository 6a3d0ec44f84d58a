use periph::i2c::{
    device_path, Capabilities, I2C, FUNC_10BIT_ADDR, FUNC_I2C, FUNC_SLAVE, I2C_FUNCS, I2C_PEC,
    I2C_RDWR, I2C_SLAVE, I2C_TENBIT, I2C_TIMEOUT, RDWR_FLAG_RD, RDWR_FLAG_TEN,
};
use periph::Error;

#[test]
fn i2c_capability_bitmask_queries() {
    // FUNC_I2C | FUNC_SLAVE.
    let caps = Capabilities::new(0x21);
    assert!(caps.i2c());
    assert!(caps.slave());
    assert!(!caps.addr_10bit());
    assert!(!caps.protocol_mangling());
    assert!(!caps.nostart());
    assert!(!caps.smbus_pec());
}

#[test]
fn i2c_capability_individual_bits() {
    assert!(Capabilities::new(FUNC_I2C).i2c());
    assert!(Capabilities::new(FUNC_10BIT_ADDR).addr_10bit());
    assert!(Capabilities::new(FUNC_SLAVE).slave());
    assert!(Capabilities::new(0x04).protocol_mangling());
    assert!(Capabilities::new(0x10).nostart());
    assert!(Capabilities::new(0x08).smbus_pec());
    assert!(!Capabilities::new(0).i2c());
}

#[test]
fn i2c_request_code_constants() {
    assert_eq!(I2C_TIMEOUT, 0x0702);
    assert_eq!(I2C_SLAVE, 0x0703);
    assert_eq!(I2C_TENBIT, 0x0704);
    assert_eq!(I2C_FUNCS, 0x0705);
    assert_eq!(I2C_RDWR, 0x0707);
    assert_eq!(I2C_PEC, 0x0708);
}

#[test]
fn i2c_seven_bit_addresses_accept_legal_range() {
    let mut bus = I2C::new(1, Capabilities::new(FUNC_I2C));
    for addr in 0x08..=0x77u16 {
        let call = bus.set_slave_address(addr).unwrap();
        assert_eq!(call.req, I2C_SLAVE);
        assert_eq!(call.arg, addr as u64);
    }
}

#[test]
fn i2c_seven_bit_addresses_reject_reserved_block_and_overflow() {
    let mut bus = I2C::new(1, Capabilities::new(FUNC_I2C));
    for addr in 0x78..=0x7fu16 {
        assert_eq!(
            bus.set_slave_address(addr),
            Err(Error::InvalidSlaveAddress(addr))
        );
    }
    for addr in [0x80u16, 0x100, 0x3ff, 0xffff] {
        assert_eq!(
            bus.set_slave_address(addr),
            Err(Error::InvalidSlaveAddress(addr))
        );
    }
}

#[test]
fn i2c_ten_bit_addresses_accept_up_to_0x3ff() {
    let mut bus = I2C::new(0, Capabilities::new(FUNC_I2C | FUNC_10BIT_ADDR));
    let call = bus.set_addr_10bit(true).unwrap();
    assert_eq!(call.req, I2C_TENBIT);
    assert_eq!(call.arg, 1);
    assert!(bus.set_slave_address(0x3ff).is_ok());
    assert!(bus.set_slave_address(0x78).is_ok());
    assert_eq!(
        bus.set_slave_address(0x400),
        Err(Error::InvalidSlaveAddress(0x400))
    );
}

#[test]
fn i2c_ten_bit_mode_needs_capability() {
    let mut bus = I2C::new(0, Capabilities::new(FUNC_I2C));
    assert_eq!(bus.set_addr_10bit(true), Err(Error::FeatureNotSupported));
    assert_eq!(bus.set_addr_10bit(false), Err(Error::FeatureNotSupported));
}

#[test]
fn i2c_timeout_argument_is_in_ten_millisecond_units() {
    let bus = I2C::new(0, Capabilities::new(FUNC_I2C));
    assert_eq!(bus.set_timeout(0).arg, 0);
    assert_eq!(bus.set_timeout(5).arg, 1);
    assert_eq!(bus.set_timeout(9).arg, 1);
    assert_eq!(bus.set_timeout(10).arg, 1);
    assert_eq!(bus.set_timeout(25).arg, 2);
    assert_eq!(bus.set_timeout(100).arg, 10);
    assert_eq!(bus.set_timeout(0).req, I2C_TIMEOUT);
}

#[test]
fn i2c_smbus_pec_argument() {
    let bus = I2C::new(0, Capabilities::new(FUNC_I2C));
    assert_eq!(bus.set_smbus_pec(true).req, I2C_PEC);
    assert_eq!(bus.set_smbus_pec(true).arg, 1);
    assert_eq!(bus.set_smbus_pec(false).arg, 0);
}

#[test]
fn i2c_clock_speed_is_big_endian() {
    let bus = I2C::new(1, Capabilities::new(FUNC_I2C));
    assert_eq!(bus.clock_speed(&[0x00, 0x06, 0x1a, 0x80]), 400_000);
    assert_eq!(bus.clock_speed(&[0x12, 0x34, 0x56, 0x78]), 0x1234_5678);
    assert_eq!(bus.clock_speed(&[0, 0, 0, 0]), 0);
    assert_eq!(
        bus.clock_frequency_path(),
        b"/sys/class/i2c-adapter/i2c-1/of_node/clock-frequency"
    );
}

#[test]
fn i2c_write_read_segments_seven_bit() {
    let mut bus = I2C::new(0, Capabilities::new(FUNC_I2C));
    bus.set_slave_address(0x20).unwrap();
    let write_buffer = vec![0x10u8];
    let read_buffer = vec![0u8; 4];
    let (w, r) = bus.write_read(&write_buffer, &read_buffer).unwrap();
    assert_eq!(w.addr, 0x20);
    assert_eq!(w.flags, 0);
    assert_eq!(w.len, 1);
    assert_eq!(r.addr, 0x20);
    assert_eq!(r.flags, RDWR_FLAG_RD);
    assert_eq!(r.len, 4);
}

#[test]
fn i2c_write_read_segments_ten_bit() {
    let mut bus = I2C::new(0, Capabilities::new(FUNC_I2C | FUNC_10BIT_ADDR));
    bus.set_addr_10bit(true).unwrap();
    bus.set_slave_address(0x2a0).unwrap();
    let write_buffer = vec![1u8, 2];
    let read_buffer = vec![0u8; 3];
    let (w, r) = bus.write_read(&write_buffer, &read_buffer).unwrap();
    assert_eq!(w.flags, RDWR_FLAG_TEN);
    assert_eq!(r.flags, RDWR_FLAG_RD | RDWR_FLAG_TEN);
    assert_eq!(w.addr, 0x2a0);
    assert_eq!(w.len, 2);
    assert_eq!(r.len, 3);
}

#[test]
fn i2c_write_read_empty_buffer_is_a_no_op() {
    let mut bus = I2C::new(0, Capabilities::new(FUNC_I2C));
    bus.set_slave_address(0x20).unwrap();
    let read_buffer = vec![0u8; 4];
    assert!(bus.write_read(b"", &read_buffer).is_none());
    assert!(bus.write_read(&[1u8], b"").is_none());
}

#[test]
fn i2c_state_accessors() {
    let caps = Capabilities::new(0x21);
    let bus = I2C::new(7, caps);
    assert_eq!(bus.bus(), 7);
    assert_eq!(bus.capabilities(), caps);
}

#[test]
fn i2c_device_node_path() {
    assert_eq!(device_path(0), b"/dev/i2c-0");
    assert_eq!(device_path(13), b"/dev/i2c-13");
}
