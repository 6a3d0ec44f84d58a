use periph::gpio::{
    parse_active_low, parse_direction, parse_edge, parse_pin_name, parse_value, Direction, Edge,
    GpioAttr, Pin, Value,
};
use periph::Error;

#[test]
fn gpio_direction_value_round_trip() {
    // Configure a pin as an output driven high, then decode what a
    // read-back of the two attributes would hand us.
    let pin = Pin::new(17);
    let dir_write = pin.set_direction(Direction::Out);
    assert_eq!(dir_write.path, b"/sys/class/gpio/gpio17/direction");
    assert_eq!(dir_write.contents, b"out");
    let value_write = pin.set_value(Value::High);
    assert_eq!(value_write.path, b"/sys/class/gpio/gpio17/value");
    assert_eq!(value_write.contents, b"1");
    assert_eq!(parse_direction(&dir_write.contents), Ok(Direction::Out));
    assert_eq!(parse_value(&value_write.contents), Ok(Value::High));
}

#[test]
fn gpio_direction_tokens() {
    assert_eq!(Pin::new(1).set_direction(Direction::In).contents, b"in");
    assert_eq!(Pin::new(1).set_direction(Direction::Out).contents, b"out");
    assert_eq!(Pin::new(1).set_direction(Direction::Low).contents, b"low");
    assert_eq!(Pin::new(1).set_direction(Direction::High).contents, b"high");
}

#[test]
fn gpio_edge_tokens_round_trip() {
    let pin = Pin::new(4);
    for (edge, token) in [
        (Edge::Disabled, &b"none"[..]),
        (Edge::Rising, b"rising"),
        (Edge::Falling, b"falling"),
        (Edge::Both, b"both"),
    ] {
        let w = pin.set_edge(edge);
        assert_eq!(w.path, b"/sys/class/gpio/gpio4/edge");
        assert_eq!(w.contents, token);
        assert_eq!(parse_edge(&w.contents), Ok(edge));
    }
}

#[test]
fn gpio_parse_trims_whitespace() {
    assert_eq!(parse_direction(b"in\n"), Ok(Direction::In));
    assert_eq!(parse_direction(b"  high\n"), Ok(Direction::High));
    assert_eq!(parse_direction(b"\tout\r\n"), Ok(Direction::Out));
    assert_eq!(parse_value(b"0\n"), Ok(Value::Low));
    assert_eq!(parse_edge(b"falling\n"), Ok(Edge::Falling));
    assert_eq!(parse_active_low(b"1\n"), Ok(true));
    assert_eq!(parse_active_low(b"0"), Ok(false));
}

#[test]
fn gpio_parse_rejects_unknown_tokens() {
    assert_eq!(
        parse_direction(b"sideways\n"),
        Err(Error::UnexpectedContents(b"sideways".to_vec()))
    );
    assert_eq!(
        parse_value(b"2"),
        Err(Error::UnexpectedContents(b"2".to_vec()))
    );
    assert_eq!(
        parse_edge(b""),
        Err(Error::UnexpectedContents(b"".to_vec()))
    );
    assert_eq!(
        parse_active_low(b"yes"),
        Err(Error::UnexpectedContents(b"yes".to_vec()))
    );
}

#[test]
fn gpio_attr_paths() {
    let pin = Pin::new(5);
    assert_eq!(pin.attr_path(GpioAttr::Direction), b"/sys/class/gpio/gpio5/direction");
    assert_eq!(pin.attr_path(GpioAttr::Value), b"/sys/class/gpio/gpio5/value");
    assert_eq!(pin.attr_path(GpioAttr::Edge), b"/sys/class/gpio/gpio5/edge");
    assert_eq!(pin.attr_path(GpioAttr::ActiveLow), b"/sys/class/gpio/gpio5/active_low");
}

#[test]
fn gpio_export_unexport_writes() {
    let pin = Pin::new(23);
    let export = pin.export();
    assert_eq!(export.path, b"/sys/class/gpio/export");
    assert_eq!(export.contents, b"23");
    let unexport = pin.unexport();
    assert_eq!(unexport.path, b"/sys/class/gpio/unexport");
    assert_eq!(unexport.contents, b"23");
}

#[test]
fn gpio_pin_zero_renders_single_digit() {
    let pin = Pin::new(0);
    assert_eq!(pin.export().contents, b"0");
    assert_eq!(pin.attr_path(GpioAttr::Value), b"/sys/class/gpio/gpio0/value");
}

#[test]
fn gpio_pin_name_parsing() {
    assert_eq!(parse_pin_name(b"gpio17"), Some(Pin::new(17)));
    assert_eq!(parse_pin_name(b"gpio0"), Some(Pin::new(0)));
    // Repeated prefixes are stripped before the number is read.
    assert_eq!(parse_pin_name(b"gpiogpio5"), Some(Pin::new(5)));
    assert_eq!(parse_pin_name(b"led"), None);
    assert_eq!(parse_pin_name(b"gpio"), None);
    assert_eq!(parse_pin_name(b"gpio1a"), None);
    assert_eq!(parse_pin_name(b""), None);
}

#[test]
fn gpio_set_active_low_tokens() {
    let pin = Pin::new(9);
    assert_eq!(pin.set_active_low(true).contents, b"1");
    assert_eq!(pin.set_active_low(false).contents, b"0");
    assert_eq!(pin.set_active_low(true).path, b"/sys/class/gpio/gpio9/active_low");
}
