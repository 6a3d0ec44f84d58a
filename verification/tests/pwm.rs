use periph::pwm::{Pwm, PwmAttr, PwmChip};
use periph::Error;

#[test]
fn pwm_export_unexport_writes() {
    let pwm = Pwm::new(0, 1);
    let export = pwm.export();
    assert_eq!(export.path, b"/sys/class/pwm/pwmchip0/export");
    assert_eq!(export.contents, b"1");
    let unexport = pwm.unexport();
    assert_eq!(unexport.path, b"/sys/class/pwm/pwmchip0/unexport");
    assert_eq!(unexport.contents, b"1");
}

#[test]
fn pwm_attr_paths() {
    let pwm = Pwm::new(0, 1);
    assert_eq!(pwm.attr_path(PwmAttr::Enable), b"/sys/class/pwm/pwmchip0/pwm1/enable");
    assert_eq!(pwm.attr_path(PwmAttr::DutyCycle), b"/sys/class/pwm/pwmchip0/pwm1/duty_cycle");
    assert_eq!(pwm.attr_path(PwmAttr::Period), b"/sys/class/pwm/pwmchip0/pwm1/period");
}

#[test]
fn pwm_enable_tokens() {
    let pwm = Pwm::new(2, 0);
    let on = pwm.enable(true);
    assert_eq!(on.path, b"/sys/class/pwm/pwmchip2/pwm0/enable");
    assert_eq!(on.contents, b"1");
    assert_eq!(pwm.enable(false).contents, b"0");
}

#[test]
fn pwm_enabled_decoding() {
    let pwm = Pwm::new(0, 0);
    assert_eq!(pwm.enabled(b"1\n"), Ok(true));
    assert_eq!(pwm.enabled(b"0\n"), Ok(false));
    assert_eq!(pwm.enabled(b"0"), Ok(false));
    assert_eq!(
        pwm.enabled(b"2\n"),
        Err(Error::UnexpectedContents(b"2".to_vec()))
    );
    assert_eq!(
        pwm.enabled(b"on\n"),
        Err(Error::UnexpectedContents(b"on".to_vec()))
    );
}

#[test]
fn pwm_duty_cycle_round_trip() {
    let pwm = Pwm::new(0, 0);
    let w = pwm.set_duty_cycle_ns(10_000);
    assert_eq!(w.path, b"/sys/class/pwm/pwmchip0/pwm0/duty_cycle");
    assert_eq!(w.contents, b"10000");
    assert_eq!(pwm.duty_cycle_ns(&w.contents), Ok(10_000));
    assert_eq!(pwm.duty_cycle_ns(b"123456\n"), Ok(123_456));
}

#[test]
fn pwm_period_round_trip() {
    let pwm = Pwm::new(1, 3);
    let w = pwm.set_period_ns(20_000);
    assert_eq!(w.path, b"/sys/class/pwm/pwmchip1/pwm3/period");
    assert_eq!(w.contents, b"20000");
    assert_eq!(pwm.period_ns(&w.contents), Ok(20_000));
}

#[test]
fn pwm_decimal_bounds() {
    let pwm = Pwm::new(0, 0);
    assert_eq!(pwm.set_period_ns(u32::MAX).contents, b"4294967295");
    assert_eq!(pwm.period_ns(b"4294967295"), Ok(u32::MAX));
    // One past u32::MAX no longer fits and must be refused, not wrapped.
    assert_eq!(
        pwm.period_ns(b"4294967296"),
        Err(Error::UnexpectedContents(b"4294967296".to_vec()))
    );
    assert_eq!(pwm.set_period_ns(0).contents, b"0");
    assert_eq!(pwm.period_ns(b"0\n"), Ok(0));
}

#[test]
fn pwm_rejects_non_decimal_contents() {
    let pwm = Pwm::new(0, 0);
    assert_eq!(
        pwm.duty_cycle_ns(b"10ms\n"),
        Err(Error::UnexpectedContents(b"10ms".to_vec()))
    );
    assert_eq!(
        pwm.period_ns(b"\n"),
        Err(Error::UnexpectedContents(b"".to_vec()))
    );
}

#[test]
fn pwm_chip_npwm() {
    let chip = PwmChip::new(2);
    assert_eq!(chip.npwm_path(), b"/sys/class/pwm/pwmchip2/npwm");
    assert_eq!(chip.count(b"8\n"), Ok(8));
    assert_eq!(
        chip.count(b"eight\n"),
        Err(Error::UnexpectedContents(b"eight".to_vec()))
    );
}

#[test]
fn pwm_chip_export_targets_channel() {
    let chip = PwmChip::new(3);
    let w = chip.export(7);
    assert_eq!(w.path, b"/sys/class/pwm/pwmchip3/export");
    assert_eq!(w.contents, b"7");
    let u = chip.unexport(7);
    assert_eq!(u.path, b"/sys/class/pwm/pwmchip3/unexport");
    assert_eq!(u.contents, b"7");
}
