//! PWM channels driven through the sysfs tree.
//!
//! A channel is addressed by chip number and channel number; its state
//! lives kernel-side under `/sys/class/pwm/pwmchipN/pwmM/`.  As with
//! GPIO, every write is encoded as a [`SysfsWrite`] and every read is
//! decoded from the raw attribute contents; the embedding application
//! performs the file I/O and the export-only-if-absent existence probe.

use crate::sysfs::ascii_bytes;
use crate::sysfs::ascii_vec;
use crate::sysfs::append_ascii;
use crate::sysfs::append_decimal;
use crate::sysfs::decimal_digits;
use crate::sysfs::parse_u32_digits;
use crate::sysfs::parse_u32_spec;
use crate::sysfs::trim;
use crate::sysfs::trimmed;
use crate::sysfs::SysfsWrite;
use crate::Error;
use vstd::prelude::*;
use vstd::slice::slice_to_vec;

verus! {

/// A PWM controller chip, identified by number.
#[derive(Debug, Copy, Clone, PartialEq, Eq, Structural)]
pub struct PwmChip {
    pub number: u32,
}

/// One PWM channel of a chip.
#[derive(Debug, Copy, Clone, PartialEq, Eq, Structural)]
pub struct Pwm {
    pub chip: PwmChip,
    pub number: u32,
}

/// Signal polarity of a PWM channel.
#[derive(Debug, Copy, Clone, PartialEq, Eq, Structural)]
pub enum Polarity {
    Normal,
    Inverse,
}

/// The sysfs directory of a PWM chip: `/sys/class/pwm/pwmchipN`.
pub open spec fn chip_dir(chip: u32) -> Seq<u8> {
    ascii_bytes("/sys/class/pwm/pwmchip"@) + decimal_digits(chip as nat)
}

/// The path of a file directly under a PWM chip's directory.
pub open spec fn chip_file(chip: u32, name: Seq<char>) -> Seq<u8> {
    chip_dir(chip) + ascii_bytes("/"@) + ascii_bytes(name)
}

/// The path of an attribute of one channel:
/// `/sys/class/pwm/pwmchipN/pwmM/<attr>`.
pub open spec fn pwm_attr_path(chip: u32, number: u32, attr: Seq<char>) -> Seq<u8> {
    chip_dir(chip) + ascii_bytes("/pwm"@) + decimal_digits(number as nat) + ascii_bytes("/"@)
        + ascii_bytes(attr)
}

/// What decoding the `enable` attribute yields: the attribute must hold
/// the decimal number `1` (enabled) or `0` (disabled).
pub open spec fn enabled_spec(s: Seq<u8>) -> Option<bool> {
    match parse_u32_spec(trimmed(s)) {
        Some(n) => if n == 1 {
            Some(true)
        } else if n == 0 {
            Some(false)
        } else {
            None
        },
        None => None,
    }
}

fn chip_file_vec(chip: u32, name: &str) -> (v: Vec<u8>)
    requires
        name.is_ascii(),
    ensures
        v@ == chip_file(chip, name@),
{
    proof {
        reveal_strlit("/sys/class/pwm/pwmchip");
        reveal_strlit("/");
    }
    let mut v = ascii_vec("/sys/class/pwm/pwmchip");
    append_decimal(&mut v, chip as u64);
    append_ascii(&mut v, "/");
    append_ascii(&mut v, name);
    proof {
        assert(v@ =~= chip_file(chip, name@));
    }
    v
}

fn attr_file(chip: u32, number: u32, attr: &str) -> (v: Vec<u8>)
    requires
        attr.is_ascii(),
    ensures
        v@ == pwm_attr_path(chip, number, attr@),
{
    proof {
        reveal_strlit("/sys/class/pwm/pwmchip");
        reveal_strlit("/pwm");
        reveal_strlit("/");
    }
    let mut v = ascii_vec("/sys/class/pwm/pwmchip");
    append_decimal(&mut v, chip as u64);
    append_ascii(&mut v, "/pwm");
    append_decimal(&mut v, number as u64);
    append_ascii(&mut v, "/");
    append_ascii(&mut v, attr);
    proof {
        assert(v@ =~= pwm_attr_path(chip, number, attr@));
    }
    v
}

/// Decodes a decimal attribute (`npwm`, `duty_cycle`, `period`),
/// reporting unrecognized contents with the offending (trimmed) bytes.
fn parse_decimal_attr(contents: &[u8]) -> (r: Result<u32, Error>)
    ensures
        match r {
            Ok(n) => parse_u32_spec(trimmed(contents@)) == Some(n),
            Err(e) => parse_u32_spec(trimmed(contents@)) is None && (e
                matches Error::UnexpectedContents(c) && c@ == trimmed(contents@)),
        },
{
    let t = trim(contents);
    match parse_u32_digits(t) {
        Some(n) => Ok(n),
        None => Err(Error::UnexpectedContents(slice_to_vec(t))),
    }
}

impl PwmChip {
    /// A handle for PWM chip `number`.  Whether such a chip exists is a
    /// kernel-side fact the embedding application probes.
    pub fn new(number: u32) -> (chip: PwmChip)
        ensures
            chip.number == number,
    {
        PwmChip { number }
    }

    /// The path of the chip's `npwm` attribute, which holds how many
    /// channels the chip drives.
    pub fn npwm_path(&self) -> (v: Vec<u8>)
        ensures
            v@ == chip_file(self.number, "npwm"@),
    {
        proof {
            reveal_strlit("npwm");
        }
        chip_file_vec(self.number, "npwm")
    }

    /// Decodes the `npwm` attribute: the number of channels.
    pub fn count(&self, contents: &[u8]) -> (r: Result<u32, Error>)
        ensures
            match r {
                Ok(n) => parse_u32_spec(trimmed(contents@)) == Some(n),
                Err(e) => parse_u32_spec(trimmed(contents@)) is None && (e
                    matches Error::UnexpectedContents(c) && c@ == trimmed(contents@)),
            },
    {
        parse_decimal_attr(contents)
    }

    /// The write that creates channel `number`'s attribute directory:
    /// the channel number, in decimal, into the chip's `export` file.
    pub fn export(&self, number: u32) -> (w: SysfsWrite)
        ensures
            w.path@ == chip_file(self.number, "export"@),
            w.contents@ == decimal_digits(number as nat),
    {
        proof {
            reveal_strlit("export");
        }
        let mut contents: Vec<u8> = Vec::new();
        append_decimal(&mut contents, number as u64);
        proof {
            assert(contents@ =~= decimal_digits(number as nat));
        }
        SysfsWrite { path: chip_file_vec(self.number, "export"), contents }
    }

    /// The write that removes channel `number`'s attribute directory.
    pub fn unexport(&self, number: u32) -> (w: SysfsWrite)
        ensures
            w.path@ == chip_file(self.number, "unexport"@),
            w.contents@ == decimal_digits(number as nat),
    {
        proof {
            reveal_strlit("unexport");
        }
        let mut contents: Vec<u8> = Vec::new();
        append_decimal(&mut contents, number as u64);
        proof {
            assert(contents@ =~= decimal_digits(number as nat));
        }
        SysfsWrite { path: chip_file_vec(self.number, "unexport"), contents }
    }
}

/// The per-channel attributes this layer drives.
#[derive(Debug, Copy, Clone, PartialEq, Eq, Structural)]
pub enum PwmAttr {
    Enable,
    DutyCycle,
    Period,
}

/// The file name of a channel attribute.
pub open spec fn pwm_attr_name(attr: PwmAttr) -> Seq<char> {
    match attr {
        PwmAttr::Enable => "enable"@,
        PwmAttr::DutyCycle => "duty_cycle"@,
        PwmAttr::Period => "period"@,
    }
}

impl Pwm {
    /// A handle for channel `number` of chip `chip`.  Does not export
    /// the channel.
    pub fn new(chip: u32, number: u32) -> (pwm: Pwm)
        ensures
            pwm.chip.number == chip,
            pwm.number == number,
    {
        Pwm { chip: PwmChip { number: chip }, number }
    }

    /// The absolute path of one of this channel's attribute files.
    pub fn attr_path(&self, attr: PwmAttr) -> (v: Vec<u8>)
        ensures
            v@ == pwm_attr_path(self.chip.number, self.number, pwm_attr_name(attr)),
    {
        proof {
            reveal_strlit("enable");
            reveal_strlit("duty_cycle");
            reveal_strlit("period");
        }
        match attr {
            PwmAttr::Enable => attr_file(self.chip.number, self.number, "enable"),
            PwmAttr::DutyCycle => attr_file(self.chip.number, self.number, "duty_cycle"),
            PwmAttr::Period => attr_file(self.chip.number, self.number, "period"),
        }
    }

    /// The write that registers this channel with the kernel.
    pub fn export(&self) -> (w: SysfsWrite)
        ensures
            w.path@ == chip_file(self.chip.number, "export"@),
            w.contents@ == decimal_digits(self.number as nat),
    {
        self.chip.export(self.number)
    }

    /// The write that removes this channel's attribute directory.
    pub fn unexport(&self) -> (w: SysfsWrite)
        ensures
            w.path@ == chip_file(self.chip.number, "unexport"@),
            w.contents@ == decimal_digits(self.number as nat),
    {
        self.chip.unexport(self.number)
    }

    /// The write that switches the signal on (`"1"`) or off (`"0"`).
    pub fn enable(&self, enable: bool) -> (w: SysfsWrite)
        ensures
            w.path@ == pwm_attr_path(self.chip.number, self.number, "enable"@),
            w.contents@ == (if enable {
                ascii_bytes("1"@)
            } else {
                ascii_bytes("0"@)
            }),
    {
        proof {
            reveal_strlit("0");
            reveal_strlit("1");
        }
        let contents = if enable {
            ascii_vec("1")
        } else {
            ascii_vec("0")
        };
        SysfsWrite { path: self.attr_path(PwmAttr::Enable), contents }
    }

    /// Decodes the `enable` attribute.  Contents other than `0` or `1`
    /// are reported as unexpected rather than treated as unreachable.
    pub fn enabled(&self, contents: &[u8]) -> (r: Result<bool, Error>)
        ensures
            match r {
                Ok(b) => enabled_spec(contents@) == Some(b),
                Err(e) => enabled_spec(contents@) is None && (e
                    matches Error::UnexpectedContents(c) && c@ == trimmed(contents@)),
            },
    {
        let t = trim(contents);
        match parse_u32_digits(t) {
            Some(n) => {
                if n == 1 {
                    Ok(true)
                } else if n == 0 {
                    Ok(false)
                } else {
                    Err(Error::UnexpectedContents(slice_to_vec(t)))
                }
            },
            None => Err(Error::UnexpectedContents(slice_to_vec(t))),
        }
    }

    /// Decodes the `duty_cycle` attribute: the active time in
    /// nanoseconds.
    pub fn duty_cycle_ns(&self, contents: &[u8]) -> (r: Result<u32, Error>)
        ensures
            match r {
                Ok(n) => parse_u32_spec(trimmed(contents@)) == Some(n),
                Err(e) => parse_u32_spec(trimmed(contents@)) is None && (e
                    matches Error::UnexpectedContents(c) && c@ == trimmed(contents@)),
            },
    {
        parse_decimal_attr(contents)
    }

    /// The write that sets the active time, in nanoseconds.  The kernel
    /// validates the value against the configured period.
    pub fn set_duty_cycle_ns(&self, duty_cycle_ns: u32) -> (w: SysfsWrite)
        ensures
            w.path@ == pwm_attr_path(self.chip.number, self.number, "duty_cycle"@),
            w.contents@ == decimal_digits(duty_cycle_ns as nat),
    {
        let mut contents: Vec<u8> = Vec::new();
        append_decimal(&mut contents, duty_cycle_ns as u64);
        proof {
            assert(contents@ =~= decimal_digits(duty_cycle_ns as nat));
        }
        SysfsWrite { path: self.attr_path(PwmAttr::DutyCycle), contents }
    }

    /// Decodes the `period` attribute: the signal period in nanoseconds.
    pub fn period_ns(&self, contents: &[u8]) -> (r: Result<u32, Error>)
        ensures
            match r {
                Ok(n) => parse_u32_spec(trimmed(contents@)) == Some(n),
                Err(e) => parse_u32_spec(trimmed(contents@)) is None && (e
                    matches Error::UnexpectedContents(c) && c@ == trimmed(contents@)),
            },
    {
        parse_decimal_attr(contents)
    }

    /// The write that sets the signal period, in nanoseconds.
    pub fn set_period_ns(&self, period_ns: u32) -> (w: SysfsWrite)
        ensures
            w.path@ == pwm_attr_path(self.chip.number, self.number, "period"@),
            w.contents@ == decimal_digits(period_ns as nat),
    {
        let mut contents: Vec<u8> = Vec::new();
        append_decimal(&mut contents, period_ns as u64);
        proof {
            assert(contents@ =~= decimal_digits(period_ns as nat));
        }
        SysfsWrite { path: self.attr_path(PwmAttr::Period), contents }
    }
}

/// Setting a decimal attribute and reading it back yields the value
/// again: the rendered digits of `n` decode to `n`.
pub proof fn lemma_decimal_attr_round_trip(n: u32)
    ensures
        parse_u32_spec(trimmed(decimal_digits(n as nat))) == Some(n),
{
    crate::sysfs::lemma_decimal_round_trip(n);
    lemma_digits_trim(decimal_digits(n as nat));
}

/// Digit strings carry no whitespace, so trimming leaves them as they
/// are.
proof fn lemma_digits_trim(t: Seq<u8>)
    requires
        t.len() > 0,
        crate::sysfs::all_digits(t),
    ensures
        trimmed(t) == t,
{
    assert(!crate::sysfs::is_space(t[0]));
    assert(!crate::sysfs::is_space(t.last()));
    assert(crate::sysfs::trim_front(t) == t);
    assert(crate::sysfs::trim_back(t) == t);
}

} // verus!
