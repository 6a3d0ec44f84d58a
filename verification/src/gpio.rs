//! GPIO lines driven through the sysfs tree.
//!
//! A pin is identified by its line number; all state lives kernel-side
//! under `/sys/class/gpio/gpioN/`.  This module encodes every attribute
//! write as a [`SysfsWrite`] (path plus exact payload token) and decodes
//! attribute contents back into typed values.  Opening and writing the
//! files themselves is the embedding application's job.

use crate::sysfs::ascii_bytes;
use crate::sysfs::ascii_vec;
use crate::sysfs::append_ascii;
use crate::sysfs::append_decimal;
use crate::sysfs::bytes_eq;
use crate::sysfs::decimal_digits;
use crate::sysfs::trim;
use crate::sysfs::trimmed;
use crate::sysfs::SysfsWrite;
use crate::Error;
use vstd::prelude::*;
use vstd::slice::slice_to_vec;

verus! {

/// Line direction.  `Low` and `High` configure the line as an output and
/// immediately drive it to that level; they are write-only settings, not
/// states distinct from `Out` when read back.
#[derive(Debug, Copy, Clone, PartialEq, Eq, Structural)]
pub enum Direction {
    In,
    Out,
    Low,
    High,
}

/// Binary line level, serialized as ASCII `"0"` / `"1"`.
#[derive(Debug, Copy, Clone, PartialEq, Eq, Structural)]
pub enum Value {
    Low,
    High,
}

/// Interrupt trigger policy for event-driven waits.
#[derive(Debug, Copy, Clone, PartialEq, Eq, Structural)]
pub enum Edge {
    Disabled,
    Rising,
    Falling,
    Both,
}

/// A GPIO line, identified by number.  The value is stateless: whether
/// the line is exported, and its settings, are kernel-side facts.
#[derive(Debug, Copy, Clone, PartialEq, Eq, Structural)]
pub struct Pin {
    pub num: usize,
}

/// The token written to or read from the `direction` attribute.
pub open spec fn direction_token(dir: Direction) -> Seq<u8> {
    match dir {
        Direction::In => ascii_bytes("in"@),
        Direction::Out => ascii_bytes("out"@),
        Direction::Low => ascii_bytes("low"@),
        Direction::High => ascii_bytes("high"@),
    }
}

/// The token written to or read from the `value` attribute.
pub open spec fn value_token(value: Value) -> Seq<u8> {
    match value {
        Value::Low => ascii_bytes("0"@),
        Value::High => ascii_bytes("1"@),
    }
}

/// The token written to or read from the `edge` attribute.
pub open spec fn edge_token(edge: Edge) -> Seq<u8> {
    match edge {
        Edge::Disabled => ascii_bytes("none"@),
        Edge::Rising => ascii_bytes("rising"@),
        Edge::Falling => ascii_bytes("falling"@),
        Edge::Both => ascii_bytes("both"@),
    }
}

/// The token written to or read from the `active_low` attribute.
pub open spec fn active_low_token(active_low: bool) -> Seq<u8> {
    if active_low {
        ascii_bytes("1"@)
    } else {
        ascii_bytes("0"@)
    }
}

/// What parsing a `direction` attribute yields, after trimming.
pub open spec fn parse_direction_spec(s: Seq<u8>) -> Option<Direction> {
    let t = trimmed(s);
    if t == direction_token(Direction::In) {
        Some(Direction::In)
    } else if t == direction_token(Direction::Out) {
        Some(Direction::Out)
    } else if t == direction_token(Direction::High) {
        Some(Direction::High)
    } else if t == direction_token(Direction::Low) {
        Some(Direction::Low)
    } else {
        None
    }
}

/// What parsing a `value` attribute yields, after trimming.
pub open spec fn parse_value_spec(s: Seq<u8>) -> Option<Value> {
    let t = trimmed(s);
    if t == value_token(Value::High) {
        Some(Value::High)
    } else if t == value_token(Value::Low) {
        Some(Value::Low)
    } else {
        None
    }
}

/// What parsing an `edge` attribute yields, after trimming.
pub open spec fn parse_edge_spec(s: Seq<u8>) -> Option<Edge> {
    let t = trimmed(s);
    if t == edge_token(Edge::Disabled) {
        Some(Edge::Disabled)
    } else if t == edge_token(Edge::Rising) {
        Some(Edge::Rising)
    } else if t == edge_token(Edge::Falling) {
        Some(Edge::Falling)
    } else if t == edge_token(Edge::Both) {
        Some(Edge::Both)
    } else {
        None
    }
}

/// What parsing an `active_low` attribute yields, after trimming.
pub open spec fn parse_active_low_spec(s: Seq<u8>) -> Option<bool> {
    let t = trimmed(s);
    if t == active_low_token(true) {
        Some(true)
    } else if t == active_low_token(false) {
        Some(false)
    } else {
        None
    }
}

/// The attributes of an exported GPIO line.
#[derive(Debug, Copy, Clone, PartialEq, Eq, Structural)]
pub enum GpioAttr {
    Direction,
    Value,
    Edge,
    ActiveLow,
}

/// The file name of a GPIO attribute.
pub open spec fn attr_name(attr: GpioAttr) -> Seq<char> {
    match attr {
        GpioAttr::Direction => "direction"@,
        GpioAttr::Value => "value"@,
        GpioAttr::Edge => "edge"@,
        GpioAttr::ActiveLow => "active_low"@,
    }
}

/// The absolute path of an attribute of line `num`:
/// `/sys/class/gpio/gpioN/<attr>`.
pub open spec fn gpio_attr_path(num: usize, attr: Seq<char>) -> Seq<u8> {
    ascii_bytes("/sys/class/gpio/gpio"@) + decimal_digits(num as nat) + ascii_bytes("/"@)
        + ascii_bytes(attr)
}

fn attr_file(num: usize, attr: &str) -> (v: Vec<u8>)
    requires
        attr.is_ascii(),
    ensures
        v@ == gpio_attr_path(num, attr@),
{
    proof {
        reveal_strlit("/sys/class/gpio/gpio");
        reveal_strlit("/");
    }
    let mut v = ascii_vec("/sys/class/gpio/gpio");
    append_decimal(&mut v, num as u64);
    append_ascii(&mut v, "/");
    append_ascii(&mut v, attr);
    proof {
        assert(v@ =~= gpio_attr_path(num, attr@));
    }
    v
}

impl Direction {
    /// The ASCII token for this direction.
    pub fn token(self) -> (v: Vec<u8>)
        ensures
            v@ == direction_token(self),
    {
        proof {
            reveal_strlit("in");
            reveal_strlit("out");
            reveal_strlit("low");
            reveal_strlit("high");
        }
        match self {
            Direction::In => ascii_vec("in"),
            Direction::Out => ascii_vec("out"),
            Direction::Low => ascii_vec("low"),
            Direction::High => ascii_vec("high"),
        }
    }
}

impl Value {
    /// The ASCII token for this level.
    pub fn token(self) -> (v: Vec<u8>)
        ensures
            v@ == value_token(self),
    {
        proof {
            reveal_strlit("0");
            reveal_strlit("1");
        }
        match self {
            Value::Low => ascii_vec("0"),
            Value::High => ascii_vec("1"),
        }
    }
}

impl Edge {
    /// The ASCII token for this trigger policy.
    pub fn token(self) -> (v: Vec<u8>)
        ensures
            v@ == edge_token(self),
    {
        proof {
            reveal_strlit("none");
            reveal_strlit("rising");
            reveal_strlit("falling");
            reveal_strlit("both");
        }
        match self {
            Edge::Disabled => ascii_vec("none"),
            Edge::Rising => ascii_vec("rising"),
            Edge::Falling => ascii_vec("falling"),
            Edge::Both => ascii_vec("both"),
        }
    }
}

/// Decodes a `direction` attribute; unrecognized contents are reported
/// with the offending (trimmed) bytes.
pub fn parse_direction(s: &[u8]) -> (r: Result<Direction, Error>)
    ensures
        match r {
            Ok(dir) => parse_direction_spec(s@) == Some(dir),
            Err(e) => parse_direction_spec(s@) is None && (e matches Error::UnexpectedContents(c)
                && c@ == trimmed(s@)),
        },
{
    proof {
        reveal_strlit("in");
        reveal_strlit("out");
        reveal_strlit("low");
        reveal_strlit("high");
    }
    let t = trim(s);
    if bytes_eq(t, ascii_vec("in").as_slice()) {
        Ok(Direction::In)
    } else if bytes_eq(t, ascii_vec("out").as_slice()) {
        Ok(Direction::Out)
    } else if bytes_eq(t, ascii_vec("high").as_slice()) {
        Ok(Direction::High)
    } else if bytes_eq(t, ascii_vec("low").as_slice()) {
        Ok(Direction::Low)
    } else {
        Err(Error::UnexpectedContents(slice_to_vec(t)))
    }
}

/// Decodes a `value` attribute.
pub fn parse_value(s: &[u8]) -> (r: Result<Value, Error>)
    ensures
        match r {
            Ok(value) => parse_value_spec(s@) == Some(value),
            Err(e) => parse_value_spec(s@) is None && (e matches Error::UnexpectedContents(c)
                && c@ == trimmed(s@)),
        },
{
    proof {
        reveal_strlit("0");
        reveal_strlit("1");
    }
    let t = trim(s);
    if bytes_eq(t, ascii_vec("1").as_slice()) {
        Ok(Value::High)
    } else if bytes_eq(t, ascii_vec("0").as_slice()) {
        Ok(Value::Low)
    } else {
        Err(Error::UnexpectedContents(slice_to_vec(t)))
    }
}

/// Decodes an `edge` attribute.
pub fn parse_edge(s: &[u8]) -> (r: Result<Edge, Error>)
    ensures
        match r {
            Ok(edge) => parse_edge_spec(s@) == Some(edge),
            Err(e) => parse_edge_spec(s@) is None && (e matches Error::UnexpectedContents(c)
                && c@ == trimmed(s@)),
        },
{
    proof {
        reveal_strlit("none");
        reveal_strlit("rising");
        reveal_strlit("falling");
        reveal_strlit("both");
    }
    let t = trim(s);
    if bytes_eq(t, ascii_vec("none").as_slice()) {
        Ok(Edge::Disabled)
    } else if bytes_eq(t, ascii_vec("rising").as_slice()) {
        Ok(Edge::Rising)
    } else if bytes_eq(t, ascii_vec("falling").as_slice()) {
        Ok(Edge::Falling)
    } else if bytes_eq(t, ascii_vec("both").as_slice()) {
        Ok(Edge::Both)
    } else {
        Err(Error::UnexpectedContents(slice_to_vec(t)))
    }
}

/// Decodes an `active_low` attribute.
pub fn parse_active_low(s: &[u8]) -> (r: Result<bool, Error>)
    ensures
        match r {
            Ok(active_low) => parse_active_low_spec(s@) == Some(active_low),
            Err(e) => parse_active_low_spec(s@) is None && (e matches Error::UnexpectedContents(c)
                && c@ == trimmed(s@)),
        },
{
    proof {
        reveal_strlit("0");
        reveal_strlit("1");
    }
    let t = trim(s);
    if bytes_eq(t, ascii_vec("1").as_slice()) {
        Ok(true)
    } else if bytes_eq(t, ascii_vec("0").as_slice()) {
        Ok(false)
    } else {
        Err(Error::UnexpectedContents(slice_to_vec(t)))
    }
}

/// A sysfs directory name with every leading `gpio` prefix removed,
/// leaving what should be the decimal pin number.
pub open spec fn strip_gpio_prefix(s: Seq<u8>) -> Seq<u8>
    decreases s.len(),
{
    if s.len() >= 4 && s.take(4) == ascii_bytes("gpio"@) {
        strip_gpio_prefix(s.skip(4))
    } else {
        s
    }
}

/// What parsing a `gpioN` directory name yields: the decimal number
/// after the `gpio` prefix, or nothing when no number follows.
pub open spec fn parse_pin_name_spec(s: Seq<u8>) -> Option<u32> {
    crate::sysfs::parse_u32_spec(strip_gpio_prefix(s))
}

/// Recovers a pin from the name of its sysfs directory (`gpio17`), as
/// handed back by resolving a user-supplied path.
pub fn parse_pin_name(name: &[u8]) -> (r: Option<Pin>)
    ensures
        match r {
            Some(pin) => parse_pin_name_spec(name@) == Some(pin.num as u32),
            None => parse_pin_name_spec(name@) is None,
        },
{
    proof {
        reveal_strlit("gpio");
        assert(name@.skip(0) =~= name@);
    }
    let prefix = ascii_vec("gpio");
    let mut i: usize = 0;
    while name.len() - i >= 4 && bytes_eq(&name[i..i + 4], prefix.as_slice())
        invariant
            i <= name@.len(),
            prefix@ == ascii_bytes("gpio"@),
            strip_gpio_prefix(name@) == strip_gpio_prefix(name@.skip(i as int)),
        decreases name@.len() - i,
    {
        proof {
            assert(name@.skip(i as int).take(4) =~= name@.subrange(i as int, i as int + 4));
            assert(name@.skip(i as int).skip(4) =~= name@.skip(i as int + 4));
        }
        i += 4;
    }
    proof {
        if i + 4 <= name@.len() {
            assert(name@.skip(i as int).take(4) =~= name@.subrange(i as int, i as int + 4));
        }
        assert(strip_gpio_prefix(name@.skip(i as int)) == name@.skip(i as int));
        assert(name@.subrange(i as int, name@.len() as int) =~= name@.skip(i as int));
    }
    let digits = &name[i..name.len()];
    match crate::sysfs::parse_u32_digits(digits) {
        Some(n) => Some(Pin { num: n as usize }),
        None => None,
    }
}

impl Pin {
    /// A handle for GPIO line `num`.  Does not export the line.
    pub fn new(num: usize) -> (pin: Pin)
        ensures
            pin.num == num,
    {
        Pin { num }
    }

    /// The absolute path of one of this line's attribute files.
    pub fn attr_path(&self, attr: GpioAttr) -> (v: Vec<u8>)
        ensures
            v@ == gpio_attr_path(self.num, attr_name(attr)),
    {
        proof {
            reveal_strlit("direction");
            reveal_strlit("value");
            reveal_strlit("edge");
            reveal_strlit("active_low");
        }
        match attr {
            GpioAttr::Direction => attr_file(self.num, "direction"),
            GpioAttr::Value => attr_file(self.num, "value"),
            GpioAttr::Edge => attr_file(self.num, "edge"),
            GpioAttr::ActiveLow => attr_file(self.num, "active_low"),
        }
    }

    /// The write that registers this line with the kernel:
    /// its number, in decimal, into `/sys/class/gpio/export`.
    pub fn export(&self) -> (w: SysfsWrite)
        ensures
            w.path@ == ascii_bytes("/sys/class/gpio/export"@),
            w.contents@ == decimal_digits(self.num as nat),
    {
        proof {
            reveal_strlit("/sys/class/gpio/export");
        }
        let mut contents: Vec<u8> = Vec::new();
        append_decimal(&mut contents, self.num as u64);
        proof {
            assert(contents@ =~= decimal_digits(self.num as nat));
        }
        SysfsWrite { path: ascii_vec("/sys/class/gpio/export"), contents }
    }

    /// The write that removes this line's attribute directory:
    /// its number, in decimal, into `/sys/class/gpio/unexport`.
    pub fn unexport(&self) -> (w: SysfsWrite)
        ensures
            w.path@ == ascii_bytes("/sys/class/gpio/unexport"@),
            w.contents@ == decimal_digits(self.num as nat),
    {
        proof {
            reveal_strlit("/sys/class/gpio/unexport");
        }
        let mut contents: Vec<u8> = Vec::new();
        append_decimal(&mut contents, self.num as u64);
        proof {
            assert(contents@ =~= decimal_digits(self.num as nat));
        }
        SysfsWrite { path: ascii_vec("/sys/class/gpio/unexport"), contents }
    }

    /// The write that configures this line's direction.
    pub fn set_direction(&self, dir: Direction) -> (w: SysfsWrite)
        ensures
            w.path@ == gpio_attr_path(self.num, attr_name(GpioAttr::Direction)),
            w.contents@ == direction_token(dir),
    {
        SysfsWrite { path: self.attr_path(GpioAttr::Direction), contents: dir.token() }
    }

    /// The write that drives this line's level.
    pub fn set_value(&self, value: Value) -> (w: SysfsWrite)
        ensures
            w.path@ == gpio_attr_path(self.num, attr_name(GpioAttr::Value)),
            w.contents@ == value_token(value),
    {
        SysfsWrite { path: self.attr_path(GpioAttr::Value), contents: value.token() }
    }

    /// The write that selects this line's interrupt trigger policy.
    pub fn set_edge(&self, edge: Edge) -> (w: SysfsWrite)
        ensures
            w.path@ == gpio_attr_path(self.num, attr_name(GpioAttr::Edge)),
            w.contents@ == edge_token(edge),
    {
        SysfsWrite { path: self.attr_path(GpioAttr::Edge), contents: edge.token() }
    }

    /// The write that inverts (or restores) this line's polarity.
    pub fn set_active_low(&self, active_low: bool) -> (w: SysfsWrite)
        ensures
            w.path@ == gpio_attr_path(self.num, attr_name(GpioAttr::ActiveLow)),
            w.contents@ == active_low_token(active_low),
    {
        proof {
            reveal_strlit("0");
            reveal_strlit("1");
        }
        let contents = if active_low {
            ascii_vec("1")
        } else {
            ascii_vec("0")
        };
        SysfsWrite { path: self.attr_path(GpioAttr::ActiveLow), contents }
    }
}

/// Writing a direction token and reading it back yields the direction
/// again.
pub proof fn lemma_direction_round_trip(dir: Direction)
    ensures
        parse_direction_spec(direction_token(dir)) == Some(dir),
{
    reveal_strlit("in");
    reveal_strlit("out");
    reveal_strlit("low");
    reveal_strlit("high");
    lemma_token_trim(direction_token(dir));
    assert(direction_token(Direction::Low)[0] != direction_token(Direction::Out)[0]);
}

/// Writing a value token and reading it back yields the level again.
pub proof fn lemma_value_round_trip(value: Value)
    ensures
        parse_value_spec(value_token(value)) == Some(value),
{
    reveal_strlit("0");
    reveal_strlit("1");
    lemma_token_trim(value_token(value));
    assert(value_token(Value::Low)[0] != value_token(Value::High)[0]);
}

/// Writing an edge token and reading it back yields the policy again.
pub proof fn lemma_edge_round_trip(edge: Edge)
    ensures
        parse_edge_spec(edge_token(edge)) == Some(edge),
{
    reveal_strlit("none");
    reveal_strlit("rising");
    reveal_strlit("falling");
    reveal_strlit("both");
    lemma_token_trim(edge_token(edge));
    assert(edge_token(Edge::Both)[0] != edge_token(Edge::Disabled)[0]);
}

/// Writing an active-low token and reading it back yields the flag again.
pub proof fn lemma_active_low_round_trip(active_low: bool)
    ensures
        parse_active_low_spec(active_low_token(active_low)) == Some(active_low),
{
    reveal_strlit("0");
    reveal_strlit("1");
    lemma_token_trim(active_low_token(active_low));
    assert(active_low_token(false)[0] != active_low_token(true)[0]);
}

/// Attribute tokens carry no whitespace, so trimming leaves them as they
/// are.
proof fn lemma_token_trim(t: Seq<u8>)
    requires
        t.len() > 0,
        !crate::sysfs::is_space(t[0]),
        !crate::sysfs::is_space(t.last()),
    ensures
        trimmed(t) == t,
{
    assert(crate::sysfs::trim_front(t) == t);
    assert(crate::sysfs::trim_back(t) == t);
}

} // verus!
