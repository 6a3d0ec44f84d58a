//! The line-oriented ASCII protocol spoken over sysfs pseudo-files.
//!
//! Sysfs attributes hold short ASCII tokens or decimal numbers, usually
//! with a trailing newline.  This module gives that protocol a precise
//! model: building attribute paths and payloads as byte strings, rendering
//! numbers in decimal, and parsing attribute contents back (trimming
//! whitespace first, as the kernel gives no guarantee about a trailing
//! newline).

use vstd::prelude::*;
use vstd::string::StringSliceAdditionalSpecFns;

verus! {

/// One pending write to a sysfs pseudo-file: the absolute path of the
/// attribute and the exact bytes to store there.
///
/// The caller performs the write; nothing here touches the file system.
pub struct SysfsWrite {
    pub path: Vec<u8>,
    pub contents: Vec<u8>,
}

/// The bytes of an ASCII string, character by character.
pub open spec fn ascii_bytes(s: Seq<char>) -> Seq<u8> {
    s.map_values(|c: char| c as u8)
}

/// Appends the bytes of an ASCII string to a byte buffer.
pub fn append_ascii(out: &mut Vec<u8>, s: &str)
    requires
        s.is_ascii(),
    ensures
        final(out)@ == old(out)@ + ascii_bytes(s@),
{
    let b = s.as_bytes();
    proof {
        broadcast use vstd::string::is_ascii_spec_bytes;

        assert(b@ =~= ascii_bytes(s@));
    }
    let mut j: usize = 0;
    while j < b.len()
        invariant
            j <= b@.len(),
            b@ == ascii_bytes(s@),
            out@ == old(out)@ + b@.take(j as int),
        decreases b@.len() - j,
    {
        out.push(b[j]);
        proof {
            assert(b@.take(j as int) + seq![b@[j as int]] =~= b@.take(j as int + 1));
        }
        j += 1;
    }
    proof {
        assert(out@ =~= old(out)@ + ascii_bytes(s@));
    }
}

/// The bytes of an ASCII string as a fresh buffer.
pub fn ascii_vec(s: &str) -> (v: Vec<u8>)
    requires
        s.is_ascii(),
    ensures
        v@ == ascii_bytes(s@),
{
    let mut v: Vec<u8> = Vec::new();
    append_ascii(&mut v, s);
    proof {
        assert(v@ =~= ascii_bytes(s@));
    }
    v
}

/// The decimal rendering of a number: most significant digit first, no
/// sign, no leading zeros (a single `'0'` for zero).
pub open spec fn decimal_digits(n: nat) -> Seq<u8>
    decreases n,
{
    if n < 10 {
        seq![(0x30 + n) as u8]
    } else {
        decimal_digits(n / 10) + seq![(0x30 + n % 10) as u8]
    }
}

/// Appends the decimal rendering of `n` to a byte buffer.
pub fn append_decimal(out: &mut Vec<u8>, n: u64)
    ensures
        final(out)@ == old(out)@ + decimal_digits(n as nat),
{
    let mut digits: Vec<u8> = Vec::new();
    let mut m: u64 = n;
    while m >= 10
        invariant
            decimal_digits(n as nat) == decimal_digits(m as nat) + digits@,
        decreases m,
    {
        let ghost pre = digits@;
        let d: u8 = (m % 10) as u8 + 0x30;
        digits.insert(0, d);
        proof {
            assert(digits@ =~= seq![d] + pre);
        }
        m = m / 10;
    }
    let ghost pre = digits@;
    let d: u8 = m as u8 + 0x30;
    digits.insert(0, d);
    proof {
        assert(digits@ =~= seq![d] + pre);
    }
    out.append(&mut digits);
}

/// Whether every byte of `s` is an ASCII decimal digit.
pub open spec fn all_digits(s: Seq<u8>) -> bool {
    forall|k: int| 0 <= k < s.len() ==> 0x30 <= #[trigger] s[k] <= 0x39
}

/// The number a string of decimal digits denotes.
pub open spec fn decimal_value(s: Seq<u8>) -> int
    decreases s.len(),
{
    if s.len() == 0 {
        0
    } else {
        decimal_value(s.drop_last()) * 10 + s.last() - 0x30
    }
}

/// What parsing a decimal field yields: the denoted number, unless the
/// field is empty, holds a non-digit, or denotes more than `u32::MAX`.
pub open spec fn parse_u32_spec(s: Seq<u8>) -> Option<u32> {
    if s.len() > 0 && all_digits(s) && decimal_value(s) <= u32::MAX {
        Some(decimal_value(s) as u32)
    } else {
        None
    }
}

proof fn lemma_decimal_value_nonneg(s: Seq<u8>)
    requires
        all_digits(s),
    ensures
        decimal_value(s) >= 0,
    decreases s.len(),
{
    if s.len() > 0 {
        lemma_decimal_value_nonneg(s.drop_last());
    }
}

/// A digit string denotes at least as much as any of its prefixes.
proof fn lemma_decimal_value_prefix_le(s: Seq<u8>, i: int)
    requires
        all_digits(s),
        0 <= i <= s.len(),
    ensures
        decimal_value(s.take(i)) <= decimal_value(s),
    decreases s.len() - i,
{
    if i == s.len() {
        assert(s.take(i) =~= s);
    } else {
        assert(s.take(i + 1).drop_last() =~= s.take(i));
        assert(s.take(i + 1).last() == s[i]);
        lemma_decimal_value_nonneg(s.take(i));
        lemma_decimal_value_prefix_le(s, i + 1);
    }
}

/// Parses an unsigned decimal field: every byte must be a digit and the
/// value must fit in 32 bits.
pub fn parse_u32_digits(s: &[u8]) -> (r: Option<u32>)
    ensures
        r == parse_u32_spec(s@),
{
    if s.len() == 0 {
        return None;
    }
    let mut acc: u64 = 0;
    let mut i: usize = 0;
    while i < s.len()
        invariant
            0 < s@.len(),
            i <= s@.len(),
            all_digits(s@.take(i as int)),
            acc == decimal_value(s@.take(i as int)),
            acc <= 0xffff_ffffu64 * 10 + 9,
        decreases s@.len() - i,
    {
        let b = s[i];
        if b < 0x30 || b > 0x39 {
            proof {
                assert(!(0x30 <= s@[i as int] <= 0x39));
                assert(!all_digits(s@));
            }
            return None;
        }
        if acc > 0xffff_ffff {
            proof {
                if all_digits(s@) {
                    lemma_decimal_value_prefix_le(s@, i as int);
                }
            }
            return None;
        }
        proof {
            assert(s@.take(i as int + 1).drop_last() =~= s@.take(i as int));
            assert(s@.take(i as int + 1).last() == s@[i as int]);
        }
        acc = acc * 10 + ((b - 0x30) as u64);
        i += 1;
    }
    proof {
        assert(s@.take(s@.len() as int) =~= s@);
    }
    if acc > 0xffff_ffff {
        return None;
    }
    Some(acc as u32)
}

proof fn lemma_decimal_digits_value(n: nat)
    ensures
        decimal_digits(n).len() > 0,
        all_digits(decimal_digits(n)),
        decimal_value(decimal_digits(n)) == n,
    decreases n,
{
    if n < 10 {
        let s = decimal_digits(n);
        assert(s =~= seq![(0x30 + n) as u8]);
        assert(s.drop_last() =~= Seq::<u8>::empty());
        assert(decimal_value(Seq::<u8>::empty()) == 0);
        assert(decimal_value(s) == n);
    } else {
        lemma_decimal_digits_value(n / 10);
        let s = decimal_digits(n);
        assert(s.drop_last() =~= decimal_digits(n / 10));
        assert(s.last() == (0x30 + n % 10) as u8);
        assert(decimal_value(s) == (n / 10) * 10 + n % 10);
        assert(all_digits(s));
    }
}

/// Rendering a number in decimal and parsing the digits back yields the
/// number again.
pub proof fn lemma_decimal_round_trip(n: u32)
    ensures
        parse_u32_spec(decimal_digits(n as nat)) == Some(n),
{
    lemma_decimal_digits_value(n as nat);
}

/// Whether a byte is ASCII whitespace as sysfs produces it: space, tab,
/// line feed or carriage return.
pub open spec fn is_space(b: u8) -> bool {
    b == 0x20 || b == 0x09 || b == 0x0a || b == 0x0d
}

/// `s` with leading whitespace removed.
pub open spec fn trim_front(s: Seq<u8>) -> Seq<u8>
    decreases s.len(),
{
    if s.len() > 0 && is_space(s[0]) {
        trim_front(s.drop_first())
    } else {
        s
    }
}

/// `s` with trailing whitespace removed.
pub open spec fn trim_back(s: Seq<u8>) -> Seq<u8>
    decreases s.len(),
{
    if s.len() > 0 && is_space(s.last()) {
        trim_back(s.drop_last())
    } else {
        s
    }
}

/// `s` with whitespace removed from both ends.
pub open spec fn trimmed(s: Seq<u8>) -> Seq<u8> {
    trim_back(trim_front(s))
}

/// Removes leading and trailing ASCII whitespace from a byte slice.
pub fn trim(s: &[u8]) -> (r: &[u8])
    ensures
        r@ == trimmed(s@),
{
    proof {
        assert(s@.skip(0) =~= s@);
    }
    let mut i: usize = 0;
    while i < s.len() && (s[i] == 0x20 || s[i] == 0x09 || s[i] == 0x0a || s[i] == 0x0d)
        invariant
            i <= s@.len(),
            trim_front(s@) == trim_front(s@.skip(i as int)),
        decreases s@.len() - i,
    {
        proof {
            assert(s@.skip(i as int).drop_first() =~= s@.skip(i as int + 1));
        }
        i += 1;
    }
    proof {
        assert(trim_front(s@) == s@.skip(i as int));
    }
    proof {
        assert(s@.subrange(i as int, s@.len() as int) =~= s@.skip(i as int));
    }
    let mut j: usize = s.len();
    while j > i && (s[j - 1] == 0x20 || s[j - 1] == 0x09 || s[j - 1] == 0x0a || s[j - 1] == 0x0d)
        invariant
            i <= j <= s@.len(),
            trim_front(s@) == s@.skip(i as int),
            trim_back(s@.skip(i as int)) == trim_back(s@.subrange(i as int, j as int)),
        decreases j,
    {
        proof {
            assert(s@.subrange(i as int, j as int).drop_last() =~= s@.subrange(
                i as int,
                j as int - 1,
            ));
        }
        j -= 1;
    }
    proof {
        assert(trim_back(s@.subrange(i as int, j as int)) == s@.subrange(i as int, j as int));
    }
    &s[i..j]
}

/// Whether two byte slices hold the same bytes.
pub fn bytes_eq(a: &[u8], b: &[u8]) -> (r: bool)
    ensures
        r == (a@ == b@),
{
    if a.len() != b.len() {
        return false;
    }
    let mut i: usize = 0;
    while i < a.len()
        invariant
            i <= a@.len(),
            a@.len() == b@.len(),
            forall|k: int| 0 <= k < i ==> a@[k] == b@[k],
        decreases a@.len() - i,
    {
        if a[i] != b[i] {
            return false;
        }
        i += 1;
    }
    proof {
        assert(a@ =~= b@);
    }
    true
}

} // verus!
