//! Ioctl request-code construction.
//!
//! A Linux ioctl request code packs four fields into one integer at fixed
//! bit offsets: a 2-bit transfer direction, a 14-bit payload size, an
//! 8-bit type tag (the "magic" identifying a device-class protocol) and an
//! 8-bit operation number.  The layout is fixed by the kernel ABI and must
//! be reproduced bit for bit: a misencoded code addresses a different
//! kernel handler.  Each field is masked to its width before shifting, so
//! an out-of-range argument can never spill into a neighboring field.
//!
//! Request codes are modeled as `u64` (the widest integer a C library uses
//! for them); the embedding application narrows at the one point where the
//! system call is issued.

use vstd::prelude::*;

verus! {

/// Direction field: no data transferred.
pub const DIR_NONE: u64 = 0;

/// Direction field: the kernel reads the payload from user space.
pub const DIR_WRITE: u64 = 1;

/// Direction field: the kernel writes the payload to user space.
pub const DIR_READ: u64 = 2;

/// Width masks of the four fields.
pub const NR_MASK: u64 = 0xff;

pub const TYPE_MASK: u64 = 0xff;

pub const SIZE_MASK: u64 = 0x3fff;

pub const DIR_MASK: u64 = 0x3;

/// Bit offsets of the four fields: number, type, size, direction, least
/// significant first.
pub const NR_SHIFT: u64 = 0;

pub const TYPE_SHIFT: u64 = 8;

pub const SIZE_SHIFT: u64 = 16;

pub const DIR_SHIFT: u64 = 30;

/// The packed request code: each field masked to its width, then shifted
/// to its offset.
pub open spec fn request_code(dir: u64, ty: u64, nr: u64, size: u64) -> u64 {
    ((dir & DIR_MASK) << DIR_SHIFT) | ((size & SIZE_MASK) << SIZE_SHIFT) | ((ty & TYPE_MASK)
        << TYPE_SHIFT) | ((nr & NR_MASK) << NR_SHIFT)
}

/// The direction field of a packed request code.
pub open spec fn code_dir(code: u64) -> u64 {
    (code >> DIR_SHIFT) & DIR_MASK
}

/// The type field of a packed request code.
pub open spec fn code_type(code: u64) -> u64 {
    (code >> TYPE_SHIFT) & TYPE_MASK
}

/// The operation-number field of a packed request code.
pub open spec fn code_nr(code: u64) -> u64 {
    (code >> NR_SHIFT) & NR_MASK
}

/// The payload-size field of a packed request code.
pub open spec fn code_size(code: u64) -> u64 {
    (code >> SIZE_SHIFT) & SIZE_MASK
}

/// Packs direction, type, operation number and payload size into one
/// request code.
pub fn ioc(dir: u64, ty: u64, nr: u64, size: u64) -> (code: u64)
    ensures
        code == request_code(dir, ty, nr, size),
{
    ((dir & DIR_MASK) << DIR_SHIFT) | ((size & SIZE_MASK) << SIZE_SHIFT) | ((ty & TYPE_MASK)
        << TYPE_SHIFT) | ((nr & NR_MASK) << NR_SHIFT)
}

/// A request code for a call that carries no payload.
pub fn request_code_none(ty: u8, nr: u8) -> (code: u64)
    ensures
        code == request_code(DIR_NONE, ty as u64, nr as u64, 0),
{
    ioc(DIR_NONE, ty as u64, nr as u64, 0)
}

/// A request code for a call whose payload the kernel fills in.
pub fn request_code_read(ty: u8, nr: u8, size: usize) -> (code: u64)
    ensures
        code == request_code(DIR_READ, ty as u64, nr as u64, size as u64),
{
    ioc(DIR_READ, ty as u64, nr as u64, size as u64)
}

/// A request code for a call whose payload the kernel consumes.
pub fn request_code_write(ty: u8, nr: u8, size: usize) -> (code: u64)
    ensures
        code == request_code(DIR_WRITE, ty as u64, nr as u64, size as u64),
{
    ioc(DIR_WRITE, ty as u64, nr as u64, size as u64)
}

/// A request code for a call whose payload travels in both directions.
pub fn request_code_readwrite(ty: u8, nr: u8, size: usize) -> (code: u64)
    ensures
        code == request_code(DIR_READ | DIR_WRITE, ty as u64, nr as u64, size as u64),
{
    ioc(DIR_READ | DIR_WRITE, ty as u64, nr as u64, size as u64)
}

/// The direction field of a request code.
pub fn decode_dir(code: u64) -> (dir: u64)
    ensures
        dir == code_dir(code),
{
    (code >> DIR_SHIFT) & DIR_MASK
}

/// The type field of a request code.
pub fn decode_type(code: u64) -> (ty: u64)
    ensures
        ty == code_type(code),
{
    (code >> TYPE_SHIFT) & TYPE_MASK
}

/// The operation-number field of a request code.
pub fn decode_nr(code: u64) -> (nr: u64)
    ensures
        nr == code_nr(code),
{
    (code >> NR_SHIFT) & NR_MASK
}

/// The payload-size field of a request code.
pub fn decode_size(code: u64) -> (size: u64)
    ensures
        size == code_size(code),
{
    (code >> SIZE_SHIFT) & SIZE_MASK
}

/// Packing is lossless: every in-range direction, type, number and size
/// comes back unchanged when its field is extracted from the packed code.
pub proof fn lemma_request_code_round_trip(dir: u64, ty: u64, nr: u64, size: u64)
    requires
        dir < 4,
        ty < 0x100,
        nr < 0x100,
        size < 0x4000,
    ensures
        code_dir(request_code(dir, ty, nr, size)) == dir,
        code_type(request_code(dir, ty, nr, size)) == ty,
        code_nr(request_code(dir, ty, nr, size)) == nr,
        code_size(request_code(dir, ty, nr, size)) == size,
{
    assert((((dir & 0x3) << 30) | ((size & 0x3fff) << 16) | ((ty & 0xff) << 8) | ((nr & 0xff)
        << 0)) >> 30 & 0x3 == dir) by (bit_vector)
        requires
            dir < 4,
    ;
    assert((((dir & 0x3) << 30) | ((size & 0x3fff) << 16) | ((ty & 0xff) << 8) | ((nr & 0xff)
        << 0)) >> 8 & 0xff == ty) by (bit_vector)
        requires
            ty < 0x100,
    ;
    assert((((dir & 0x3) << 30) | ((size & 0x3fff) << 16) | ((ty & 0xff) << 8) | ((nr & 0xff)
        << 0)) >> 0 & 0xff == nr) by (bit_vector)
        requires
            nr < 0x100,
    ;
    assert((((dir & 0x3) << 30) | ((size & 0x3fff) << 16) | ((ty & 0xff) << 8) | ((nr & 0xff)
        << 0)) >> 16 & 0x3fff == size) by (bit_vector)
        requires
            size < 0x4000,
    ;
}

/// One prepared device-control call: the packed request code and its
/// scalar argument.  The embedding application issues the system call.
#[derive(Debug, Copy, Clone, PartialEq, Eq, Structural)]
pub struct IoctlCall {
    pub req: u64,
    pub arg: u64,
}

} // verus!
