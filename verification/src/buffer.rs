use bytes::Buf;
use bytes::Bytes;
use vstd::prelude::*;
use vstd::slice::slice_subrange;

verus! {

/// `bytes::Bytes`: a handle onto a range of bytes in shared storage. Its
/// inside is not looked at; what it exposes goes by `bytes_seq`.
#[verifier::external_type_specification]
#[verifier::external_body]
pub struct ExBytes(Bytes);

/// The bytes that a `Bytes` handle currently exposes, in order.
pub uninterp spec fn bytes_seq(b: Bytes) -> Seq<u8>;

/// `Bytes::len`: the number of bytes the handle exposes.
#[verifier::external_body]
pub(crate) fn bytes_len(b: &Bytes) -> (n: usize)
    ensures
        n == bytes_seq(*b).len(),
{
    b.len()
}

/// `Bytes::slice` on a half-open range: a second handle onto the same
/// storage that exposes exactly the bytes from `start` up to `end`. The
/// outside function panics when the range does not lie inside the handle,
/// which the precondition rules out.
#[verifier::external_body]
pub(crate) fn bytes_slice(b: &Bytes, start: usize, end: usize) -> (r: Bytes)
    requires
        start <= end <= bytes_seq(*b).len(),
    ensures
        bytes_seq(r) == bytes_seq(*b).subrange(start as int, end as int),
{
    b.slice(start..end)
}

/// `AsRef<[u8]>::as_ref` of `Bytes`: the exposed bytes as a slice.
#[verifier::external_body]
pub(crate) fn bytes_as_slice(b: &Bytes) -> (s: &[u8])
    ensures
        s@ == bytes_seq(*b),
{
    b.as_ref()
}

/// `Buf::get_u16` of `Bytes`: reads the first two bytes as a big-endian
/// number and moves the handle's start past them. The outside function
/// panics on fewer than two bytes, which the precondition rules out.
#[verifier::external_body]
pub(crate) fn bytes_get_u16(b: &mut Bytes) -> (r: u16)
    requires
        bytes_seq(*old(b)).len() >= 2,
    ensures
        r == be_u16(bytes_seq(*old(b)).subrange(0, 2)),
        bytes_seq(*final(b)) == bytes_seq(*old(b)).skip(2),
{
    b.get_u16()
}

/// `Buf::get_u32` of `Bytes`: reads the first four bytes as a big-endian
/// number and moves the handle's start past them. The outside function
/// panics on fewer than four bytes, which the precondition rules out.
#[verifier::external_body]
pub(crate) fn bytes_get_u32(b: &mut Bytes) -> (r: u32)
    requires
        bytes_seq(*old(b)).len() >= 4,
    ensures
        r == be_u32(bytes_seq(*old(b)).subrange(0, 4)),
        bytes_seq(*final(b)) == bytes_seq(*old(b)).skip(4),
{
    b.get_u32()
}

/// A byte buffer that the fixed-layout views can be laid over.
pub trait ByteBuf {
    /// The bytes of the buffer.
    spec fn bytes(&self) -> Seq<u8>;

    /// The bytes of the buffer as a slice.
    fn as_slice(&self) -> (s: &[u8])
        ensures
            s@ == self.bytes(),
    ;
}

impl ByteBuf for Bytes {
    open spec fn bytes(&self) -> Seq<u8> {
        bytes_seq(*self)
    }

    fn as_slice(&self) -> (s: &[u8]) {
        bytes_as_slice(self)
    }
}

impl<'a> ByteBuf for &'a [u8] {
    open spec fn bytes(&self) -> Seq<u8> {
        (*self)@
    }

    fn as_slice(&self) -> (s: &[u8]) {
        *self
    }
}

impl ByteBuf for Vec<u8> {
    open spec fn bytes(&self) -> Seq<u8> {
        self@
    }

    fn as_slice(&self) -> (s: &[u8]) {
        Vec::as_slice(self)
    }
}

/// The number that two bytes spell, most significant byte first.
pub open spec fn be_u16(s: Seq<u8>) -> u16
    recommends
        s.len() == 2,
{
    (s[0] as int * 0x100 + s[1] as int) as u16
}

/// The number that four bytes spell, most significant byte first.
pub open spec fn be_u32(s: Seq<u8>) -> u32
    recommends
        s.len() == 4,
{
    (s[0] as int * 0x100_0000 + s[1] as int * 0x1_0000 + s[2] as int * 0x100 + s[3] as int) as u32
}

/// The number that eight bytes spell, most significant byte first.
pub open spec fn be_u64(s: Seq<u8>) -> u64
    recommends
        s.len() == 8,
{
    (be_u32(s.subrange(0, 4)) as int * 0x1_0000_0000 + be_u32(s.subrange(4, 8)) as int) as u64
}

/// The two's-complement number that two bytes spell, most significant byte
/// first.
pub open spec fn be_i16(s: Seq<u8>) -> i16
    recommends
        s.len() == 2,
{
    if be_u16(s) >= 0x8000 {
        (be_u16(s) as int - 0x1_0000) as i16
    } else {
        be_u16(s) as i16
    }
}

/// Reads the big-endian `u16` at `at`.
pub fn read_be_u16(buf: &[u8], at: usize) -> (r: u16)
    requires
        at + 2 <= buf@.len(),
    ensures
        r == be_u16(buf@.subrange(at as int, at + 2)),
{
    let hi: u16 = buf[at] as u16;
    let lo: u16 = buf[at + 1] as u16;
    hi * 0x100 + lo
}

/// Reads the big-endian two's-complement `i16` at `at`.
pub fn read_be_i16(buf: &[u8], at: usize) -> (r: i16)
    requires
        at + 2 <= buf@.len(),
    ensures
        r == be_i16(buf@.subrange(at as int, at + 2)),
{
    let u: u16 = read_be_u16(buf, at);
    if u >= 0x8000 {
        let wide: i32 = u as i32 - 0x1_0000;
        wide as i16
    } else {
        u as i16
    }
}

/// Reads the big-endian `u32` at `at`.
pub fn read_be_u32(buf: &[u8], at: usize) -> (r: u32)
    requires
        at + 4 <= buf@.len(),
    ensures
        r == be_u32(buf@.subrange(at as int, at + 4)),
{
    let b0: u32 = buf[at] as u32;
    let b1: u32 = buf[at + 1] as u32;
    let b2: u32 = buf[at + 2] as u32;
    let b3: u32 = buf[at + 3] as u32;
    b0 * 0x100_0000 + b1 * 0x1_0000 + b2 * 0x100 + b3
}

/// Reads the big-endian `u64` at `at`.
pub fn read_be_u64(buf: &[u8], at: usize) -> (r: u64)
    requires
        at + 8 <= buf@.len(),
    ensures
        r == be_u64(buf@.subrange(at as int, at + 8)),
{
    let n: usize = buf.len();
    assert(at + 8 <= n);
    let hi: u64 = read_be_u32(buf, at) as u64;
    let lo: u64 = read_be_u32(buf, at + 4) as u64;
    proof {
        let s = buf@.subrange(at as int, at + 8);
        assert(s.subrange(0, 4) =~= buf@.subrange(at as int, at + 4));
        assert(s.subrange(4, 8) =~= buf@.subrange(at + 4, at + 8));
    }
    hi * 0x1_0000_0000 + lo
}

/// The part of `buf` from `start` up to `end`.
pub fn sub_slice<'a>(buf: &'a [u8], start: usize, end: usize) -> (r: &'a [u8])
    requires
        start <= end <= buf@.len(),
    ensures
        r@ == buf@.subrange(start as int, end as int),
{
    slice_subrange(buf, start, end)
}

} // verus!
