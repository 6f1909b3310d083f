//! Byte order and the fixed-width integers of the Wayland wire format.
//!
//! The Wayland wire format uses the byte order of the host. The host's
//! byte order is a property of the machine, so every function here takes it
//! as an argument ([`Endian`]); the reading and writing itself is done by
//! the `byteorder` crate.

use byteorder::ByteOrder;
use vstd::prelude::*;

verus! {

/// The order in which the bytes of a 32-bit integer are laid out.
#[derive(Clone, Copy, Debug, PartialEq, Eq, Structural)]
pub enum Endian {
    Little,
    Big,
}

/// The little-endian bytes of `n`.
pub open spec fn le_bytes(n: u32) -> Seq<u8> {
    seq![
        (n % 256) as u8,
        ((n / 256) % 256) as u8,
        ((n / 65536) % 256) as u8,
        ((n / 16777216) % 256) as u8,
    ]
}

/// The bytes of `n` in the given order.
pub open spec fn u32_bytes(order: Endian, n: u32) -> Seq<u8> {
    let b = le_bytes(n);
    match order {
        Endian::Little => b,
        Endian::Big => seq![b[3], b[2], b[1], b[0]],
    }
}

/// The value of the first four bytes of `s`, read in the given order.
pub open spec fn u32_value(order: Endian, s: Seq<u8>) -> u32 {
    match order {
        Endian::Little => (s[0] + 256 * s[1] + 65536 * s[2] + 16777216 * s[3]) as u32,
        Endian::Big => (s[3] + 256 * s[2] + 65536 * s[1] + 16777216 * s[0]) as u32,
    }
}

/// The two's-complement bit pattern of `v`.
pub open spec fn i32_bits(v: i32) -> u32 {
    if v >= 0 { v as u32 } else { (v + 0x1_0000_0000) as u32 }
}

/// The signed value whose two's-complement bit pattern is `u`.
pub open spec fn i32_from_bits(u: u32) -> i32 {
    if u < 0x8000_0000 { u as i32 } else { (u - 0x1_0000_0000) as i32 }
}

/// The bytes of the signed integer `v` in the given order.
pub open spec fn i32_bytes(order: Endian, v: i32) -> Seq<u8> {
    u32_bytes(order, i32_bits(v))
}

/// The signed value of the first four bytes of `s`, read in the given order.
pub open spec fn i32_value(order: Endian, s: Seq<u8>) -> i32 {
    i32_from_bits(u32_value(order, s))
}

/// `s` with the bytes from `at` on replaced by `t`.
pub open spec fn splice(s: Seq<u8>, at: int, t: Seq<u8>) -> Seq<u8> {
    s.subrange(0, at) + t + s.subrange(at + t.len(), s.len() as int)
}

/// Reading back the bytes of `n` gives `n`, in either order.
pub proof fn lemma_u32_roundtrip(order: Endian, n: u32)
    ensures
        u32_bytes(order, n).len() == 4,
        u32_value(order, u32_bytes(order, n)) == n,
{
    let b = le_bytes(n);
    assert(b[0] + 256 * b[1] + 65536 * b[2] + 16777216 * b[3] == n) by {
        assert(n == (n % 256) + 256 * ((n / 256) % 256) + 65536 * ((n / 65536) % 256)
            + 16777216 * ((n / 16777216) % 256)) by (nonlinear_arith);
    }
}

/// Reading back the bytes of the signed `v` gives `v`, in either order.
pub proof fn lemma_i32_roundtrip(order: Endian, v: i32)
    ensures
        i32_bytes(order, v).len() == 4,
        i32_value(order, i32_bytes(order, v)) == v,
{
    lemma_u32_roundtrip(order, i32_bits(v));
}

/// Writing back the value of four bytes gives those bytes, in either order.
pub proof fn lemma_u32_bytes_of_value(order: Endian, s: Seq<u8>)
    requires
        s.len() == 4,
    ensures
        u32_bytes(order, u32_value(order, s)) == s,
{
    let (a, b, c, d) = match order {
        Endian::Little => (s[0], s[1], s[2], s[3]),
        Endian::Big => (s[3], s[2], s[1], s[0]),
    };
    let n = (a + 256 * b + 65536 * c + 16777216 * d) as u32;
    assert(n == a + 256 * b + 65536 * c + 16777216 * d);
    assert((n % 256) as u8 == a && ((n / 256) % 256) as u8 == b && ((n / 65536) % 256) as u8 == c
        && ((n / 16777216) % 256) as u8 == d) by (nonlinear_arith)
        requires
            n == a + 256 * b + 65536 * c + 16777216 * d,
            a < 256,
            b < 256,
            c < 256,
            d < 256,
    ;
    assert(u32_bytes(order, u32_value(order, s)) =~= s);
}

/// Writing back the signed value of four bytes gives those bytes, in either
/// order.
pub proof fn lemma_i32_bytes_of_value(order: Endian, s: Seq<u8>)
    requires
        s.len() == 4,
    ensures
        i32_bytes(order, i32_value(order, s)) == s,
{
    lemma_u32_bytes_of_value(order, s);
}

/// Calls `LittleEndian::read_u32` of `byteorder` on the four bytes at `at`;
/// claims that it returns their little-endian value.
#[verifier::external_body]
fn le_read_u32(buf: &[u8], at: usize) -> (r: u32)
    requires
        at + 4 <= buf@.len(),
    ensures
        r == u32_value(Endian::Little, buf@.subrange(at as int, at + 4)),
{
    byteorder::LittleEndian::read_u32(&buf[at..])
}

/// Calls `BigEndian::read_u32` of `byteorder` on the four bytes at `at`;
/// claims that it returns their big-endian value.
#[verifier::external_body]
fn be_read_u32(buf: &[u8], at: usize) -> (r: u32)
    requires
        at + 4 <= buf@.len(),
    ensures
        r == u32_value(Endian::Big, buf@.subrange(at as int, at + 4)),
{
    byteorder::BigEndian::read_u32(&buf[at..])
}

/// Calls `LittleEndian::read_i32` of `byteorder` on the four bytes at `at`;
/// claims that it returns the signed value of their little-endian pattern.
#[verifier::external_body]
fn le_read_i32(buf: &[u8], at: usize) -> (r: i32)
    requires
        at + 4 <= buf@.len(),
    ensures
        r == i32_value(Endian::Little, buf@.subrange(at as int, at + 4)),
{
    byteorder::LittleEndian::read_i32(&buf[at..])
}

/// Calls `BigEndian::read_i32` of `byteorder` on the four bytes at `at`;
/// claims that it returns the signed value of their big-endian pattern.
#[verifier::external_body]
fn be_read_i32(buf: &[u8], at: usize) -> (r: i32)
    requires
        at + 4 <= buf@.len(),
    ensures
        r == i32_value(Endian::Big, buf@.subrange(at as int, at + 4)),
{
    byteorder::BigEndian::read_i32(&buf[at..])
}

/// Calls `LittleEndian::write_u32` of `byteorder` on the bytes from `at` on;
/// claims that it overwrites exactly those four bytes with the
/// little-endian bytes of `n`.
#[verifier::external_body]
fn le_write_u32(buf: &mut Vec<u8>, at: usize, n: u32)
    requires
        at + 4 <= old(buf)@.len(),
    ensures
        final(buf)@ == splice(old(buf)@, at as int, u32_bytes(Endian::Little, n)),
{
    byteorder::LittleEndian::write_u32(&mut buf[at..], n)
}

/// Calls `BigEndian::write_u32` of `byteorder` on the bytes from `at` on;
/// claims that it overwrites exactly those four bytes with the big-endian
/// bytes of `n`.
#[verifier::external_body]
fn be_write_u32(buf: &mut Vec<u8>, at: usize, n: u32)
    requires
        at + 4 <= old(buf)@.len(),
    ensures
        final(buf)@ == splice(old(buf)@, at as int, u32_bytes(Endian::Big, n)),
{
    byteorder::BigEndian::write_u32(&mut buf[at..], n)
}

/// Calls `LittleEndian::write_i32` of `byteorder` on the bytes from `at` on;
/// claims that it overwrites exactly those four bytes with the little-endian
/// bytes of the two's-complement pattern of `n`.
#[verifier::external_body]
fn le_write_i32(buf: &mut Vec<u8>, at: usize, n: i32)
    requires
        at + 4 <= old(buf)@.len(),
    ensures
        final(buf)@ == splice(old(buf)@, at as int, i32_bytes(Endian::Little, n)),
{
    byteorder::LittleEndian::write_i32(&mut buf[at..], n)
}

/// Calls `BigEndian::write_i32` of `byteorder` on the bytes from `at` on;
/// claims that it overwrites exactly those four bytes with the big-endian
/// bytes of the two's-complement pattern of `n`.
#[verifier::external_body]
fn be_write_i32(buf: &mut Vec<u8>, at: usize, n: i32)
    requires
        at + 4 <= old(buf)@.len(),
    ensures
        final(buf)@ == splice(old(buf)@, at as int, i32_bytes(Endian::Big, n)),
{
    byteorder::BigEndian::write_i32(&mut buf[at..], n)
}

/// Reads the unsigned integer at `at` in the given order.
pub fn read_u32_at(order: Endian, buf: &Vec<u8>, at: usize) -> (r: u32)
    requires
        at + 4 <= buf@.len(),
    ensures
        r == u32_value(order, buf@.subrange(at as int, at + 4)),
{
    match order {
        Endian::Little => le_read_u32(buf.as_slice(), at),
        Endian::Big => be_read_u32(buf.as_slice(), at),
    }
}

/// Reads the signed integer at `at` in the given order.
pub fn read_i32_at(order: Endian, buf: &Vec<u8>, at: usize) -> (r: i32)
    requires
        at + 4 <= buf@.len(),
    ensures
        r == i32_value(order, buf@.subrange(at as int, at + 4)),
{
    match order {
        Endian::Little => le_read_i32(buf.as_slice(), at),
        Endian::Big => be_read_i32(buf.as_slice(), at),
    }
}

/// Appends the four bytes of `n` in the given order.
pub fn push_u32(order: Endian, buf: &mut Vec<u8>, n: u32)
    requires
        old(buf)@.len() + 4 <= usize::MAX,
    ensures
        final(buf)@ == old(buf)@ + u32_bytes(order, n),
{
    let at = buf.len();
    buf.push(0);
    buf.push(0);
    buf.push(0);
    buf.push(0);
    match order {
        Endian::Little => le_write_u32(buf, at, n),
        Endian::Big => be_write_u32(buf, at, n),
    }
    assert(buf@ =~= old(buf)@ + u32_bytes(order, n));
}

/// Appends the four bytes of the signed `n` in the given order.
pub fn push_i32(order: Endian, buf: &mut Vec<u8>, n: i32)
    requires
        old(buf)@.len() + 4 <= usize::MAX,
    ensures
        final(buf)@ == old(buf)@ + i32_bytes(order, n),
{
    let at = buf.len();
    buf.push(0);
    buf.push(0);
    buf.push(0);
    buf.push(0);
    match order {
        Endian::Little => le_write_i32(buf, at, n),
        Endian::Big => be_write_i32(buf, at, n),
    }
    assert(buf@ =~= old(buf)@ + i32_bytes(order, n));
}

} // verus!
