//! Integers in network byte order.

use vstd::prelude::*;
use byteorder::{BigEndian, ByteOrder};

verus! {

/// The unsigned number that two bytes hold, most significant byte first.
pub open spec fn be_u16(s: Seq<u8>) -> int {
    s[0] as int * 0x100 + s[1] as int
}

/// The unsigned number that four bytes hold, most significant byte first.
pub open spec fn be_u32(s: Seq<u8>) -> int {
    s[0] as int * 0x100_0000 + s[1] as int * 0x1_0000 + s[2] as int * 0x100 + s[3] as int
}

/// The unsigned number that eight bytes hold, most significant byte first.
pub open spec fn be_u64(s: Seq<u8>) -> int {
    be_u32(s.subrange(0, 4)) * 0x1_0000_0000 + be_u32(s.subrange(4, 8))
}

/// The two's complement reading of an unsigned number below `modulus`.
pub open spec fn to_signed(v: int, modulus: int) -> int {
    if 2 * v >= modulus {
        v - modulus
    } else {
        v
    }
}

/// The unsigned number below `modulus` that stands for `v` in two's
/// complement.
pub open spec fn to_unsigned(v: int, modulus: int) -> int {
    if v < 0 {
        v + modulus
    } else {
        v
    }
}

/// The number that two bytes hold in two's complement.
pub open spec fn be_i16(s: Seq<u8>) -> i16 {
    to_signed(be_u16(s), 0x1_0000) as i16
}

/// The number that four bytes hold in two's complement.
pub open spec fn be_i32(s: Seq<u8>) -> i32 {
    to_signed(be_u32(s), 0x1_0000_0000) as i32
}

/// The number that eight bytes hold in two's complement.
pub open spec fn be_i64(s: Seq<u8>) -> i64 {
    to_signed(be_u64(s), 0x1_0000_0000_0000_0000) as i64
}

/// The two bytes of a number below 2^16, most significant byte first.
pub open spec fn u16_be_bytes(v: int) -> Seq<u8> {
    seq![(v / 0x100) as u8, (v % 0x100) as u8]
}

/// The four bytes of a number below 2^32, most significant byte first.
pub open spec fn u32_be_bytes(v: int) -> Seq<u8> {
    seq![
        (v / 0x100_0000) as u8,
        (v / 0x1_0000 % 0x100) as u8,
        (v / 0x100 % 0x100) as u8,
        (v % 0x100) as u8,
    ]
}

/// The eight bytes of a number below 2^64, most significant byte first.
pub open spec fn u64_be_bytes(v: int) -> Seq<u8> {
    u32_be_bytes(v / 0x1_0000_0000) + u32_be_bytes(v % 0x1_0000_0000)
}

/// The two bytes of a number in two's complement.
pub open spec fn i16_be_bytes(v: i16) -> Seq<u8> {
    u16_be_bytes(to_unsigned(v as int, 0x1_0000))
}

/// The four bytes of a number in two's complement.
pub open spec fn i32_be_bytes(v: i32) -> Seq<u8> {
    u32_be_bytes(to_unsigned(v as int, 0x1_0000_0000))
}

/// The eight bytes of a number in two's complement.
pub open spec fn i64_be_bytes(v: i64) -> Seq<u8> {
    u64_be_bytes(to_unsigned(v as int, 0x1_0000_0000_0000_0000))
}

/// Reading back the bytes of a number gives the number.
pub proof fn lemma_u16_round_trip(v: int)
    requires
        0 <= v < 0x1_0000,
    ensures
        u16_be_bytes(v).len() == 2,
        be_u16(u16_be_bytes(v)) == v,
{
}

/// Reading back the four bytes of a number gives the number.
pub proof fn lemma_u32_round_trip(v: int)
    requires
        0 <= v < 0x1_0000_0000,
    ensures
        u32_be_bytes(v).len() == 4,
        be_u32(u32_be_bytes(v)) == v,
{
}

/// Reading back the eight bytes of a number gives the number.
pub proof fn lemma_u64_round_trip(v: int)
    requires
        0 <= v < 0x1_0000_0000_0000_0000,
    ensures
        u64_be_bytes(v).len() == 8,
        be_u64(u64_be_bytes(v)) == v,
{
    let s = u64_be_bytes(v);
    lemma_u32_round_trip(v / 0x1_0000_0000);
    lemma_u32_round_trip(v % 0x1_0000_0000);
}

/// Reading back the two bytes of a signed number gives the number.
pub proof fn lemma_i16_round_trip(v: i16)
    ensures
        i16_be_bytes(v).len() == 2,
        be_i16(i16_be_bytes(v)) == v,
{
    lemma_u16_round_trip(to_unsigned(v as int, 0x1_0000));
}

/// Reading back the four bytes of a signed number gives the number.
pub proof fn lemma_i32_round_trip(v: i32)
    ensures
        i32_be_bytes(v).len() == 4,
        be_i32(i32_be_bytes(v)) == v,
{
    lemma_u32_round_trip(to_unsigned(v as int, 0x1_0000_0000));
}

/// Reading back the eight bytes of a signed number gives the number.
pub proof fn lemma_i64_round_trip(v: i64)
    ensures
        i64_be_bytes(v).len() == 8,
        be_i64(i64_be_bytes(v)) == v,
{
    lemma_u64_round_trip(to_unsigned(v as int, 0x1_0000_0000_0000_0000));
}

/// Appends the two bytes of `v`.
pub fn put_u16(buf: &mut Vec<u8>, v: u16)
    ensures
        final(buf)@ == old(buf)@ + u16_be_bytes(v as int),
{
    buf.push((v / 0x100) as u8);
    buf.push((v % 0x100) as u8);
}

/// Appends the four bytes of `v`.
pub fn put_u32(buf: &mut Vec<u8>, v: u32)
    ensures
        final(buf)@ == old(buf)@ + u32_be_bytes(v as int),
{
    buf.push((v / 0x100_0000) as u8);
    buf.push((v / 0x1_0000 % 0x100) as u8);
    buf.push((v / 0x100 % 0x100) as u8);
    buf.push((v % 0x100) as u8);
}

/// Appends the eight bytes of `v`.
pub fn put_u64(buf: &mut Vec<u8>, v: u64)
    ensures
        final(buf)@ == old(buf)@ + u64_be_bytes(v as int),
{
    put_u32(buf, (v / 0x1_0000_0000) as u32);
    put_u32(buf, (v % 0x1_0000_0000) as u32);
}

/// Appends the two bytes of `v` in two's complement.
pub fn put_i16(buf: &mut Vec<u8>, v: i16)
    ensures
        final(buf)@ == old(buf)@ + i16_be_bytes(v),
{
    let u: u16 = if v < 0 {
        (v as i32 + 0x1_0000) as u16
    } else {
        v as u16
    };
    put_u16(buf, u);
}

/// Appends the four bytes of `v` in two's complement.
pub fn put_i32(buf: &mut Vec<u8>, v: i32)
    ensures
        final(buf)@ == old(buf)@ + i32_be_bytes(v),
{
    let u: u32 = if v < 0 {
        (v as i64 + 0x1_0000_0000) as u32
    } else {
        v as u32
    };
    put_u32(buf, u);
}

/// Appends the eight bytes of `v` in two's complement.
pub fn put_i64(buf: &mut Vec<u8>, v: i64)
    ensures
        final(buf)@ == old(buf)@ + i64_be_bytes(v),
{
    let u: u64 = if v < 0 {
        (v as i128 + 0x1_0000_0000_0000_0000) as u64
    } else {
        v as u64
    };
    put_u64(buf, u);
}

/// Writes the four bytes of `v` over those at `at`.
pub fn set_u32(buf: &mut Vec<u8>, at: usize, v: u32)
    requires
        at + 4 <= old(buf)@.len(),
    ensures
        final(buf)@ == old(buf)@.subrange(0, at as int) + u32_be_bytes(v as int) + old(buf)@.subrange(
            at + 4,
            old(buf)@.len() as int,
        ),
{
    let len: usize = buf.len();
    buf.set(at, (v / 0x100_0000) as u8);
    buf.set(at + 1, (v / 0x1_0000 % 0x100) as u8);
    buf.set(at + 2, (v / 0x100 % 0x100) as u8);
    buf.set(at + 3, (v % 0x100) as u8);
    assert(buf@ =~= old(buf)@.subrange(0, at as int) + u32_be_bytes(v as int) + old(buf)@.subrange(
        at + 4,
        old(buf)@.len() as int,
    ));
}

/// Writes the four bytes of `v`, in two's complement, over those at `at`.
pub fn set_i32(buf: &mut Vec<u8>, at: usize, v: i32)
    requires
        at + 4 <= old(buf)@.len(),
    ensures
        final(buf)@ == old(buf)@.subrange(0, at as int) + i32_be_bytes(v) + old(buf)@.subrange(
            at + 4,
            old(buf)@.len() as int,
        ),
{
    let u: u32 = if v < 0 {
        (v as i64 + 0x1_0000_0000) as u32
    } else {
        v as u32
    };
    set_u32(buf, at, u);
}

/// The unsigned number in the first four bytes of `buf`.
pub fn get_u32(buf: &[u8]) -> (r: u32)
    requires
        buf@.len() >= 4,
    ensures
        r == be_u32(buf@),
{
    let a: u32 = buf[0] as u32;
    let b: u32 = buf[1] as u32;
    let c: u32 = buf[2] as u32;
    let d: u32 = buf[3] as u32;
    a * 0x100_0000 + b * 0x1_0000 + c * 0x100 + d
}

/// The signed number in the first four bytes of `buf`.
pub fn get_i32(buf: &[u8]) -> (r: i32)
    requires
        buf@.len() >= 4,
    ensures
        r == be_i32(buf@),
{
    let u: u32 = get_u32(buf);
    if u >= 0x8000_0000 {
        (u as i64 - 0x1_0000_0000) as i32
    } else {
        u as i32
    }
}

/// `byteorder::BigEndian::read_u32`: the first four bytes of `buf`, read
/// most significant byte first as an unsigned number. It panics on fewer
/// than four bytes.
#[verifier::external_body]
pub(crate) fn read_u32(buf: &[u8]) -> (r: u32)
    requires
        buf@.len() >= 4,
    ensures
        r == be_u32(buf@),
{
    BigEndian::read_u32(buf)
}

/// `byteorder::BigEndian::read_u64`: the first eight bytes of `buf`, read
/// most significant byte first as an unsigned number. It panics on fewer
/// than eight bytes.
#[verifier::external_body]
pub(crate) fn read_u64(buf: &[u8]) -> (r: u64)
    requires
        buf@.len() >= 8,
    ensures
        r == be_u64(buf@),
{
    BigEndian::read_u64(buf)
}

/// `byteorder::BigEndian::read_i16`: the first two bytes of `buf`, read most
/// significant byte first as a number in two's complement. It panics on
/// fewer than two bytes.
#[verifier::external_body]
pub(crate) fn read_i16(buf: &[u8]) -> (r: i16)
    requires
        buf@.len() >= 2,
    ensures
        r == be_i16(buf@),
{
    BigEndian::read_i16(buf)
}

/// `byteorder::BigEndian::read_i32`: the first four bytes of `buf`, read
/// most significant byte first as a number in two's complement. It panics
/// on fewer than four bytes.
#[verifier::external_body]
pub(crate) fn read_i32(buf: &[u8]) -> (r: i32)
    requires
        buf@.len() >= 4,
    ensures
        r == be_i32(buf@),
{
    BigEndian::read_i32(buf)
}

/// `byteorder::BigEndian::read_i64`: the first eight bytes of `buf`, read
/// most significant byte first as a number in two's complement. It panics
/// on fewer than eight bytes.
#[verifier::external_body]
pub(crate) fn read_i64(buf: &[u8]) -> (r: i64)
    requires
        buf@.len() >= 8,
    ensures
        r == be_i64(buf@),
{
    BigEndian::read_i64(buf)
}

} // verus!
