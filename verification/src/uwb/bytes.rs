//! Little-endian fields inside a fixed-size frame buffer.
//!
//! Field contents are modelled arithmetically: byte `k` of a little-endian field is
//! `value / 256^k % 256`, and reading a field is the corresponding weighted sum.

use vstd::prelude::*;

verus! {

/// Size of a frame buffer: the longest frame either wire format produces.
pub const FRAME_LEN: usize = 24;

/// Number of distinct values of the radio's 40-bit tick counter.
pub const TIME_MODULUS: u64 = 0x100_0000_0000;

/// 40-bit timestamp wraparound mask.
pub const TIME_MASK: u64 = 0xFF_FFFF_FFFF;

/// Bytes a timestamp occupies on the wire.
pub const TIME_BYTES: usize = 5;

/// The byte of `value` that stands for `weight`s, a power of 256.
#[verifier::opaque]
pub open spec fn byte_of(value: int, weight: int) -> u8 {
    (value / weight % 256) as u8
}

/// The 16-bit value of two bytes, least significant first.
#[verifier::opaque]
pub open spec fn join16(b0: u8, b1: u8) -> u16 {
    (b0 + b1 * 0x100) as u16
}

/// The 32-bit value of four bytes, least significant first.
#[verifier::opaque]
pub open spec fn join32(b0: u8, b1: u8, b2: u8, b3: u8) -> u32 {
    (b0 + b1 * 0x100 + b2 * 0x1_0000 + b3 * 0x100_0000) as u32
}

/// The 40-bit value of five bytes, least significant first.
#[verifier::opaque]
pub open spec fn join40(b0: u8, b1: u8, b2: u8, b3: u8, b4: u8) -> u64 {
    (b0 + b1 * 0x100 + b2 * 0x1_0000 + b3 * 0x100_0000 + b4 * 0x1_0000_0000) as u64
}

/// The two bytes of a little-endian 16-bit field.
pub open spec fn u16_bytes(value: u16) -> Seq<u8> {
    seq![byte_of(value as int, 1), byte_of(value as int, 0x100)]
}

/// The four bytes of a little-endian 32-bit field.
pub open spec fn u32_bytes(value: u32) -> Seq<u8> {
    seq![
        byte_of(value as int, 1),
        byte_of(value as int, 0x100),
        byte_of(value as int, 0x1_0000),
        byte_of(value as int, 0x100_0000),
    ]
}

/// The five bytes of a timestamp field: the low 40 bits of `value`, little-endian.
pub open spec fn time_bytes(value: u64) -> Seq<u8> {
    seq![
        byte_of(value as int, 1),
        byte_of(value as int, 0x100),
        byte_of(value as int, 0x1_0000),
        byte_of(value as int, 0x100_0000),
        byte_of(value as int, 0x1_0000_0000),
    ]
}

/// The 16-bit field at offset `at` of `data`.
pub open spec fn u16_at(data: Seq<u8>, at: int) -> u16 {
    join16(data[at], data[at + 1])
}

/// The 32-bit field at offset `at` of `data`.
pub open spec fn u32_at(data: Seq<u8>, at: int) -> u32 {
    join32(data[at], data[at + 1], data[at + 2], data[at + 3])
}

/// The timestamp field at offset `at` of `data`.
pub open spec fn time_at(data: Seq<u8>, at: int) -> u64 {
    join40(data[at], data[at + 1], data[at + 2], data[at + 3], data[at + 4])
}

/// `data` with the bytes from offset `at` on replaced by `field`.
pub open spec fn patched(data: Seq<u8>, at: int, field: Seq<u8>) -> Seq<u8> {
    data.subrange(0, at) + field + data.subrange(at + field.len(), data.len() as int)
}

/// A frame buffer that starts with `payload` and is zero everywhere else.
pub open spec fn framed(payload: Seq<u8>) -> Seq<u8> {
    payload + Seq::new((FRAME_LEN - payload.len()) as nat, |i: int| 0u8)
}

/// A 16-bit field reads back what was written.
pub proof fn u16_round_trip(data: Seq<u8>, at: int, value: u16)
    requires
        0 <= at,
        at + 2 <= data.len(),
        data.subrange(at, at + 2) == u16_bytes(value),
    ensures
        u16_at(data, at) == value,
{
    reveal(byte_of);
    reveal(join16);
    let field = data.subrange(at, at + 2);
    assert(field[0] == data[at] && field[1] == data[at + 1]);
}

/// A 32-bit field reads back what was written.
pub proof fn u32_round_trip(data: Seq<u8>, at: int, value: u32)
    requires
        0 <= at,
        at + 4 <= data.len(),
        data.subrange(at, at + 4) == u32_bytes(value),
    ensures
        u32_at(data, at) == value,
{
    reveal(byte_of);
    reveal(join32);
    let field = data.subrange(at, at + 4);
    assert(field[0] == data[at] && field[1] == data[at + 1] && field[2] == data[at + 2] && field[3]
        == data[at + 3]);
}

/// A timestamp field reads back the low 40 bits of what was written.
pub proof fn time_round_trip(data: Seq<u8>, at: int, value: u64)
    requires
        0 <= at,
        at + 5 <= data.len(),
        data.subrange(at, at + 5) == time_bytes(value),
    ensures
        time_at(data, at) == value % TIME_MODULUS,
{
    reveal(byte_of);
    reveal(join40);
    let field = data.subrange(at, at + 5);
    assert(field[0] == data[at] && field[1] == data[at + 1] && field[2] == data[at + 2] && field[3]
        == data[at + 3] && field[4] == data[at + 4]);
    assert(value % 256 + value / 0x100 % 256 * 0x100 + value / 0x1_0000 % 256 * 0x1_0000 + value
        / 0x100_0000 % 256 * 0x100_0000 + value / 0x1_0000_0000 % 256 * 0x1_0000_0000 == value
        % 0x100_0000_0000) by (bit_vector);
}

/// Writing what was read reproduces the 16-bit field's bytes.
pub proof fn u16_bytes_of_read(data: Seq<u8>, at: int)
    requires
        0 <= at,
        at + 2 <= data.len(),
    ensures
        u16_bytes(u16_at(data, at)) == data.subrange(at, at + 2),
{
    reveal(byte_of);
    reveal(join16);
    assert(u16_bytes(u16_at(data, at)) =~= data.subrange(at, at + 2));
}

/// Writing what was read reproduces the 32-bit field's bytes.
pub proof fn u32_bytes_of_read(data: Seq<u8>, at: int)
    requires
        0 <= at,
        at + 4 <= data.len(),
    ensures
        u32_bytes(u32_at(data, at)) == data.subrange(at, at + 4),
{
    reveal(byte_of);
    reveal(join32);
    let (b0, b1, b2, b3) = (data[at], data[at + 1], data[at + 2], data[at + 3]);
    let v = u32_at(data, at);
    assert(v % 256 == b0 && v / 0x100 % 256 == b1 && v / 0x1_0000 % 256 == b2 && v / 0x100_0000
        % 256 == b3) by (bit_vector)
        requires
            v == b0 + b1 * 0x100 + b2 * 0x1_0000 + b3 * 0x100_0000,
    ;
    assert(u32_bytes(v) =~= data.subrange(at, at + 4));
}

/// Writing what was read reproduces the timestamp field's bytes.
pub proof fn time_bytes_of_read(data: Seq<u8>, at: int)
    requires
        0 <= at,
        at + 5 <= data.len(),
    ensures
        time_at(data, at) < TIME_MODULUS,
        time_bytes(time_at(data, at)) == data.subrange(at, at + 5),
{
    reveal(byte_of);
    reveal(join40);
    let (b0, b1, b2, b3, b4) = (data[at], data[at + 1], data[at + 2], data[at + 3], data[at + 4]);
    let t = time_at(data, at);
    assert(t % 256 == b0 && t / 0x100 % 256 == b1 && t / 0x1_0000 % 256 == b2 && t / 0x100_0000
        % 256 == b3 && t / 0x1_0000_0000 % 256 == b4) by (bit_vector)
        requires
            t == b0 + b1 * 0x100 + b2 * 0x1_0000 + b3 * 0x100_0000 + b4 * 0x1_0000_0000,
    ;
    assert(time_bytes(t) =~= data.subrange(at, at + 5));
}

/// Masking to 40 bits is the remainder modulo the counter's period.
pub proof fn mask_is_remainder(value: u64)
    ensures
        value & TIME_MASK == value % TIME_MODULUS,
{
    assert(value & 0xFF_FFFF_FFFFu64 == value % 0x100_0000_0000u64) by (bit_vector);
}

/// Writes `value` little-endian at offset `at`.
pub fn write_u16<const N: usize>(out: &mut [u8; N], at: usize, value: u16)
    requires
        at + 2 <= N,
    ensures
        final(out)@ == patched(old(out)@, at as int, u16_bytes(value)),
{
    proof {
        reveal(byte_of);
    }
    out[at] = (value % 256) as u8;
    out[at + 1] = (value / 256) as u8;
    assert(out@ =~= patched(old(out)@, at as int, u16_bytes(value)));
}

/// Reads the little-endian 16-bit field at offset `at`.
pub fn read_u16(input: &[u8], at: usize) -> (value: u16)
    requires
        at + 2 <= input@.len(),
    ensures
        value == u16_at(input@, at as int),
{
    proof {
        reveal(join16);
    }
    input[at] as u16 + input[at + 1] as u16 * 0x100
}

/// Writes `value` little-endian at offset `at`.
pub fn write_u32<const N: usize>(out: &mut [u8; N], at: usize, value: u32)
    requires
        at + 4 <= N,
    ensures
        final(out)@ == patched(old(out)@, at as int, u32_bytes(value)),
{
    proof {
        reveal(byte_of);
    }
    out[at] = (value % 256) as u8;
    out[at + 1] = (value / 0x100 % 256) as u8;
    out[at + 2] = (value / 0x1_0000 % 256) as u8;
    out[at + 3] = (value / 0x100_0000) as u8;
    assert(out@ =~= patched(old(out)@, at as int, u32_bytes(value)));
}

/// Reads the little-endian 32-bit field at offset `at`.
pub fn read_u32(input: &[u8], at: usize) -> (value: u32)
    requires
        at + 4 <= input@.len(),
    ensures
        value == u32_at(input@, at as int),
{
    proof {
        reveal(join32);
    }
    input[at] as u32 + input[at + 1] as u32 * 0x100 + input[at + 2] as u32 * 0x1_0000 + input[at
        + 3] as u32 * 0x100_0000
}

/// Writes the low 40 bits of `value` little-endian at offset `at`.
pub fn write_time<const N: usize>(out: &mut [u8; N], at: usize, value: u64)
    requires
        at + 5 <= N,
    ensures
        final(out)@ == patched(old(out)@, at as int, time_bytes(value)),
{
    proof {
        reveal(byte_of);
    }
    out[at] = (value % 256) as u8;
    out[at + 1] = (value / 0x100 % 256) as u8;
    out[at + 2] = (value / 0x1_0000 % 256) as u8;
    out[at + 3] = (value / 0x100_0000 % 256) as u8;
    out[at + 4] = (value / 0x1_0000_0000 % 256) as u8;
    assert(out@ =~= patched(old(out)@, at as int, time_bytes(value)));
}

/// Reads the timestamp field at offset `at`.
pub fn read_time(input: &[u8], at: usize) -> (value: u64)
    requires
        at + 5 <= input@.len(),
    ensures
        value == time_at(input@, at as int),
{
    proof {
        reveal(join40);
    }
    input[at] as u64 + input[at + 1] as u64 * 0x100 + input[at + 2] as u64 * 0x1_0000 + input[at
        + 3] as u64 * 0x100_0000 + input[at + 4] as u64 * 0x1_0000_0000
}

/// The bytes of a field count, from the first on, in units of 1, 256, 256 squared and so on.
pub proof fn fields_are_little_endian(data: Seq<u8>, at: int)
    ensures
        u16_at(data, at) == data[at] + 256 * data[at + 1],
        u32_at(data, at) == data[at] + 256 * (data[at + 1] + 256 * (data[at + 2] + 256 * data[at
            + 3])),
        time_at(data, at) == data[at] + 256 * (data[at + 1] + 256 * (data[at + 2] + 256 * (data[at
            + 3] + 256 * data[at + 4]))),
{
    reveal(join16);
    reveal(join32);
    reveal(join40);
}

} // verus!
