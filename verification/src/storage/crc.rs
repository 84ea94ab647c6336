//! CRC-32/ISO-HDLC in its table-free form.

use vstd::prelude::*;

use crate::uwb::bytes;

verus! {

/// The reflected generator polynomial.
pub const POLYNOMIAL: u32 = 0xEDB8_8320;

/// One division step: shift out the low bit, and subtract the polynomial if it was set.
pub open spec fn crc_bit(state: u32) -> u32 {
    if state & 1 == 1 {
        (state >> 1) ^ POLYNOMIAL
    } else {
        state >> 1
    }
}

/// `steps` division steps.
pub open spec fn crc_bits(state: u32, steps: nat) -> u32
    decreases steps,
{
    if steps == 0 {
        state
    } else {
        crc_bit(crc_bits(state, (steps - 1) as nat))
    }
}

/// The state after one more byte.
pub open spec fn crc_byte(state: u32, byte: u8) -> u32 {
    crc_bits(state ^ (byte as u32), 8)
}

/// The state after a whole message.
pub open spec fn crc_state(data: Seq<u8>) -> u32
    decreases data.len(),
{
    if data.len() == 0 {
        0xFFFF_FFFF
    } else {
        crc_byte(crc_state(data.drop_last()), data.last())
    }
}

/// The checksum of a message: the complement of the final state.
pub open spec fn checksum(data: Seq<u8>) -> u32 {
    !crc_state(data)
}

/// Computes the CRC-32/ISO-HDLC checksum of `bytes`.
pub fn crc32(bytes: &[u8]) -> (crc: u32)
    ensures
        crc == checksum(bytes@),
{
    let mut crc: u32 = 0xFFFF_FFFF;
    let mut i: usize = 0;
    assert(bytes@.take(0).len() == 0);
    while i < bytes.len()
        invariant
            i <= bytes@.len(),
            crc == crc_state(bytes@.take(i as int)),
        decreases bytes@.len() - i,
    {
        let ghost before = crc;
        crc = crc ^ (bytes[i] as u32);
        let ghost mixed = crc;
        let mut bit: u32 = 0;
        while bit < 8
            invariant
                bit <= 8,
                crc == crc_bits(mixed, bit as nat),
            decreases 8 - bit,
        {
            proof {
                let state = crc;
                assert(state & 1 == 0 || state & 1 == 1) by (bit_vector);
                assert((state >> 1) ^ (0xEDB8_8320u32 & 0u32) == state >> 1) by (bit_vector);
                assert((state >> 1) ^ (0xEDB8_8320u32 & 0xFFFF_FFFFu32) == (state >> 1)
                    ^ 0xEDB8_8320u32) by (bit_vector);
            }
            let mask: u32 = 0u32.wrapping_sub(crc & 1);
            crc = (crc >> 1) ^ (POLYNOMIAL & mask);
            bit = bit + 1;
        }
        assert(bytes@.take(i + 1).drop_last() =~= bytes@.take(i as int));
        i = i + 1;
    }
    assert(bytes@.take(i as int) =~= bytes@);
    !crc
}

/// Distinct states stay distinct through the division steps of one byte.
proof fn crc_bits_are_injective(s: u32, t: u32, steps: nat)
    requires
        s != t,
    ensures
        crc_bits(s, steps) != crc_bits(t, steps),
    decreases steps,
{
    if steps > 0 {
        crc_bits_are_injective(s, t, (steps - 1) as nat);
        let a = crc_bits(s, (steps - 1) as nat);
        let b = crc_bits(t, (steps - 1) as nat);
        assert(a != b ==> crc_bit(a) != crc_bit(b)) by (bit_vector);
    }
}

/// Two messages that agree behind a point where their states differ have different checksums.
proof fn difference_survives(a: Seq<u8>, b: Seq<u8>, from: int)
    requires
        a.len() == b.len(),
        0 <= from <= a.len(),
        crc_state(a.take(from)) != crc_state(b.take(from)),
        forall|i: int| from <= i < a.len() ==> a[i] == b[i],
    ensures
        crc_state(a) != crc_state(b),
    decreases a.len() - from,
{
    if from == a.len() {
        assert(a.take(from) =~= a);
        assert(b.take(from) =~= b);
    } else {
        let s = crc_state(a.take(from));
        let t = crc_state(b.take(from));
        let x = a[from] as u32;
        assert(s ^ x != t ^ x) by (bit_vector)
            requires
                s != t,
        ;
        crc_bits_are_injective(s ^ x, t ^ x, 8);
        assert(a.take(from + 1).drop_last() =~= a.take(from));
        assert(b.take(from + 1).drop_last() =~= b.take(from));
        difference_survives(a, b, from + 1);
    }
}

/// Changing exactly one byte of a message, in whatever way, always changes its checksum.
pub proof fn one_changed_byte_changes_the_checksum(a: Seq<u8>, b: Seq<u8>, at: int)
    requires
        a.len() == b.len(),
        0 <= at < a.len(),
        a[at] != b[at],
        forall|i: int| 0 <= i < a.len() && i != at ==> a[i] == b[i],
    ensures
        checksum(a) != checksum(b),
{
    let s = crc_state(a.take(at));
    assert(a.take(at) =~= b.take(at));
    let x = a[at];
    let y = b[at];
    assert(s ^ (x as u32) != s ^ (y as u32)) by (bit_vector)
        requires
            x != y,
    ;
    crc_bits_are_injective(s ^ (x as u32), s ^ (y as u32), 8);
    assert(a.take(at + 1).drop_last() =~= a.take(at));
    assert(b.take(at + 1).drop_last() =~= b.take(at));
    difference_survives(a, b, at + 1);
    let p = crc_state(a);
    let q = crc_state(b);
    assert(!p != !q) by (bit_vector)
        requires
            p != q,
    ;
}

/// Eight division steps.
spec fn eight(state: u32) -> u32 {
    crc_bit(crc_bit(crc_bit(crc_bit(crc_bit(crc_bit(crc_bit(crc_bit(state))))))))
}

/// A byte takes eight division steps.
proof fn a_byte_takes_eight_steps(state: u32)
    ensures
        crc_bits(state, 8) == eight(state),
{
    reveal_with_fuel(crc_bits, 9);
}

/// The checksum of four messages of one length whose bytes cancel out cancels out too: flipping
/// certain bits changes the checksum in the same way whatever the message is.
pub proof fn differences_add_up(a: Seq<u8>, b: Seq<u8>, c: Seq<u8>, d: Seq<u8>)
    requires
        a.len() == b.len() == c.len() == d.len(),
        forall|i: int| 0 <= i < a.len() ==> #[trigger] a[i] ^ b[i] == c[i] ^ d[i],
    ensures
        checksum(a) ^ checksum(b) == checksum(c) ^ checksum(d),
{
    states_add_up(a, b, c, d);
    let (p, q, r, s) = (crc_state(a), crc_state(b), crc_state(c), crc_state(d));
    assert(p ^ q == r ^ s ==> !p ^ !q == !r ^ !s) by (bit_vector);
}

/// The states of four messages that cancel out cancel out too.
proof fn states_add_up(a: Seq<u8>, b: Seq<u8>, c: Seq<u8>, d: Seq<u8>)
    requires
        a.len() == b.len() == c.len() == d.len(),
        forall|i: int| 0 <= i < a.len() ==> #[trigger] a[i] ^ b[i] == c[i] ^ d[i],
    ensures
        crc_state(a) ^ crc_state(b) == crc_state(c) ^ crc_state(d),
    decreases a.len(),
{
    if a.len() == 0 {
        assert(0xFFFF_FFFFu32 ^ 0xFFFF_FFFFu32 == 0xFFFF_FFFFu32 ^ 0xFFFF_FFFFu32);
    } else {
        assert forall|i: int| 0 <= i < a.drop_last().len() implies #[trigger] a.drop_last()[i]
            ^ b.drop_last()[i] == c.drop_last()[i] ^ d.drop_last()[i] by {
            assert(a[i] ^ b[i] == c[i] ^ d[i]);
        }
        states_add_up(a.drop_last(), b.drop_last(), c.drop_last(), d.drop_last());
        let (p, q, r, s) = (
            crc_state(a.drop_last()),
            crc_state(b.drop_last()),
            crc_state(c.drop_last()),
            crc_state(d.drop_last()),
        );
        let n = a.len() - 1;
        let (w, x, y, z) = (a[n], b[n], c[n], d[n]);
        assert(w ^ x == y ^ z);
        let (i, j, k, l) = (p ^ (w as u32), q ^ (x as u32), r ^ (y as u32), s ^ (z as u32));
        assert(i ^ j == k ^ l) by (bit_vector)
            requires
                p ^ q == r ^ s,
                w ^ x == y ^ z,
                i == p ^ (w as u32),
                j == q ^ (x as u32),
                k == r ^ (y as u32),
                l == s ^ (z as u32),
        ;
        bits_add_up(i, j, k, l, 8);
    }
}

/// Division steps keep what cancels out.
proof fn bits_add_up(i: u32, j: u32, k: u32, l: u32, steps: nat)
    requires
        i ^ j == k ^ l,
    ensures
        crc_bits(i, steps) ^ crc_bits(j, steps) == crc_bits(k, steps) ^ crc_bits(l, steps),
    decreases steps,
{
    if steps > 0 {
        let before = (steps - 1) as nat;
        bits_add_up(i, j, k, l, before);
        let (p, q, r, s) = (
            crc_bits(i, before),
            crc_bits(j, before),
            crc_bits(k, before),
            crc_bits(l, before),
        );
        assert(p ^ q == r ^ s ==> crc_bit(p) ^ crc_bit(q) == crc_bit(r) ^ crc_bit(s))
            by (bit_vector);
    }
}

/// A message followed by its own checksum, least significant byte first, has the same checksum
/// whatever the message is.
pub proof fn the_residue_is_constant(data: Seq<u8>)
    ensures
        checksum(data + bytes::u32_bytes(checksum(data))) == 0x2144_DF1C,
{
    let s = crc_state(data);
    let c = checksum(data);
    reveal(bytes::byte_of);
    let (b0, b1, b2, b3) = (
        bytes::byte_of(c as int, 1),
        bytes::byte_of(c as int, 0x100),
        bytes::byte_of(c as int, 0x1_0000),
        bytes::byte_of(c as int, 0x100_0000),
    );
    assert(c % 256 == c & 0xff && c / 0x100 % 256 == (c >> 8) & 0xff && c / 0x1_0000 % 256 == (c
        >> 16) & 0xff && c / 0x100_0000 % 256 == (c >> 24) & 0xff) by (bit_vector);
    let d0 = data.push(b0);
    let d1 = d0.push(b1);
    let d2 = d1.push(b2);
    let d3 = d2.push(b3);
    assert(data + bytes::u32_bytes(c) =~= d3);
    assert(d3.drop_last() =~= d2 && d2.drop_last() =~= d1 && d1.drop_last() =~= d0
        && d0.drop_last() =~= data);
    let (x0, x1, x2, x3) = (
        c & 0xff,
        (c >> 8) & 0xff,
        (c >> 16) & 0xff,
        (c >> 24) & 0xff,
    );
    assert(b0 as u32 == x0 && b1 as u32 == x1 && b2 as u32 == x2 && b3 as u32 == x3);
    let s0 = eight(s ^ x0);
    let s1 = eight(s0 ^ x1);
    let s2 = eight(s1 ^ x2);
    let s3 = eight(s2 ^ x3);
    a_byte_takes_eight_steps(s ^ x0);
    a_byte_takes_eight_steps(s0 ^ x1);
    a_byte_takes_eight_steps(s1 ^ x2);
    a_byte_takes_eight_steps(s2 ^ x3);
    assert(crc_state(d0) == s0 && crc_state(d1) == s1 && crc_state(d2) == s2);
    assert(crc_state(d3) == s3);
    assert(s0 == (s >> 8) ^ 0x2D02_EF8Du32) by (bit_vector)
        requires
            c == !s,
            x0 == c & 0xff,
            s0 == eight(s ^ x0),
    ;
    assert(s1 == (s >> 16) ^ 0xBE26_12FFu32) by (bit_vector)
        requires
            c == !s,
            x1 == (c >> 8) & 0xff,
            s0 == (s >> 8) ^ 0x2D02_EF8Du32,
            s1 == eight(s0 ^ x1),
    ;
    assert(s3 == 0xDEBB_20E3) by (bit_vector)
        requires
            c == !s,
            x2 == (c >> 16) & 0xff,
            x3 == (c >> 24) & 0xff,
            s1 == (s >> 16) ^ 0xBE26_12FFu32,
            s2 == eight(s1 ^ x2),
            s3 == eight(s2 ^ x3),
    ;
    assert(!0xDEBB_20E3u32 == 0x2144_DF1C) by (bit_vector);
}

} // verus!
