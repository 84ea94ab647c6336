//! Fingerprints of the settings that nodes must agree on: FNV-1a hashes over 32-bit words.

use vstd::prelude::*;

use crate::uwb::packet::VERSION;
use crate::uwb::schedule::{
    ACTIVE_ANCHOR_COUNT, ACTIVE_TAG_COUNT, ANCHOR_IDS, INTER_SLOT_GUARD_US, MAX_FRAME_AIRTIME_US,
    PAN_ID, RESPONSE_GUARD_US, RX_TIMEOUT_US, SUBSLOT_US, SYNC_GUARD_US, SYNC_TAIL_GUARD_US,
    TAG_IDS,
};

verus! {

/// Start value of an FNV-1a hash.
pub const FNV_OFFSET: u32 = 0x811C_9DC5;

/// Multiplier of an FNV-1a hash.
pub const FNV_PRIME: u32 = 0x0100_0193;

/// Fingerprint of the physical-layer settings antenna delay was calibrated against.
///
/// Ordered fields: channel 5, 64 MHz PRF, 128-symbol preamble, 6.8 Mbit/s, preamble code 9, IEEE
/// short SFD, STS disabled, PAC 8. A change to the radio settings must change this value, which
/// deliberately invalidates stored calibration records.
pub const PHY_FINGERPRINT: u32 = 0xE30C_EF0F;

/// Fleet-wide fingerprint of the timing constants and the ID tables.
///
/// Two nodes that disagree about the TDMA grid still decode each other's frames; a differing
/// fingerprint makes the disagreement visible.
pub const PROTOCOL_FINGERPRINT: u32 = 0x515A_53C2;

/// One FNV-1a step: mix in a byte, then multiply modulo 2^32.
pub open spec fn fnv_byte(hash: u32, byte: u32) -> u32 {
    ((hash ^ byte) * FNV_PRIME) as u32
}

/// An FNV-1a hash advanced by the four bytes of `word`, least significant first.
pub open spec fn fnv_word(hash: u32, word: u32) -> u32 {
    fnv_byte(
        fnv_byte(fnv_byte(fnv_byte(hash, word & 0xff), (word >> 8) & 0xff), (word >> 16) & 0xff),
        (word >> 24) & 0xff,
    )
}

/// An FNV-1a hash advanced by a sequence of words.
pub open spec fn fnv_words(hash: u32, words: Seq<u32>) -> u32
    decreases words.len(),
{
    if words.len() == 0 {
        hash
    } else {
        fnv_words(fnv_word(hash, words[0]), words.skip(1))
    }
}

/// The physical-layer settings as words.
pub open spec fn phy_words() -> Seq<u32> {
    seq![5, 64, 128, 6_800, 9, 0, 0, 8]
}

/// The timing constants as words.
pub open spec fn timing_words() -> Seq<u32> {
    seq![
        PAN_ID as u32,
        VERSION as u32,
        MAX_FRAME_AIRTIME_US,
        SYNC_GUARD_US,
        SYNC_TAIL_GUARD_US,
        RESPONSE_GUARD_US,
        SUBSLOT_US,
        INTER_SLOT_GUARD_US,
        RX_TIMEOUT_US,
        ACTIVE_ANCHOR_COUNT as u32,
        ACTIVE_TAG_COUNT as u32,
    ]
}

/// A table of identifiers as words.
pub open spec fn id_words(ids: Seq<u16>) -> Seq<u32> {
    ids.map_values(|id: u16| id as u32)
}

/// Hash of everything the protocol fingerprint covers: the timing constants, then the two tables.
pub open spec fn protocol_hash() -> u32 {
    fnv_words(
        fnv_words(fnv_words(FNV_OFFSET, timing_words()), id_words(ANCHOR_IDS@)),
        id_words(TAG_IDS@),
    )
}

/// Advances an FNV-1a hash by the four bytes of `value`, least significant first.
pub fn fnv_u32(hash: u32, value: u32) -> (next: u32)
    ensures
        next == fnv_word(hash, value),
{
    let mut state: u32 = hash;
    let mut shift: u32 = 0;
    while shift < 32
        invariant
            shift == 0 || shift == 8 || shift == 16 || shift == 24 || shift == 32,
            state == (if shift == 0 {
                hash
            } else if shift == 8 {
                fnv_byte(hash, value & 0xff)
            } else if shift == 16 {
                fnv_byte(fnv_byte(hash, value & 0xff), (value >> 8) & 0xff)
            } else if shift == 24 {
                fnv_byte(
                    fnv_byte(fnv_byte(hash, value & 0xff), (value >> 8) & 0xff),
                    (value >> 16) & 0xff,
                )
            } else {
                fnv_word(hash, value)
            }),
        decreases 32 - shift,
    {
        let byte: u32 = (value >> shift) & 0xff;
        let mixed: u32 = state ^ byte;
        proof {
            assert(value >> 0u32 == value) by (bit_vector);
            assert((mixed * 0x0100_0193u32) as u32 == (mixed * 0x0100_0193u32) % 0x1_0000_0000)
                by (bit_vector);
        }
        state = mixed.wrapping_mul(FNV_PRIME);
        shift = shift + 8;
    }
    state
}

/// FNV-1a over the bytes of `words`, each least significant first.
pub fn fingerprint_words(words: &[u32]) -> (hash: u32)
    ensures
        hash == fnv_words(FNV_OFFSET, words@),
{
    let mut hash: u32 = FNV_OFFSET;
    let mut i: usize = 0;
    assert(words@.skip(0) =~= words@);
    while i < words.len()
        invariant
            i <= words@.len(),
            fnv_words(hash, words@.skip(i as int)) == fnv_words(FNV_OFFSET, words@),
        decreases words@.len() - i,
    {
        assert(words@.skip(i as int).skip(1) =~= words@.skip(i + 1));
        hash = fnv_u32(hash, words[i]);
        i = i + 1;
    }
    hash
}

/// Advances an FNV-1a hash by a table of identifiers.
fn fnv_ids(hash: u32, ids: &[u16]) -> (next: u32)
    ensures
        next == fnv_words(hash, id_words(ids@)),
{
    let mut state: u32 = hash;
    let mut i: usize = 0;
    let ghost words = id_words(ids@);
    assert(words.skip(0) =~= words);
    while i < ids.len()
        invariant
            i <= ids@.len(),
            words == id_words(ids@),
            fnv_words(state, words.skip(i as int)) == fnv_words(hash, words),
        decreases ids@.len() - i,
    {
        assert(words.skip(i as int).skip(1) =~= words.skip(i + 1));
        state = fnv_u32(state, ids[i] as u32);
        i = i + 1;
    }
    state
}

/// Computes the protocol fingerprint from the constants and tables themselves.
pub fn const_fingerprint() -> (hash: u32)
    ensures
        hash == protocol_hash(),
        hash == PROTOCOL_FINGERPRINT,
{
    let timing: [u32; 11] = [
        PAN_ID as u32,
        VERSION as u32,
        MAX_FRAME_AIRTIME_US,
        SYNC_GUARD_US,
        SYNC_TAIL_GUARD_US,
        RESPONSE_GUARD_US,
        SUBSLOT_US,
        INTER_SLOT_GUARD_US,
        RX_TIMEOUT_US,
        ACTIVE_ANCHOR_COUNT as u32,
        ACTIVE_TAG_COUNT as u32,
    ];
    assert(timing@ =~= timing_words());
    let hash: u32 = fnv_ids(fnv_ids(fingerprint_words(&timing), &ANCHOR_IDS), &TAG_IDS);
    proof {
        protocol_fingerprint_is_current();
    }
    hash
}

/// A hash advanced by four words.
spec fn four(hash: u32, a: u32, b: u32, c: u32, d: u32) -> u32 {
    fnv_word(fnv_word(fnv_word(fnv_word(hash, a), b), c), d)
}

/// The physical-layer fingerprint is the hash of the settings it documents.
pub proof fn phy_fingerprint_is_current()
    ensures
        fnv_words(FNV_OFFSET, phy_words()) == PHY_FINGERPRINT,
{
    reveal_with_fuel(fnv_words, 9);
    assert(four(four(FNV_OFFSET, 5, 64, 128, 6_800), 9, 0, 0, 8) == PHY_FINGERPRINT)
        by (bit_vector);
}

/// The protocol fingerprint is the hash of the constants and tables it covers.
pub proof fn protocol_fingerprint_is_current()
    ensures
        protocol_hash() == PROTOCOL_FINGERPRINT,
{
    assert(fnv_words(FNV_OFFSET, timing_words()) == 0x379F_FD8A) by {
        reveal_with_fuel(fnv_words, 12);
        assert(fnv_word(
            fnv_word(
                fnv_word(
                    four(four(FNV_OFFSET, 0x0D57, 2, 280, 3_000), 2_000, 800, 1_000, 400),
                    3_000,
                ),
                4,
            ),
            12,
        ) == 0x379F_FD8Au32) by (bit_vector);
    }
    assert(fnv_words(0x379F_FD8A, id_words(ANCHOR_IDS@)) == 0x6EEC_9C0E) by {
        reveal_with_fuel(fnv_words, 5);
        assert(four(0x379F_FD8A, 0xA001, 0xA002, 0xA003, 0xA004) == 0x6EEC_9C0Eu32)
            by (bit_vector);
    }
    assert(fnv_words(0x6EEC_9C0E, id_words(TAG_IDS@)) == PROTOCOL_FINGERPRINT) by {
        reveal_with_fuel(fnv_words, 13);
        assert(four(
            four(
                four(0x6EEC_9C0E, 0xB001, 0xB002, 0xB003, 0xB004),
                0xB005,
                0xB006,
                0xB007,
                0xB008,
            ),
            0xB009,
            0xB00A,
            0xB00B,
            0xB00C,
        ) == PROTOCOL_FINGERPRINT) by (bit_vector);
    }
}

/// Inverse of the multiplier modulo 2^32.
#[allow(dead_code)]
const FNV_INVERSE: u32 = 0x359C_449B;

/// A step loses nothing of the hash, nor of the byte mixed in.
proof fn byte_step_is_injective(hash_a: u32, byte_a: u32, hash_b: u32, byte_b: u32)
    requires
        fnv_byte(hash_a, byte_a) == fnv_byte(hash_b, byte_b),
    ensures
        hash_a ^ byte_a == hash_b ^ byte_b,
        hash_a == hash_b <==> byte_a == byte_b,
{
    let (x, y) = (hash_a ^ byte_a, hash_b ^ byte_b);
    assert((((x * FNV_PRIME) as u32) * FNV_INVERSE) as u32 == x) by (bit_vector);
    assert((((y * FNV_PRIME) as u32) * FNV_INVERSE) as u32 == y) by (bit_vector);
    assert(hash_a ^ byte_a == hash_b ^ byte_b ==> (hash_a == hash_b <==> byte_a == byte_b))
        by (bit_vector);
}

/// Whether two words are the same but for one byte, which differs.
pub open spec fn one_byte_apart(a: u32, b: u32) -> bool {
    let differing = a ^ b;
    differing != 0 && (differing & !0xffu32 == 0 || differing & !0xff00u32 == 0 || differing
        & !0xff_0000u32 == 0 || differing & !0xff00_0000u32 == 0)
}

/// A word loses nothing of the hash.
proof fn word_step_is_injective(hash_a: u32, hash_b: u32, word: u32)
    requires
        fnv_word(hash_a, word) == fnv_word(hash_b, word),
    ensures
        hash_a == hash_b,
{
    let (b0, b1, b2, b3) = (
        word & 0xff,
        (word >> 8) & 0xff,
        (word >> 16) & 0xff,
        (word >> 24) & 0xff,
    );
    let (a1, c1) = (fnv_byte(hash_a, b0), fnv_byte(hash_b, b0));
    let (a2, c2) = (fnv_byte(a1, b1), fnv_byte(c1, b1));
    let (a3, c3) = (fnv_byte(a2, b2), fnv_byte(c2, b2));
    byte_step_is_injective(a3, b3, c3, b3);
    byte_step_is_injective(a2, b2, c2, b2);
    byte_step_is_injective(a1, b1, c1, b1);
    byte_step_is_injective(hash_a, b0, hash_b, b0);
}

/// Words one byte apart lead to different hashes.
proof fn one_byte_apart_shows(hash: u32, a: u32, b: u32)
    requires
        one_byte_apart(a, b),
    ensures
        fnv_word(hash, a) != fnv_word(hash, b),
{
    if fnv_word(hash, a) == fnv_word(hash, b) {
        let (p0, p1, p2, p3) = (a & 0xff, (a >> 8) & 0xff, (a >> 16) & 0xff, (a >> 24) & 0xff);
        let (q0, q1, q2, q3) = (b & 0xff, (b >> 8) & 0xff, (b >> 16) & 0xff, (b >> 24) & 0xff);
        assert(one_byte_apart(a, b) ==> {
            let same0 = a & 0xff == b & 0xff;
            let same1 = (a >> 8) & 0xff == (b >> 8) & 0xff;
            let same2 = (a >> 16) & 0xff == (b >> 16) & 0xff;
            let same3 = (a >> 24) & 0xff == (b >> 24) & 0xff;
            ||| !same0 && same1 && same2 && same3
            ||| same0 && !same1 && same2 && same3
            ||| same0 && same1 && !same2 && same3
            ||| same0 && same1 && same2 && !same3
        }) by (bit_vector);
        let (a1, c1) = (fnv_byte(hash, p0), fnv_byte(hash, q0));
        let (a2, c2) = (fnv_byte(a1, p1), fnv_byte(c1, q1));
        let (a3, c3) = (fnv_byte(a2, p2), fnv_byte(c2, q2));
        byte_step_is_injective(a3, p3, c3, q3);
        if p3 == q3 {
            byte_step_is_injective(a2, p2, c2, q2);
            if p2 == q2 {
                byte_step_is_injective(a1, p1, c1, q1);
                if p1 == q1 {
                    byte_step_is_injective(hash, p0, hash, q0);
                }
            }
        }
    }
}

/// Words that follow lose nothing of the hash.
proof fn words_are_injective(hash_a: u32, hash_b: u32, words: Seq<u32>)
    requires
        hash_a != hash_b,
    ensures
        fnv_words(hash_a, words) != fnv_words(hash_b, words),
    decreases words.len(),
{
    if words.len() > 0 {
        if fnv_word(hash_a, words[0]) == fnv_word(hash_b, words[0]) {
            word_step_is_injective(hash_a, hash_b, words[0]);
        }
        words_are_injective(
            fnv_word(hash_a, words[0]),
            fnv_word(hash_b, words[0]),
            words.skip(1),
        );
    }
}

/// A disagreement about a single byte of a single setting always shows: two lists of settings that
/// are otherwise the same never have the same fingerprint.
pub proof fn one_changed_byte_changes_the_fingerprint(
    hash: u32,
    a: Seq<u32>,
    b: Seq<u32>,
    at: int,
)
    requires
        a.len() == b.len(),
        0 <= at < a.len(),
        one_byte_apart(a[at], b[at]),
        forall|i: int| 0 <= i < a.len() && i != at ==> a[i] == b[i],
    ensures
        fnv_words(hash, a) != fnv_words(hash, b),
    decreases a.len(),
{
    if at == 0 {
        one_byte_apart_shows(hash, a[0], b[0]);
        assert(a.skip(1) =~= b.skip(1));
        words_are_injective(fnv_word(hash, a[0]), fnv_word(hash, b[0]), a.skip(1));
    } else {
        one_changed_byte_changes_the_fingerprint(
            fnv_word(hash, a[0]),
            a.skip(1),
            b.skip(1),
            at - 1,
        );
    }
}

/// Hashing goes on where it left off: a list hashed in two parts has the hash of the whole.
pub proof fn hashing_can_be_continued(hash: u32, a: Seq<u32>, b: Seq<u32>)
    ensures
        fnv_words(hash, a + b) == fnv_words(fnv_words(hash, a), b),
    decreases a.len(),
{
    if a.len() == 0 {
        assert(a + b =~= b);
    } else {
        assert((a + b).skip(1) =~= a.skip(1) + b);
        hashing_can_be_continued(fnv_word(hash, a[0]), a.skip(1), b);
    }
}

} // verus!
