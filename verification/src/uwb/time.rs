//! Arithmetic on the radio's 40-bit tick counter.

use vstd::prelude::*;

use crate::uwb::bytes;
use crate::uwb::bytes::{TIME_MASK, TIME_MODULUS};

verus! {

/// Ticks the radio's counter advances in `us` microseconds: the counter runs at 638976 ticks per
/// 10000 ns, rounded to the nearest tick.
pub open spec fn ticks_of_us(us: int) -> int {
    (us * 1_000 * 638_976 + 5_000) / 10_000
}

/// Ticks from `earlier` to `later` on a counter that wraps at 40 bits.
pub open spec fn ticks_between(later: int, earlier: int) -> int {
    (later - earlier) % (TIME_MODULUS as int)
}

/// The instant `delay_us` after `base`, rounded down to the granularity of a delayed transmission:
/// the radio ignores the low 9 bits of the programmed instant.
pub open spec fn delayed_instant(base: int, delay_us: int) -> int {
    let raw = (base + ticks_of_us(delay_us)) % (TIME_MODULUS as int);
    raw - raw % 512
}

/// The transmit timestamp of a frame programmed at `scheduled`, through an antenna delay.
pub open spec fn stamped(scheduled: int, tx_antenna_delay: u16) -> u64 {
    ((scheduled + tx_antenna_delay) % (TIME_MODULUS as int)) as u64
}

/// Converts microseconds to radio ticks.
pub fn ticks_from_us(us: u32) -> (ticks: u64)
    ensures
        ticks == ticks_of_us(us as int),
{
    let nanos = (us as u64) * 1_000;
    (nanos * 638_976 + 5_000) / 10_000
}

/// The tick the radio reports for a delayed transmission programmed at `scheduled_ticks`, given the
/// configured transmit antenna delay.
///
/// The programmed instant says when the frame leaves the digital transmitter; the timestamp that
/// ranging must use is that instant plus the antenna delay.
pub fn delayed_tx_timestamp(scheduled_ticks: u64, tx_antenna_delay: u16) -> (ticks: u64)
    requires
        scheduled_ticks + tx_antenna_delay <= u64::MAX,
    ensures
        ticks == stamped(scheduled_ticks as int, tx_antenna_delay),
{
    let sum: u64 = scheduled_ticks + tx_antenna_delay as u64;
    proof {
        bytes::mask_is_remainder(sum);
    }
    sum & TIME_MASK
}

/// `base_ticks` plus `delay_us`, rounded down to the granularity of a delayed transmission.
pub fn delayed_after(base_ticks: u64, delay_us: u32) -> (ticks: u64)
    requires
        base_ticks + ticks_of_us(delay_us as int) <= u64::MAX,
    ensures
        ticks == delayed_instant(base_ticks as int, delay_us as int),
{
    let sum: u64 = base_ticks + ticks_from_us(delay_us);
    proof {
        bytes::mask_is_remainder(sum);
    }
    let raw = sum & TIME_MASK;
    assert(raw & !0x1ffu64 == raw - raw % 512) by (bit_vector);
    raw & !0x1ff
}

/// Ticks from `earlier` to `later`, modulo the counter's period.
pub fn elapsed(later: u64, earlier: u64) -> (ticks: u64)
    ensures
        ticks == ticks_between(later as int, earlier as int),
        ticks < TIME_MODULUS,
{
    let difference: u64 = later.wrapping_sub(earlier);
    proof {
        bytes::mask_is_remainder(difference);
        assert(difference == later - earlier || difference == later - earlier
            + 0x1_0000_0000_0000_0000);
    }
    difference & TIME_MASK
}

/// A delayed transmission is programmed at a 40-bit instant the radio can represent, fewer than 512
/// ticks before the requested one.
pub proof fn delayed_instant_is_programmable(base: int, delay_us: int)
    ensures
        0 <= delayed_instant(base, delay_us) < TIME_MODULUS,
        delayed_instant(base, delay_us) % 512 == 0,
        ticks_between(base + ticks_of_us(delay_us), delayed_instant(base, delay_us)) < 512,
{
}

/// From an instant the radio can represent, a delay comes out the same number of ticks long every
/// time: its own length rounded down to the granularity of a delayed transmission.
pub proof fn aligned_delay_is_exact(base: int, delay_us: int)
    requires
        0 <= base < TIME_MODULUS,
        base % 512 == 0,
        0 <= ticks_of_us(delay_us) < TIME_MODULUS,
    ensures
        ticks_between(delayed_instant(base, delay_us), base) == ticks_of_us(delay_us) - ticks_of_us(
            delay_us,
        ) % 512,
{
    let t = ticks_of_us(delay_us);
    round_down_after_aligned(base, t);
}

/// Adding `t` to an aligned instant and rounding down advances it by `t` rounded down.
proof fn round_down_after_aligned(base: int, t: int)
    requires
        0 <= base < TIME_MODULUS,
        base % 512 == 0,
        0 <= t < TIME_MODULUS,
    ensures
        ({
            let raw = (base + t) % (TIME_MODULUS as int);
            ticks_between(raw - raw % 512, base) == t - t % 512
        }),
{
    let m = TIME_MODULUS as int;
    let raw = (base + t) % m;
    let step = t - t % 512;
    assert(raw == if base + t < m { base + t } else { base + t - m }) by {
        if base + t < m {
            vstd::arithmetic::div_mod::lemma_small_mod((base + t) as nat, m as nat);
        } else {
            vstd::arithmetic::div_mod::lemma_mod_add_multiples_vanish(base + t - m, m);
            vstd::arithmetic::div_mod::lemma_small_mod((base + t - m) as nat, m as nat);
        }
    }
    assert(raw % 512 == t % 512);
    let rounded = raw - raw % 512;
    assert(rounded - base == step || rounded - base == step - m);
    vstd::arithmetic::div_mod::lemma_small_mod(step as nat, m as nat);
    vstd::arithmetic::div_mod::lemma_mod_add_multiples_vanish(step - m, m);
}

/// Instants count modulo the counter's period: moving a timestamp by a whole number of periods
/// changes neither an elapsed time nor a programmed instant.
pub proof fn wrapping_is_invisible(later: int, earlier: int, delay_us: int, turns: int)
    ensures
        ticks_between(later + turns * TIME_MODULUS, earlier) == ticks_between(later, earlier),
        ticks_between(later, earlier + turns * TIME_MODULUS) == ticks_between(later, earlier),
        delayed_instant(later + turns * TIME_MODULUS, delay_us) == delayed_instant(later, delay_us),
{
    let m = TIME_MODULUS as int;
    vstd::arithmetic::div_mod::lemma_mod_multiples_vanish(turns, later - earlier, m);
    vstd::arithmetic::div_mod::lemma_mod_multiples_vanish(-turns, later - earlier, m);
    vstd::arithmetic::div_mod::lemma_mod_multiples_vanish(turns, later + ticks_of_us(delay_us), m);
    assert(m * turns == turns * m) by (nonlinear_arith);
    assert(m * (-turns) == -(turns * m)) by (nonlinear_arith);
}

/// A microsecond count converts to within half a tick of its exact length.
pub proof fn ticks_are_nearest(us: int)
    ensures
        -5_000 <= ticks_of_us(us) * 10_000 - us * 638_976_000 <= 5_000,
{
}

/// An elapsed time is recovered whole, however the counter wraps in between, as long as it is
/// shorter than the counter's period.
pub proof fn spans_survive_the_wrap(earlier: int, span: int)
    requires
        0 <= span < TIME_MODULUS,
    ensures
        ticks_between(earlier + span, earlier) == span,
        ticks_between((earlier + span) % (TIME_MODULUS as int), earlier) == span,
{
}

/// A frame's timestamp lies one antenna delay behind its programmed instant, on the 40-bit counter.
pub proof fn timestamp_follows_the_instant(scheduled: int, tx_antenna_delay: u16)
    ensures
        0 <= stamped(scheduled, tx_antenna_delay) < TIME_MODULUS,
        ticks_between(stamped(scheduled, tx_antenna_delay) as int, scheduled) == tx_antenna_delay,
{
}

/// Whether an instant is the one to program for `delay_us` microseconds after `base`: one the radio
/// can represent, at most its granularity early on the 40-bit counter of 63897.6 ticks a
/// microsecond.
pub open spec fn falls_due(at_ticks: int, base: int, delay_us: int) -> bool {
    &&& 0 <= at_ticks < 0x100_0000_0000
    &&& at_ticks % 512 == 0
    &&& (base + (delay_us * 638_976 + 5) / 10 - at_ticks) % 0x100_0000_0000 < 512
}

/// The instant programmed for a delay is the one that falls due, and the only one.
pub proof fn delayed_instant_falls_due(base: int, delay_us: int, at_ticks: int)
    ensures
        falls_due(delayed_instant(base, delay_us), base, delay_us),
        falls_due(at_ticks, base, delay_us) ==> at_ticks == delayed_instant(base, delay_us),
{
    let m = 0x100_0000_0000int;
    let due = base + (delay_us * 638_976 + 5) / 10;
    let raw = due % m;
    assert(ticks_of_us(delay_us) == (delay_us * 638_976 + 5) / 10);
    let at = delayed_instant(base, delay_us);
    assert(at == raw - raw % 512);
    assert((due - at) % m == raw % 512);
    if falls_due(at_ticks, base, delay_us) {
        assert((due - at_ticks) % m < 512);
        let early = (due - at_ticks) % m;
        assert(raw - at_ticks == early || raw - at_ticks == early - m);
    }
}

} // verus!
