//! Two-way-ranging arithmetic.

use vstd::prelude::*;

use crate::rounding;
use crate::uwb::bytes;
use crate::uwb::clock::ClockRatio;
use crate::uwb::time;
use crate::uwb::time::elapsed;

verus! {

/// Nanometres of flight per clock tick: one tick is 15.65 ps, i.e. 4.691764 mm at the speed of
/// light.
pub const MM_PER_DWT_NUM: i128 = 4_691_764;

/// Scales `MM_PER_DWT_NUM` to millimetres.
pub const MM_PER_DWT_DEN: i128 = 1_000_000;

/// Whole millimetres light travels in `tof` ticks.
pub open spec fn flight_mm(tof: int) -> int {
    tof * MM_PER_DWT_NUM / (MM_PER_DWT_DEN as int)
}

/// A time of flight as a distance, if it is one: not negative and within `u32` millimetres.
pub open spec fn distance_of_flight(tof: int) -> Option<u32> {
    if tof < 0 || flight_mm(tof) > u32::MAX {
        None
    } else {
        Some(flight_mm(tof) as u32)
    }
}

/// What a single-sided exchange measures.
pub open spec fn ss_twr(
    poll_tx: int,
    poll_rx: int,
    response_tx: int,
    response_rx: int,
    ratio: ClockRatio,
) -> Option<u32> {
    let round_trip = time::ticks_between(response_rx, poll_tx);
    let reply = ratio.scaled(time::ticks_between(response_tx, poll_rx));
    if round_trip <= 0 || reply < 0 || reply > round_trip {
        None
    } else {
        distance_of_flight((round_trip - reply) / 2)
    }
}

/// The time of flight of a double-sided exchange: with two round trips and two replies,
/// `(Ra * Rb - Da * Db) / (Ra + Rb + Da + Db)`.
pub open spec fn ds_twr_flight(round_a: int, reply_a: int, round_b: int, reply_b: int) -> int {
    rounding::quotient(
        round_a * round_b - reply_a * reply_b,
        round_a + reply_a + round_b + reply_b,
    )
}

/// What a double-sided exchange measures.
pub open spec fn ds_twr(
    poll_tx: int,
    poll_rx: int,
    request_tx: int,
    request_rx: int,
    response_tx: int,
    response_rx: int,
) -> Option<u32> {
    let round_a = time::ticks_between(request_rx, poll_tx);
    let reply_a = time::ticks_between(response_tx, request_rx);
    let round_b = time::ticks_between(response_rx, request_tx);
    let reply_b = time::ticks_between(request_tx, poll_rx);
    if round_a + reply_a + round_b + reply_b <= 0 {
        None
    } else {
        distance_of_flight(ds_twr_flight(round_a, reply_a, round_b, reply_b))
    }
}

/// Converts a time of flight to millimetres.
fn flight_to_mm(tof: i128) -> (distance: Option<u32>)
    requires
        -0x1_0000_0000_0000_0000 <= tof <= 0x1_0000_0000_0000_0000,
    ensures
        distance == distance_of_flight(tof as int),
{
    if tof < 0 {
        return None;
    }
    let mm: i128 = tof * MM_PER_DWT_NUM / MM_PER_DWT_DEN;
    if mm > u32::MAX as i128 {
        None
    } else {
        Some(mm as u32)
    }
}

/// Computes the robot-side single-sided two-way-ranging result.
///
/// `poll_tx` and `response_rx` are in the robot's clock, `poll_rx` and `response_tx` in the
/// anchor's; `ratio` converts the latter pair's duration into the former's units.
///
/// `None` for a timestamp set that cannot describe a real flight: a round trip of zero, a reply
/// longer than the round trip, or a result that does not fit `u32` millimetres.
pub fn distance_mm_ss_twr(
    poll_tx: u64,
    poll_rx: u64,
    response_tx: u64,
    response_rx: u64,
    ratio: ClockRatio,
) -> (distance: Option<u32>)
    ensures
        distance == ss_twr(
            poll_tx as int,
            poll_rx as int,
            response_tx as int,
            response_rx as int,
            ratio,
        ),
{
    let round_trip: i128 = elapsed(response_rx, poll_tx) as i128;
    let remote: u64 = elapsed(response_tx, poll_rx);
    let reply: i128 = ratio.scale(remote);
    proof {
        let product = remote * ratio.offset_ppb;
        assert(-0x80_0000_0000_0000_0000 <= product <= 0x80_0000_0000_0000_0000)
            by (nonlinear_arith)
            requires
                product == remote * ratio.offset_ppb,
                0 <= remote <= 0x100_0000_0000,
                -0x8000_0000 <= ratio.offset_ppb <= 0x8000_0000,
        ;
    }
    if round_trip <= 0 || reply < 0 || reply > round_trip {
        return None;
    }
    // Two flights and one turnaround make up the round trip.
    let tof: i128 = (round_trip - reply) / 2;
    flight_to_mm(tof)
}

/// Computes the asymmetric double-sided two-way-ranging result, from all six timestamps of a
/// three-message exchange.
///
/// The two nodes' rate difference cancels algebraically instead of being corrected for.
pub fn distance_mm_ds_twr(
    poll_tx: u64,
    poll_rx: u64,
    request_tx: u64,
    request_rx: u64,
    response_tx: u64,
    response_rx: u64,
) -> (distance: Option<u32>)
    ensures
        distance == ds_twr(
            poll_tx as int,
            poll_rx as int,
            request_tx as int,
            request_rx as int,
            response_tx as int,
            response_rx as int,
        ),
{
    let round_anchor: i128 = elapsed(request_rx, poll_tx) as i128;
    let reply_anchor: i128 = elapsed(response_tx, request_rx) as i128;
    let round_tag: i128 = elapsed(response_rx, request_tx) as i128;
    let reply_tag: i128 = elapsed(request_tx, poll_rx) as i128;
    let denominator: i128 = round_anchor + reply_anchor + round_tag + reply_tag;
    if denominator <= 0 {
        return None;
    }
    proof {
        flight_is_bounded(
            round_anchor as int,
            reply_anchor as int,
            round_tag as int,
            reply_tag as int,
        );
    }
    let tof: i128 = (round_anchor * round_tag - reply_anchor * reply_tag) / denominator;
    flight_to_mm(tof)
}

/// Spans of at most one counter period give products and a time of flight far from overflow.
proof fn flight_is_bounded(round_a: int, reply_a: int, round_b: int, reply_b: int)
    requires
        0 <= round_a < bytes::TIME_MODULUS,
        0 <= reply_a < bytes::TIME_MODULUS,
        0 <= round_b < bytes::TIME_MODULUS,
        0 <= reply_b < bytes::TIME_MODULUS,
        round_a + reply_a + round_b + reply_b > 0,
    ensures
        0 <= round_a * round_b <= 0x1_0000_0000_0000_0000_0000,
        0 <= reply_a * reply_b <= 0x1_0000_0000_0000_0000_0000,
        -bytes::TIME_MODULUS <= ds_twr_flight(round_a, reply_a, round_b, reply_b)
            <= bytes::TIME_MODULUS,
{
    let m = bytes::TIME_MODULUS as int;
    let d = round_a + reply_a + round_b + reply_b;
    let n = round_a * round_b - reply_a * reply_b;
    assert(0 <= round_a * round_b <= round_a * m && round_a * m <= m * m) by (nonlinear_arith)
        requires
            0 <= round_a <= m,
            0 <= round_b <= m,
    ;
    assert(0 <= reply_a * reply_b <= reply_a * m && reply_a * m <= m * m) by (nonlinear_arith)
        requires
            0 <= reply_a <= m,
            0 <= reply_b <= m,
    ;
    assert(round_a * m <= d * m && reply_a * m <= d * m) by (nonlinear_arith)
        requires
            0 <= round_a <= d,
            0 <= reply_a <= d,
            0 <= m,
    ;
    assert(n >= 0 ==> n / d <= m) by (nonlinear_arith)
        requires
            n <= d * m,
            d > 0,
    ;
    assert(-n >= 0 ==> (-n) / d <= m) by (nonlinear_arith)
        requires
            -n <= d * m,
            d > 0,
    ;
    assert(n >= 0 ==> n / d >= 0) by (nonlinear_arith)
        requires
            d > 0,
    ;
    assert(-n >= 0 ==> (-n) / d >= 0) by (nonlinear_arith)
        requires
            d > 0,
    ;
}

/// A per-anchor range correction: a constant offset plus a distance-proportional term.
///
/// Both are what to subtract, so a positive `offset_mm` means the anchor reads long.
#[derive(Clone, Copy, Debug, PartialEq, Eq, Structural)]
pub struct RangeBias {
    pub offset_mm: i32,
    /// Parts per million of the measured range to subtract.
    pub scale_ppm: i32,
}

impl Default for RangeBias {
    fn default() -> (bias: Self)
        ensures
            bias == (RangeBias { offset_mm: 0, scale_ppm: 0 }),
    {
        RangeBias::none()
    }
}

impl RangeBias {
    /// No correction.
    pub fn none() -> (bias: RangeBias)
        ensures
            bias == (RangeBias { offset_mm: 0, scale_ppm: 0 }),
    {
        RangeBias { offset_mm: 0, scale_ppm: 0 }
    }

    /// The corrected range before it is forced into the range of `u32`.
    pub open spec fn unclamped(self, raw_mm: int) -> int {
        raw_mm - self.offset_mm - rounding::quotient(raw_mm * self.scale_ppm, 1_000_000)
    }

    /// The corrected range.
    pub open spec fn corrected(self, raw_mm: int) -> int {
        if self.unclamped(raw_mm) < 0 {
            0
        } else if self.unclamped(raw_mm) > u32::MAX {
            u32::MAX as int
        } else {
            self.unclamped(raw_mm)
        }
    }

    /// Applies the correction, saturating at zero and at `u32::MAX`.
    pub fn correct(self, raw_mm: u32) -> (corrected_mm: u32)
        ensures
            corrected_mm == self.corrected(raw_mm as int),
    {
        let raw: i64 = raw_mm as i64;
        let scale: i64 = self.scale_ppm as i64;
        assert(-0x8000_0000_0000_0000 <= raw * scale <= 0x7FFF_FFFF_FFFF_FFFF) by (nonlinear_arith)
            requires
                0 <= raw <= 0xFFFF_FFFF,
                -0x8000_0000 <= scale <= 0x7FFF_FFFF,
        ;
        let corrected: i64 = raw - self.offset_mm as i64 - (raw * scale) / 1_000_000;
        if corrected < 0 {
            0
        } else if corrected > u32::MAX as i64 {
            u32::MAX
        } else {
            corrected as u32
        }
    }
}

/// Ticks nearest to a range bias, a tie going away from zero.
pub open spec fn delay_delta(range_bias_mm: int) -> int {
    if range_bias_mm >= 0 {
        (range_bias_mm * 1_000_000 + 2_345_882) / 4_691_764
    } else {
        -((-range_bias_mm * 1_000_000 + 2_345_882) / 4_691_764)
    }
}

/// Converts a signed range bias into the symmetric receive/transmit register adjustment for one
/// node.
///
/// With both paths assigned the same value, a node contributes one tick to a pair's measured range
/// for every tick of register error.
pub fn symmetric_delay_delta_ticks(range_bias_mm: i32) -> (ticks: i32)
    ensures
        ticks == delay_delta(range_bias_mm as int),
{
    let numerator: i64 = range_bias_mm as i64 * 1_000_000;
    let denominator: i64 = 4_691_764;
    let rounded: i64 = if numerator >= 0 {
        (numerator + denominator / 2) / denominator
    } else {
        (numerator - denominator / 2) / denominator
    };
    rounded as i32
}

/// Only spans matter: moving the epoch of either node's clock, or letting it wrap, changes no
/// single-sided result.
pub proof fn ss_twr_ignores_epochs(
    poll_tx: int,
    poll_rx: int,
    response_tx: int,
    response_rx: int,
    ratio: ClockRatio,
    robot_shift: int,
    anchor_shift: int,
)
    ensures
        ss_twr(
            (poll_tx + robot_shift) % (bytes::TIME_MODULUS as int),
            (poll_rx + anchor_shift) % (bytes::TIME_MODULUS as int),
            (response_tx + anchor_shift) % (bytes::TIME_MODULUS as int),
            (response_rx + robot_shift) % (bytes::TIME_MODULUS as int),
            ratio,
        ) == ss_twr(poll_tx, poll_rx, response_tx, response_rx, ratio),
{
    span_ignores_epoch(response_rx, poll_tx, robot_shift);
    span_ignores_epoch(response_tx, poll_rx, anchor_shift);
}

/// Only spans matter: moving the epoch of either node's clock, or letting it wrap, changes no
/// double-sided result.
pub proof fn ds_twr_ignores_epochs(
    poll_tx: int,
    poll_rx: int,
    request_tx: int,
    request_rx: int,
    response_tx: int,
    response_rx: int,
    a_shift: int,
    b_shift: int,
)
    ensures
        ds_twr(
            (poll_tx + a_shift) % (bytes::TIME_MODULUS as int),
            (poll_rx + b_shift) % (bytes::TIME_MODULUS as int),
            (request_tx + b_shift) % (bytes::TIME_MODULUS as int),
            (request_rx + a_shift) % (bytes::TIME_MODULUS as int),
            (response_tx + a_shift) % (bytes::TIME_MODULUS as int),
            (response_rx + b_shift) % (bytes::TIME_MODULUS as int),
        ) == ds_twr(poll_tx, poll_rx, request_tx, request_rx, response_tx, response_rx),
{
    span_ignores_epoch(request_rx, poll_tx, a_shift);
    span_ignores_epoch(response_tx, request_rx, a_shift);
    span_ignores_epoch(response_rx, request_tx, b_shift);
    span_ignores_epoch(request_tx, poll_rx, b_shift);
}

/// A span survives a common shift and the wrap of both ends.
proof fn span_ignores_epoch(later: int, earlier: int, shift: int)
    ensures
        time::ticks_between(
            (later + shift) % (bytes::TIME_MODULUS as int),
            (earlier + shift) % (bytes::TIME_MODULUS as int),
        ) == time::ticks_between(later, earlier),
{
}

/// With equal clock rates, an exchange over a flight of `flight` ticks and a turnaround of `reply`
/// ticks measures exactly that flight.
pub proof fn ss_twr_recovers_the_flight(poll_tx: int, poll_rx: int, flight: int, reply: int)
    requires
        0 <= flight,
        0 <= reply,
        0 < 2 * flight + reply < bytes::TIME_MODULUS,
    ensures
        ss_twr(
            poll_tx,
            poll_rx,
            poll_rx + reply,
            poll_tx + 2 * flight + reply,
            ClockRatio { offset_ppb: 0 },
        ) == distance_of_flight(flight),
{
    let ratio = ClockRatio { offset_ppb: 0 };
    assert(time::ticks_between(poll_rx + reply, poll_rx) == reply);
    assert(time::ticks_between(poll_tx + 2 * flight + reply, poll_tx) == 2 * flight + reply);
    assert(reply * ratio.offset_ppb == 0) by (nonlinear_arith)
        requires
            ratio.offset_ppb == 0,
    ;
}

/// An error in the converted reply time enters the measured flight by half. Over a flight of
/// `flight` ticks and a turnaround that really takes `reply` ticks of the robot's clock, and
/// `remote` ticks of the anchor's, twice the measured flight is off by no more than the error of
/// the conversion and a rounded-off tick.
pub proof fn ss_twr_halves_the_reply_error(
    poll_tx: int,
    poll_rx: int,
    flight: int,
    reply: int,
    remote: int,
    ratio: ClockRatio,
)
    requires
        0 <= remote < bytes::TIME_MODULUS,
        0 < 2 * flight + reply < bytes::TIME_MODULUS,
        0 <= ratio.scaled(remote) <= 2 * flight + reply,
    ensures
        ({
            let measured = (2 * flight + reply - ratio.scaled(remote)) / 2;
            let error = reply - ratio.scaled(remote);
            &&& ss_twr(
                poll_tx,
                poll_rx,
                poll_rx + remote,
                poll_tx + 2 * flight + reply,
                ratio,
            ) == distance_of_flight(measured)
            &&& error - 1 <= 2 * measured - 2 * flight <= error
        }),
{
    assert(time::ticks_between(poll_rx + remote, poll_rx) == remote);
    assert(time::ticks_between(poll_tx + 2 * flight + reply, poll_tx) == 2 * flight + reply);
}

/// The double-sided formula cancels the two nodes' clock rates: with clocks running at rates
/// `rate_a` and `rate_b`, the result is the flight scaled by the harmonic mean of the two rates,
/// whatever the two turnaround times are.
pub proof fn ds_twr_cancels_clock_rates(
    flight: int,
    delay_a: int,
    delay_b: int,
    rate_a: int,
    rate_b: int,
)
    requires
        0 <= flight,
        0 <= delay_a,
        0 <= delay_b,
        0 < 2 * flight + delay_a + delay_b,
        0 < rate_a,
        0 < rate_b,
    ensures
        ds_twr_flight(
            rate_a * (2 * flight + delay_b),
            rate_a * delay_a,
            rate_b * (2 * flight + delay_a),
            rate_b * delay_b,
        ) == (2 * rate_a * rate_b * flight) / (rate_a + rate_b),
{
    let s = 2 * flight + delay_a + delay_b;
    let n = 2 * rate_a * rate_b * flight;
    let d = rate_a + rate_b;
    let round_a = rate_a * (2 * flight + delay_b);
    let reply_a = rate_a * delay_a;
    let round_b = rate_b * (2 * flight + delay_a);
    let reply_b = rate_b * delay_b;
    let x = 2 * flight + delay_b;
    let y = 2 * flight + delay_a;
    let rates = rate_a * rate_b;
    assert((rate_a * x) * (rate_b * y) == rates * (x * y)) by (nonlinear_arith)
        requires
            rates == rate_a * rate_b,
    ;
    assert((rate_a * delay_a) * (rate_b * delay_b) == rates * (delay_a * delay_b))
        by (nonlinear_arith)
        requires
            rates == rate_a * rate_b,
    ;
    assert(x * y - delay_a * delay_b == s * (2 * flight)) by (nonlinear_arith)
        requires
            x == 2 * flight + delay_b,
            y == 2 * flight + delay_a,
            s == 2 * flight + delay_a + delay_b,
    ;
    assert(rates * (x * y) - rates * (delay_a * delay_b) == rates * (x * y - delay_a * delay_b))
        by (nonlinear_arith);
    assert(rates * (s * (2 * flight)) == s * (2 * rates * flight)) by (nonlinear_arith);
    assert(2 * rates * flight == n) by (nonlinear_arith)
        requires
            n == 2 * rate_a * rate_b * flight,
            rates == rate_a * rate_b,
    ;
    assert(round_a + reply_a + round_b + reply_b == s * d) by (nonlinear_arith)
        requires
            s == 2 * flight + delay_a + delay_b,
            d == rate_a + rate_b,
            round_a == rate_a * (2 * flight + delay_b),
            reply_a == rate_a * delay_a,
            round_b == rate_b * (2 * flight + delay_a),
            reply_b == rate_b * delay_b,
    ;
    assert(0 <= 2 * rate_a * rate_b * flight) by (nonlinear_arith)
        requires
            0 < rate_a,
            0 < rate_b,
            0 <= flight,
    ;
    assert(0 <= s * n) by (nonlinear_arith)
        requires
            0 < s,
            0 <= n,
    ;
    vstd::arithmetic::div_mod::lemma_truncate_middle(n, s, d);
    vstd::arithmetic::div_mod::lemma_div_multiples_vanish_quotient(s, n, d);
}

/// Without a correction a range stays as measured.
pub proof fn no_bias_changes_nothing(raw_mm: int)
    ensures
        (RangeBias { offset_mm: 0, scale_ppm: 0 }).unclamped(raw_mm) == raw_mm,
{
    let bias = RangeBias { offset_mm: 0, scale_ppm: 0 };
    assert(raw_mm * bias.scale_ppm == 0) by (nonlinear_arith)
        requires
            bias.scale_ppm == 0,
    ;
}

/// The register adjustment is the tick count nearest to the bias, and opposite biases need opposite
/// adjustments.
pub proof fn delay_delta_is_nearest(range_bias_mm: int)
    ensures
        -2_345_882 <= delay_delta(range_bias_mm) * 4_691_764 - range_bias_mm * 1_000_000
            <= 2_345_882,
        delay_delta(-range_bias_mm) == -delay_delta(range_bias_mm),
{
}

/// A distance is what light travels in the time of flight, in whole millimetres: there is one for
/// every flight that is not negative and spans fewer than 2^32 of them.
pub proof fn distance_is_what_light_travels(tof: int)
    ensures
        distance_of_flight(tof) is Some <==> 0 <= tof && tof * 4_691_764 < 0x1_0000_0000
            * 1_000_000,
        distance_of_flight(tof) matches Some(mm) ==> mm * 1_000_000 <= tof * 4_691_764 < (mm + 1)
            * 1_000_000,
{
}

/// Over a flight of `flight` ticks, and a turnaround that takes `reply` ticks of the robot's clock
/// while the anchor counts `remote` ticks, a single-sided exchange measures that flight or one tick
/// less, for every ratio of the two clocks' rates.
pub proof fn ss_twr_recovers_the_flight_at_any_rate(
    poll_tx: int,
    poll_rx: int,
    flight: int,
    reply: int,
    remote: int,
    ratio: ClockRatio,
)
    requires
        1 <= flight,
        0 <= reply,
        0 <= remote < bytes::TIME_MODULUS,
        2 * flight + reply < bytes::TIME_MODULUS,
        -1_000_000_000 < ratio.offset_ppb,
        -1_000_000_000 < 1_000_000_000 * reply - remote * (1_000_000_000 + ratio.offset_ppb)
            < 1_000_000_000,
    ensures
        ({
            let measured = ss_twr(
                poll_tx,
                poll_rx,
                poll_rx + remote,
                poll_tx + 2 * flight + reply,
                ratio,
            );
            measured == distance_of_flight(flight) || measured == distance_of_flight(flight - 1)
        }),
{
    let s = ratio.scaled(remote);
    crate::uwb::clock::scaling_applies_the_rate(ratio, remote);
    assert(s >= 0) by {
        assert(0 <= remote * (1_000_000_000 + ratio.offset_ppb)) by (nonlinear_arith)
            requires
                0 <= remote,
                -1_000_000_000 < ratio.offset_ppb,
        ;
        assert(ratio.offset_ppb < 0 ==> remote * (1_000_000_000 + ratio.offset_ppb)
            <= 1_000_000_000 * s);
    }
    assert(-1 <= reply - s <= 1);
    time::spans_survive_the_wrap(poll_rx, remote);
    time::spans_survive_the_wrap(poll_tx, 2 * flight + reply);
}

/// A single-sided exchange gives a distance exactly if the round trip takes time, is no shorter
/// than the reply, and the rest of it is a flight of fewer than 2^32 millimetres. Half of that rest
/// is the flight.
pub proof fn ss_twr_accepts_real_flights_only(
    poll_tx: int,
    poll_rx: int,
    round_trip: int,
    remote: int,
    ratio: ClockRatio,
)
    requires
        0 <= round_trip < bytes::TIME_MODULUS,
        0 <= remote < bytes::TIME_MODULUS,
    ensures
        ({
            let measured = ss_twr(poll_tx, poll_rx, poll_rx + remote, poll_tx + round_trip, ratio);
            let rest = round_trip - ratio.scaled(remote);
            &&& measured is Some ==> 0 < round_trip && 0 <= rest <= round_trip
            &&& measured matches Some(mm) ==> mm * 2_000_000 <= rest * 4_691_764 < (mm + 1)
                * 2_000_000 + 4_691_764
            &&& 0 < round_trip && 0 <= rest <= round_trip && rest * 4_691_764 < 0x1_0000_0000
                * 2_000_000 ==> measured is Some
        }),
{
    time::spans_survive_the_wrap(poll_rx, remote);
    time::spans_survive_the_wrap(poll_tx, round_trip);
    let rest = round_trip - ratio.scaled(remote);
    assert(2 * (rest / 2) <= rest <= 2 * (rest / 2) + 1);
    distance_is_what_light_travels(rest / 2);
}

/// With every clock counting at its own constant rate, a double-sided exchange over a flight of
/// `flight` measures that flight at the harmonic mean of the two rates, whatever the turnaround
/// times and the epochs of the clocks are; with equal rates it is exactly the flight.
pub proof fn ds_twr_recovers_the_flight(
    epoch_a: int,
    epoch_b: int,
    flight: int,
    delay_b: int,
    delay_a: int,
    rate_a: int,
    rate_b: int,
)
    requires
        0 <= flight,
        0 <= delay_a,
        0 <= delay_b,
        0 < 2 * flight + delay_a + delay_b,
        0 < rate_a,
        0 < rate_b,
        rate_a * (2 * flight + delay_b) < bytes::TIME_MODULUS,
        rate_a * delay_a < bytes::TIME_MODULUS,
        rate_b * (2 * flight + delay_a) < bytes::TIME_MODULUS,
        rate_b * delay_b < bytes::TIME_MODULUS,
    ensures
        ds_twr(
            epoch_a,
            epoch_b,
            epoch_b + rate_b * delay_b,
            epoch_a + rate_a * (2 * flight + delay_b),
            epoch_a + rate_a * (2 * flight + delay_b) + rate_a * delay_a,
            epoch_b + rate_b * delay_b + rate_b * (2 * flight + delay_a),
        ) == distance_of_flight((2 * rate_a * rate_b * flight) / (rate_a + rate_b)),
        (2 * rate_a * rate_a * flight) / (rate_a + rate_a) == rate_a * flight,
{
    let round_a = rate_a * (2 * flight + delay_b);
    let reply_a = rate_a * delay_a;
    let round_b = rate_b * (2 * flight + delay_a);
    let reply_b = rate_b * delay_b;
    assert(0 <= round_a && 0 <= reply_a && 0 <= round_b && 0 <= reply_b) by (nonlinear_arith)
        requires
            0 <= flight,
            0 <= delay_a,
            0 <= delay_b,
            0 < rate_a,
            0 < rate_b,
            round_a == rate_a * (2 * flight + delay_b),
            reply_a == rate_a * delay_a,
            round_b == rate_b * (2 * flight + delay_a),
            reply_b == rate_b * delay_b,
    ;
    assert(0 < round_a + reply_a) by (nonlinear_arith)
        requires
            0 < 2 * flight + delay_a + delay_b,
            0 <= delay_a,
            0 <= 2 * flight + delay_b,
            0 < rate_a,
            round_a == rate_a * (2 * flight + delay_b),
            reply_a == rate_a * delay_a,
    ;
    time::spans_survive_the_wrap(epoch_a, round_a);
    time::spans_survive_the_wrap(epoch_a + round_a, reply_a);
    time::spans_survive_the_wrap(epoch_b, reply_b);
    time::spans_survive_the_wrap(epoch_b + reply_b, round_b);
    ds_twr_cancels_clock_rates(flight, delay_a, delay_b, rate_a, rate_b);
    assert(2 * rate_a * rate_a * flight == (rate_a * flight) * (rate_a + rate_a))
        by (nonlinear_arith);
    vstd::arithmetic::div_mod::lemma_div_by_multiple(rate_a * flight, rate_a + rate_a);
}

/// The double-sided flight balances the exchange to within its own fraction: multiplied by the sum
/// of the four spans it is the product of the round trips less that of the replies. Exchanging the
/// two nodes does not change it.
pub proof fn ds_twr_flight_balances_the_spans(
    round_a: int,
    reply_a: int,
    round_b: int,
    reply_b: int,
)
    requires
        0 < round_a + reply_a + round_b + reply_b,
    ensures
        ({
            let sum = round_a + reply_a + round_b + reply_b;
            let lost = round_a * round_b - reply_a * reply_b - sum * ds_twr_flight(
                round_a,
                reply_a,
                round_b,
                reply_b,
            );
            &&& round_a * round_b >= reply_a * reply_b ==> 0 <= lost < sum
            &&& round_a * round_b <= reply_a * reply_b ==> -sum < lost <= 0
        }),
        ds_twr_flight(round_b, reply_b, round_a, reply_a) == ds_twr_flight(
            round_a,
            reply_a,
            round_b,
            reply_b,
        ),
{
    rounding::remainder_keeps_the_sign(
        round_a * round_b - reply_a * reply_b,
        round_a + reply_a + round_b + reply_b,
    );
    assert(round_a * round_b == round_b * round_a) by (nonlinear_arith);
    assert(reply_a * reply_b == reply_b * reply_a) by (nonlinear_arith);
}

/// Correction undoes the bias: a true range `true_mm` that an anchor reads `offset_mm` too long, or
/// too short where that is negative, comes out true. Whatever the scale, an anchor that reads one
/// more millimetre long is corrected by one more.
pub proof fn correction_undoes_the_offset(true_mm: int, bias: RangeBias, other: RangeBias)
    requires
        other.offset_mm == bias.offset_mm - 1,
        other.scale_ppm == bias.scale_ppm,
    ensures
        bias.scale_ppm == 0 ==> bias.unclamped(true_mm + bias.offset_mm) == true_mm,
        bias.scale_ppm == 0 && 0 <= true_mm <= u32::MAX ==> bias.corrected(
            true_mm + bias.offset_mm,
        ) == true_mm,
        other.unclamped(true_mm) == bias.unclamped(true_mm) + 1,
{
    assert(bias.scale_ppm == 0 ==> (true_mm + bias.offset_mm) * bias.scale_ppm == 0)
        by (nonlinear_arith);
}

/// The scale takes its parts per million of the measured range off, or adds them where it is
/// negative, with the fraction of a millimetre left to the range.
pub proof fn correction_takes_off_the_scale(raw_mm: int, bias: RangeBias)
    requires
        0 <= raw_mm,
    ensures
        ({
            let taken = raw_mm - bias.offset_mm - bias.unclamped(raw_mm);
            let lost = raw_mm * bias.scale_ppm - 1_000_000 * taken;
            &&& bias.scale_ppm >= 0 ==> 0 <= lost < 1_000_000
            &&& bias.scale_ppm <= 0 ==> -1_000_000 < lost <= 0
        }),
{
    let product = raw_mm * bias.scale_ppm;
    rounding::remainder_keeps_the_sign(product, 1_000_000);
    assert(bias.scale_ppm >= 0 ==> product >= 0) by (nonlinear_arith)
        requires
            product == raw_mm * bias.scale_ppm,
            0 <= raw_mm,
    ;
    assert(bias.scale_ppm <= 0 ==> product <= 0) by (nonlinear_arith)
        requires
            product == raw_mm * bias.scale_ppm,
            0 <= raw_mm,
    ;
}

/// A corrected range is the nearest one that `u32` can hold.
pub proof fn correction_saturates(raw_mm: int, bias: RangeBias)
    ensures
        0 <= bias.corrected(raw_mm) <= 0xFFFF_FFFF,
        bias.corrected(raw_mm) < bias.unclamped(raw_mm) ==> bias.corrected(raw_mm) == 0xFFFF_FFFF,
        bias.corrected(raw_mm) > bias.unclamped(raw_mm) ==> bias.corrected(raw_mm) == 0,
{
}

} // verus!
