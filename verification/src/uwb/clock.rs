//! Clock-rate ratio between two nodes, estimated from timestamps the protocol already carries.

use vstd::prelude::*;

use crate::rounding;
use crate::uwb::time;
use crate::uwb::time::{elapsed, ticks_from_us};

verus! {

/// The ratio between two nodes' clock rates, as a signed offset from 1 in parts per billion.
///
/// `local_rate / remote_rate = 1 + offset_ppb * 1e-9`.
#[derive(Clone, Copy, Debug, PartialEq, Eq, Structural)]
pub struct ClockRatio {
    pub offset_ppb: i32,
}

impl Default for ClockRatio {
    fn default() -> (ratio: Self)
        ensures
            ratio == (ClockRatio { offset_ppb: 0 }),
    {
        ClockRatio::ideal()
    }
}

impl ClockRatio {
    /// Two clocks assumed to run at exactly the same rate.
    ///
    /// Only correct as a starting point, before any baseline exists: a range computed with it can
    /// be metres out. `ClockRatioTracker::is_converged` tells the difference.
    pub fn ideal() -> (ratio: ClockRatio)
        ensures
            ratio == (ClockRatio { offset_ppb: 0 }),
    {
        ClockRatio { offset_ppb: 0 }
    }

    /// A duration of `remote_ticks` remote ticks, in local ticks.
    pub open spec fn scaled(self, remote_ticks: int) -> int {
        remote_ticks + rounding::quotient(remote_ticks * self.offset_ppb, 1_000_000_000)
    }

    /// Converts a duration measured in the remote node's ticks into this node's ticks.
    pub fn scale(self, remote_ticks: u64) -> (ticks: i128)
        ensures
            ticks == self.scaled(remote_ticks as int),
    {
        let ticks: i128 = remote_ticks as i128;
        assert(-0x8000_0000_0000_0000_0000_0000 <= ticks * self.offset_ppb
            <= 0x8000_0000_0000_0000_0000_0000) by (nonlinear_arith)
            requires
                0 <= ticks <= 0x1_0000_0000_0000_0000,
                -0x8000_0000 <= self.offset_ppb <= 0x8000_0000,
        ;
        ticks + (ticks * self.offset_ppb as i128) / 1_000_000_000
    }
}

/// What a `ClockRatioTracker` remembers.
pub struct TrackerState {
    /// The reference `(remote, local)` timestamp pair, once there is one.
    pub baseline: Option<(u64, u64)>,
    /// The current estimate.
    pub offset_ppb: int,
    /// How many baselines have produced an estimate, counted up to `u32::MAX`.
    pub estimates: int,
}

impl TrackerState {
    /// A tracker that has seen nothing.
    pub open spec fn initial() -> TrackerState {
        TrackerState { baseline: None, offset_ppb: 0, estimates: 0 }
    }

    /// The estimate is plausible, and ideal until some baseline has produced one.
    pub open spec fn wf(self) -> bool {
        &&& -ClockRatioTracker::MAX_ABS_PPB <= self.offset_ppb <= ClockRatioTracker::MAX_ABS_PPB
        &&& self.estimates == 0 ==> self.offset_ppb == 0
        &&& 0 <= self.estimates <= u32::MAX
    }

    /// Rate offset between two spans, `(local - remote) / remote` in parts per billion.
    pub open spec fn drift_ppb(d_remote: int, d_local: int) -> int {
        rounding::quotient((d_local - d_remote) * 1_000_000_000, d_remote)
    }

    /// Whether a rate offset can come from two real crystals.
    pub open spec fn plausible(ppb: int) -> bool {
        -ClockRatioTracker::MAX_ABS_PPB <= ppb <= ClockRatioTracker::MAX_ABS_PPB
    }

    /// The state after one more timestamp pair.
    ///
    /// Without a baseline the pair becomes the baseline. A pair less than `MIN_BASELINE_US` later
    /// is ignored. An implausible one drops the baseline. Any other one moves the estimate, all the
    /// way the first time and a quarter of the way later, and becomes the new baseline once the old
    /// one is `MAX_BASELINE_US` old.
    pub open spec fn fold(self, remote: u64, local: u64) -> TrackerState {
        match self.baseline {
            None => TrackerState { baseline: Some((remote, local)), ..self },
            Some((base_remote, base_local)) => {
                let d_remote = time::ticks_between(remote as int, base_remote as int);
                let d_local = time::ticks_between(local as int, base_local as int);
                let ppb = TrackerState::drift_ppb(d_remote, d_local);
                if d_remote < time::ticks_of_us(ClockRatioTracker::MIN_BASELINE_US as int) {
                    self
                } else if !TrackerState::plausible(ppb) {
                    TrackerState { baseline: None, ..self }
                } else {
                    TrackerState {
                        baseline: if d_remote >= time::ticks_of_us(
                            ClockRatioTracker::MAX_BASELINE_US as int,
                        ) {
                            Some((remote, local))
                        } else {
                            self.baseline
                        },
                        offset_ppb: if self.estimates == 0 {
                            ppb
                        } else {
                            self.offset_ppb + rounding::quotient(
                                ppb - self.offset_ppb,
                                ClockRatioTracker::BLEND_DIVISOR as int,
                            )
                        },
                        estimates: if self.estimates == u32::MAX {
                            self.estimates
                        } else {
                            self.estimates + 1
                        },
                    }
                }
            },
        }
    }
}

/// Estimates one remote node's clock rate relative to the local one.
///
/// Every `Response` pairs a remote timestamp with a local one; two such pairs a while apart give
/// the rate ratio directly.
#[derive(Clone, Copy, Debug)]
pub struct ClockRatioTracker {
    baseline: Option<(u64, u64)>,
    ratio: ClockRatio,
    estimates: u32,
}

impl View for ClockRatioTracker {
    type V = TrackerState;

    closed spec fn view(&self) -> TrackerState {
        TrackerState {
            baseline: self.baseline,
            offset_ppb: self.ratio.offset_ppb as int,
            estimates: self.estimates as int,
        }
    }
}

impl Default for ClockRatioTracker {
    fn default() -> (tracker: Self)
        ensures
            tracker@ == TrackerState::initial(),
    {
        ClockRatioTracker { baseline: None, ratio: ClockRatio::ideal(), estimates: 0 }
    }
}

impl ClockRatioTracker {
    /// Shortest baseline that produces a usable ratio, in microseconds.
    pub const MIN_BASELINE_US: u32 = 50_000;

    /// Longest baseline before the reference pair is moved forward, in microseconds.
    ///
    /// Far short of the 40-bit counter's 17.2 s wrap, where an elapsed time would alias.
    pub const MAX_BASELINE_US: u32 = 1_000_000;

    /// Ratios beyond this are rejected as bad samples rather than believed.
    pub const MAX_ABS_PPB: i64 = 200_000;

    /// Weight of a new estimate against the running one, as a divisor.
    pub const BLEND_DIVISOR: i64 = 4;

    #[verifier::type_invariant]
    closed spec fn type_inv(self) -> bool {
        self@.wf()
    }

    /// Folds one `(remote, local)` timestamp pair in and returns the current best ratio.
    pub fn update(&mut self, remote_ticks: u64, local_ticks: u64) -> (ratio: ClockRatio)
        ensures
            final(self)@ == old(self)@.fold(remote_ticks, local_ticks),
            ratio.offset_ppb == final(self)@.offset_ppb,
    {
        proof {
            use_type_invariant(&*self);
        }
        let (base_remote, base_local) = match self.baseline {
            Some(pair) => pair,
            None => {
                self.baseline = Some((remote_ticks, local_ticks));
                return self.ratio;
            },
        };
        let d_remote: u64 = elapsed(remote_ticks, base_remote);
        let d_local: u64 = elapsed(local_ticks, base_local);
        if d_remote < ticks_from_us(Self::MIN_BASELINE_US) {
            return self.ratio;
        }
        let drift: i128 = d_local as i128 - d_remote as i128;
        let wide_ppb: i128 = (drift * 1_000_000_000) / d_remote as i128;
        if wide_ppb > Self::MAX_ABS_PPB as i128 || wide_ppb < -(Self::MAX_ABS_PPB as i128) {
            // Not a plausible pair. Whichever of the two is wrong, keeping the baseline would keep
            // producing rejected estimates.
            self.baseline = None;
            return self.ratio;
        }
        let ppb: i64 = wide_ppb as i64;
        let offset_ppb: i32 = if self.estimates == 0 {
            ppb as i32
        } else {
            let previous: i64 = self.ratio.offset_ppb as i64;
            (previous + (ppb - previous) / Self::BLEND_DIVISOR) as i32
        };
        let baseline = if d_remote >= ticks_from_us(Self::MAX_BASELINE_US) {
            Some((remote_ticks, local_ticks))
        } else {
            self.baseline
        };
        *self = ClockRatioTracker {
            baseline,
            ratio: ClockRatio { offset_ppb },
            estimates: self.estimates.saturating_add(1),
        };
        self.ratio
    }

    /// The current ratio, without folding in a new sample.
    pub fn ratio(&self) -> (ratio: ClockRatio)
        ensures
            ratio.offset_ppb == self@.offset_ppb,
            self@.wf(),
    {
        proof {
            use_type_invariant(self);
        }
        self.ratio
    }

    /// Whether at least one baseline has produced an estimate.
    ///
    /// Until this is true the ratio is the ideal one.
    pub fn is_converged(&self) -> (converged: bool)
        ensures
            converged == (self@.estimates > 0),
            !converged ==> self@.offset_ppb == 0,
    {
        proof {
            use_type_invariant(self);
        }
        self.estimates > 0
    }

    /// Forgets everything. Call when the radio is re-initialized: its counter restarts, so the
    /// stored baseline no longer refers to the same epoch.
    pub fn reset(&mut self)
        ensures
            final(self)@ == TrackerState::initial(),
    {
        *self = ClockRatioTracker::default();
    }
}

/// Every estimate a tracker ever holds is plausible, and ideal until a baseline has produced one.
pub proof fn estimates_stay_plausible(state: TrackerState, remote: u64, local: u64)
    requires
        state.wf(),
    ensures
        TrackerState::initial().wf(),
        state.fold(remote, local).wf(),
{
}

/// An implausible pair never moves the estimate; it only costs the baseline.
pub proof fn implausible_pair_moves_nothing(
    state: TrackerState,
    base: (u64, u64),
    remote: u64,
    local: u64,
)
    requires
        state.baseline == Some(base),
        !TrackerState::plausible(
            TrackerState::drift_ppb(
                time::ticks_between(remote as int, base.0 as int),
                time::ticks_between(local as int, base.1 as int),
            ),
        ),
        time::ticks_between(remote as int, base.0 as int) >= time::ticks_of_us(50_000),
    ensures
        state.fold(remote, local).offset_ppb == state.offset_ppb,
        state.fold(remote, local).estimates == state.estimates,
        state.fold(remote, local).baseline is None,
{
}

/// A pair that follows its baseline by less than the shortest usable span changes nothing.
pub proof fn short_baseline_changes_nothing(
    state: TrackerState,
    base: (u64, u64),
    remote: u64,
    local: u64,
)
    requires
        state.baseline == Some(base),
        time::ticks_between(remote as int, base.0 as int) < time::ticks_of_us(50_000),
    ensures
        state.fold(remote, local) == state,
{
}

/// A measured rate offset never makes the estimate overshoot: the new one lies between the old one
/// and the measured one.
pub proof fn blending_never_overshoots(
    state: TrackerState,
    base: (u64, u64),
    remote: u64,
    local: u64,
)
    requires
        state.wf(),
        state.baseline == Some(base),
    ensures
        ({
            let measured = TrackerState::drift_ppb(
                time::ticks_between(remote as int, base.0 as int),
                time::ticks_between(local as int, base.1 as int),
            );
            let after = state.fold(remote, local).offset_ppb;
            ||| state.offset_ppb <= after <= measured
            ||| measured <= after <= state.offset_ppb
            ||| after == state.offset_ppb
        }),
{
}

/// The first baseline to produce an estimate produces exactly the rate offset it measures, and
/// every later one takes the estimate closer to what it measures, unless they already agree to
/// within the resolution of the blend.
pub proof fn estimates_approach_the_measured_rate(
    state: TrackerState,
    base: (u64, u64),
    remote: u64,
    local: u64,
)
    requires
        state.wf(),
        state.baseline == Some(base),
        time::ticks_between(remote as int, base.0 as int) >= time::ticks_of_us(50_000),
        TrackerState::plausible(
            TrackerState::drift_ppb(
                time::ticks_between(remote as int, base.0 as int),
                time::ticks_between(local as int, base.1 as int),
            ),
        ),
    ensures
        ({
            let measured = TrackerState::drift_ppb(
                time::ticks_between(remote as int, base.0 as int),
                time::ticks_between(local as int, base.1 as int),
            );
            let before = state.offset_ppb;
            let after = state.fold(remote, local).offset_ppb;
            &&& state.estimates == 0 ==> after == measured
            &&& measured - before >= 4 ==> 0 <= measured - after < measured - before
            &&& before - measured >= 4 ==> 0 <= after - measured < before - measured
            &&& state.fold(remote, local).estimates > 0
        }),
{
}

/// The first pair of a fresh or reset tracker only becomes the baseline.
pub proof fn first_pair_becomes_the_baseline(remote: u64, local: u64)
    ensures
        TrackerState::initial().fold(remote, local) == (TrackerState {
            baseline: Some((remote, local)),
            offset_ppb: 0,
            estimates: 0,
        }),
{
}

/// A converted duration is the measured one at the rate of the ratio, to within a tick, and the
/// fraction of a tick is lost from the correction, never from the duration itself.
pub proof fn scaling_applies_the_rate(ratio: ClockRatio, remote_ticks: int)
    requires
        0 <= remote_ticks,
    ensures
        ({
            let lost = remote_ticks * (1_000_000_000 + ratio.offset_ppb) - 1_000_000_000
                * ratio.scaled(remote_ticks);
            &&& ratio.offset_ppb >= 0 ==> 0 <= lost < 1_000_000_000
            &&& ratio.offset_ppb <= 0 ==> -1_000_000_000 < lost <= 0
        }),
{
    let correction = remote_ticks * ratio.offset_ppb;
    rounding::remainder_keeps_the_sign(correction, 1_000_000_000);
    assert(remote_ticks * (1_000_000_000 + ratio.offset_ppb) == 1_000_000_000 * remote_ticks
        + correction) by (nonlinear_arith)
        requires
            correction == remote_ticks * ratio.offset_ppb,
    ;
    assert(ratio.offset_ppb >= 0 ==> correction >= 0) by (nonlinear_arith)
        requires
            correction == remote_ticks * ratio.offset_ppb,
            0 <= remote_ticks,
    ;
    assert(ratio.offset_ppb <= 0 ==> correction <= 0) by (nonlinear_arith)
        requires
            correction == remote_ticks * ratio.offset_ppb,
            0 <= remote_ticks,
    ;
}

/// The rate offset of two spans is how much longer the local one is, in parts per billion of the
/// remote one, with the fraction cut off; spans that are apart by a whole number of parts per
/// billion give exactly that number.
pub proof fn drift_is_the_relative_difference(d_remote: int, d_local: int, ppb: int)
    requires
        0 < d_remote,
    ensures
        ({
            let measured = TrackerState::drift_ppb(d_remote, d_local);
            let lost = (d_local - d_remote) * 1_000_000_000 - d_remote * measured;
            &&& d_local >= d_remote ==> 0 <= lost < d_remote
            &&& d_local <= d_remote ==> -d_remote < lost <= 0
            &&& d_local * 1_000_000_000 == d_remote * (1_000_000_000 + ppb) ==> measured == ppb
        }),
{
    let difference = (d_local - d_remote) * 1_000_000_000;
    let measured = TrackerState::drift_ppb(d_remote, d_local);
    rounding::remainder_keeps_the_sign(difference, d_remote);
    if d_local * 1_000_000_000 == d_remote * (1_000_000_000 + ppb) {
        assert(d_remote * (1_000_000_000 + ppb) == d_remote * 1_000_000_000 + d_remote * ppb)
            by (nonlinear_arith);
        let lost = difference - d_remote * measured;
        assert(lost == d_remote * (ppb - measured)) by (nonlinear_arith)
            requires
                lost == d_remote * ppb - d_remote * measured,
        ;
        assert(ppb == measured) by (nonlinear_arith)
            requires
                -d_remote < d_remote * (ppb - measured) < d_remote,
                0 < d_remote,
        ;
    }
}

/// A measured rate offset, applied as a ratio, turns the remote span it was measured over back into
/// the local one: to within a tick and a billionth of the span, whichever clock is the faster.
pub proof fn measured_ratio_converts_its_own_baseline(
    d_remote: int,
    d_local: int,
    ratio: ClockRatio,
)
    requires
        0 < d_remote,
        ratio.offset_ppb == TrackerState::drift_ppb(d_remote, d_local),
    ensures
        -1_000_000_000 - d_remote < 1_000_000_000 * (ratio.scaled(d_remote) - d_local)
            < 1_000_000_000 + d_remote,
{
    scaling_applies_the_rate(ratio, d_remote);
    drift_is_the_relative_difference(d_remote, d_local, 0);
    assert(d_remote * (1_000_000_000 + ratio.offset_ppb) == d_remote * 1_000_000_000 + d_remote
        * ratio.offset_ppb) by (nonlinear_arith);
}

/// A later estimate keeps three quarters of its distance from the measured rate, on the side it was
/// on and to within one part per billion, whether the rate rises or falls. The measurement is
/// counted.
pub proof fn a_quarter_of_the_distance_is_closed(
    state: TrackerState,
    base: (u64, u64),
    remote: u64,
    local: u64,
)
    requires
        state.wf(),
        state.estimates > 0,
        state.baseline == Some(base),
        time::ticks_between(remote as int, base.0 as int) >= time::ticks_of_us(50_000),
        -200_000 <= TrackerState::drift_ppb(
            time::ticks_between(remote as int, base.0 as int),
            time::ticks_between(local as int, base.1 as int),
        ) <= 200_000,
    ensures
        ({
            let measured = TrackerState::drift_ppb(
                time::ticks_between(remote as int, base.0 as int),
                time::ticks_between(local as int, base.1 as int),
            );
            let before = measured - state.offset_ppb;
            let after = measured - state.fold(remote, local).offset_ppb;
            &&& before >= 0 ==> 3 * before <= 4 * after < 3 * before + 4
            &&& before <= 0 ==> 3 * before - 4 < 4 * after <= 3 * before
            &&& state.estimates < u32::MAX ==> state.fold(remote, local).estimates
                == state.estimates + 1
            &&& state.estimates == u32::MAX ==> state.fold(remote, local).estimates == u32::MAX
        }),
{
}

/// A pair that yields an estimate replaces its baseline once that is a second old, and not before.
pub proof fn baselines_move_on_after_a_second(
    state: TrackerState,
    base: (u64, u64),
    remote: u64,
    local: u64,
)
    requires
        state.baseline == Some(base),
        time::ticks_between(remote as int, base.0 as int) >= time::ticks_of_us(50_000),
        -200_000 <= TrackerState::drift_ppb(
            time::ticks_between(remote as int, base.0 as int),
            time::ticks_between(local as int, base.1 as int),
        ) <= 200_000,
    ensures
        ({
            let age = time::ticks_between(remote as int, base.0 as int);
            state.fold(remote, local).baseline == (if age < time::ticks_of_us(1_000_000) {
                Some(base)
            } else {
                Some((remote, local))
            })
        }),
{
}

/// Two hundred parts per million are the limit of what is believed: a pair that measures more, in
/// either direction, leaves the estimate as it is and costs the baseline, and the pair after it
/// becomes the new baseline without touching the estimate.
pub proof fn bad_pairs_are_recovered_from(
    state: TrackerState,
    base: (u64, u64),
    bad: (u64, u64),
    next: (u64, u64),
)
    requires
        state.baseline == Some(base),
        time::ticks_between(bad.0 as int, base.0 as int) >= time::ticks_of_us(50_000),
        ({
            let measured = TrackerState::drift_ppb(
                time::ticks_between(bad.0 as int, base.0 as int),
                time::ticks_between(bad.1 as int, base.1 as int),
            );
            measured > 200_000 || measured < -200_000
        }),
    ensures
        state.fold(bad.0, bad.1) == (TrackerState { baseline: None, ..state }),
        state.fold(bad.0, bad.1).fold(next.0, next.1) == (TrackerState {
            baseline: Some(next),
            ..state
        }),
{
}

} // verus!
