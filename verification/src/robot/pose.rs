//! What a pose filter does with its inputs.
//!
//! The estimate itself is real arithmetic and takes place outside: what is decided here, from
//! comparisons made there, is whether an input moves the filter.

use vstd::prelude::*;

verus! {

/// Ranges a position is bootstrapped from, at least. Two would leave the mirror image about the
/// line joining their anchors, and picking the wrong side is a failure the filter would then track
/// forever.
pub const BOOTSTRAP_RANGES: usize = 3;

/// Whether a pose filter has a position yet.
#[derive(Clone, Copy, Debug, PartialEq, Eq, Structural)]
pub struct PoseStage {
    pub initialized: bool,
}

/// Where the variance of the gyroscope bias comes from at a bootstrap.
#[derive(Clone, Copy, Debug, PartialEq, Eq, Structural)]
pub enum BiasVariance {
    /// The sensor is new to the filter.
    Fresh,
    /// The bias is a property of the sensor, not of the position fix: it is kept across another
    /// bootstrap.
    Carried,
}

/// How one range compares with what the filter predicts for it.
#[derive(Clone, Copy, Debug, PartialEq, Eq, Structural)]
pub struct RangeCheck {
    /// The position is so close to the anchor that the range has no direction.
    pub beneath_anchor: bool,
    /// The variance predicted for the difference is not positive.
    pub no_variance: bool,
    /// The measured range is longer than the predicted one.
    pub reads_long: bool,
    /// The difference is past the limit for ranges that read long.
    pub past_long_limit: bool,
    /// The difference is past the limit for all others.
    pub past_short_limit: bool,
}

/// What to do with one range.
#[derive(Clone, Copy, Debug, PartialEq, Eq, Structural)]
pub enum RangeVerdict {
    /// There is no position yet to compare it with.
    NotInitialized,
    /// It says nothing the filter could use; the filter stays as it is.
    Meaningless,
    /// It is too far out; the filter stays as it is.
    TooFarOut,
    /// Correct the filter by it.
    Accept,
}

impl RangeCheck {
    /// Whether the range can be used at all.
    pub open spec fn meaningful(self) -> bool {
        !self.beneath_anchor && !self.no_variance
    }

    /// Whether the range is past the limit for its side.
    pub open spec fn too_far(self) -> bool {
        if self.reads_long {
            self.past_long_limit
        } else {
            self.past_short_limit
        }
    }
}

impl PoseStage {
    /// A filter without a position.
    pub fn new() -> (stage: PoseStage)
        ensures
            !stage.initialized,
    {
        PoseStage { initialized: false }
    }

    /// Takes a bootstrap from `ranges` simultaneous ranges, `solved` saying whether they determine
    /// a position. `None` if they do not; the filter is then as before.
    pub fn bootstrap(&mut self, ranges: usize, solved: bool) -> (bias: Option<BiasVariance>)
        ensures
            bias == (if ranges < BOOTSTRAP_RANGES || !solved {
                None
            } else if old(self).initialized {
                Some(BiasVariance::Carried)
            } else {
                Some(BiasVariance::Fresh)
            }),
            final(self).initialized == (old(self).initialized || bias is Some),
    {
        if ranges < BOOTSTRAP_RANGES || !solved {
            return None;
        }
        let bias = if self.initialized {
            BiasVariance::Carried
        } else {
            BiasVariance::Fresh
        };
        self.initialized = true;
        Some(bias)
    }

    /// Whether the model is advanced; only a positive time step does that.
    pub fn predicts(&self, step_is_positive: bool) -> (advances: bool)
        ensures
            advances == (self.initialized && step_is_positive),
    {
        self.initialized && step_is_positive
    }

    /// What to do with a range.
    pub open spec fn verdict(self, check: RangeCheck) -> RangeVerdict {
        if !self.initialized {
            RangeVerdict::NotInitialized
        } else if !check.meaningful() {
            RangeVerdict::Meaningless
        } else if check.too_far() {
            RangeVerdict::TooFarOut
        } else {
            RangeVerdict::Accept
        }
    }

    /// Judges one range. Propagation that is not line-of-sight only ever lengthens a range, so
    /// ranges that read long have a limit of their own.
    pub fn judge(&self, check: RangeCheck) -> (verdict: RangeVerdict)
        ensures
            verdict == self.verdict(check),
    {
        if !self.initialized {
            return RangeVerdict::NotInitialized;
        }
        if check.beneath_anchor || check.no_variance {
            return RangeVerdict::Meaningless;
        }
        let too_far = if check.reads_long {
            check.past_long_limit
        } else {
            check.past_short_limit
        };
        if too_far {
            RangeVerdict::TooFarOut
        } else {
            RangeVerdict::Accept
        }
    }
}

/// Only a filter with a position is ever corrected by a range, and only by one within the limit for
/// its side.
pub proof fn corrections_stay_within_the_limit(stage: PoseStage, check: RangeCheck)
    ensures
        stage.verdict(check) is Accept <==> stage.initialized && check.meaningful()
            && !check.too_far(),
        !stage.initialized ==> stage.verdict(check) is NotInitialized,
{
}

/// With the tighter limit for ranges that read long, whatever is accepted reading long would be
/// accepted reading short too.
pub proof fn short_readings_are_trusted_more(stage: PoseStage, check: RangeCheck)
    requires
        check.past_short_limit ==> check.past_long_limit,
        check.reads_long,
        stage.verdict(check) is Accept,
    ensures
        stage.verdict(RangeCheck { reads_long: false, ..check }) is Accept,
{
}

/// How every range is judged, from the comparisons alone: without a position not at all; without a
/// direction or a variance as meaningless; and otherwise by the limit of the side it reads on.
pub proof fn ranges_are_judged_by_their_side(stage: PoseStage, check: RangeCheck)
    ensures
        ({
            let useless = check.beneath_anchor || check.no_variance;
            let far = check.reads_long && check.past_long_limit || !check.reads_long
                && check.past_short_limit;
            &&& stage.verdict(check) is NotInitialized <==> !stage.initialized
            &&& stage.verdict(check) is Meaningless <==> stage.initialized && useless
            &&& stage.verdict(check) is TooFarOut <==> stage.initialized && !useless && far
            &&& stage.verdict(check) is Accept <==> stage.initialized && !useless && !far
        }),
{
}

} // verus!
