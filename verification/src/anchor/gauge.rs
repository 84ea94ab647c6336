//! An anchor's single-cell fuel gauge and the indicator it drives.

use vstd::prelude::*;

verus! {

/// Length of the moving-average window over raw ADC samples.
pub const FILTER_LEN: usize = 8;

/// Millivolts at which the cell is treated as full.
pub const FULL_MV: u16 = 4150;

/// Millivolts at which the cell is treated as empty.
pub const EMPTY_MV: u16 = 3000;

/// Charge level at and below which the indicator turns red.
pub const LOW_BATTERY_PERCENT: u8 = 20;

/// The last few samples of the battery ADC.
#[derive(Clone, Copy, Debug)]
pub struct BatteryMonitor {
    window: [u16; FILTER_LEN],
    next: usize,
    filled: usize,
}

/// Sum of samples.
pub open spec fn total(samples: Seq<u16>) -> int
    decreases samples.len(),
{
    if samples.len() == 0 {
        0
    } else {
        total(samples.drop_last()) + samples.last()
    }
}

/// The most recent samples after one more has been taken.
pub open spec fn slid(samples: Seq<u16>, sample: u16) -> Seq<u16> {
    if samples.len() < FILTER_LEN {
        samples.push(sample)
    } else {
        samples.skip(1).push(sample)
    }
}

/// Mean of samples, rounded down.
pub open spec fn average(samples: Seq<u16>) -> int {
    total(samples) / (samples.len() as int)
}

/// Cell voltage behind a raw reading: a 12-bit conversion against the 3.3 V rail, with the 10k/20k
/// divider undone. Kept in 16 bits.
pub open spec fn cell_mv(raw: int) -> u16 {
    (raw * 3300 / 4095 * 3 / 2) as u16
}

/// State of charge, linear between empty and full.
pub open spec fn percentage(mv: u16) -> int {
    if mv >= FULL_MV {
        100
    } else if mv <= EMPTY_MV {
        0
    } else {
        (mv - EMPTY_MV) * 100 / (FULL_MV - EMPTY_MV)
    }
}

/// Samples put together add up.
proof fn total_concatenates(a: Seq<u16>, b: Seq<u16>)
    ensures
        total(a + b) == total(a) + total(b),
    decreases b.len(),
{
    if b.len() == 0 {
        assert(a + b =~= a);
    } else {
        total_concatenates(a, b.drop_last());
        assert((a + b).drop_last() =~= a + b.drop_last());
    }
}

impl View for BatteryMonitor {
    type V = Seq<u16>;

    /// The samples in the window, oldest first.
    closed spec fn view(&self) -> Seq<u16> {
        if self.filled < FILTER_LEN {
            self.window@.take(self.filled as int)
        } else {
            self.window@.skip(self.next as int) + self.window@.take(self.next as int)
        }
    }
}

impl BatteryMonitor {
    #[verifier::type_invariant]
    closed spec fn type_inv(self) -> bool {
        &&& self.next < FILTER_LEN
        &&& self.filled <= FILTER_LEN
        &&& self.filled < FILTER_LEN ==> self.next == self.filled
    }

    /// A monitor that has seen nothing.
    pub fn new() -> (monitor: BatteryMonitor)
        ensures
            monitor@ == Seq::<u16>::empty(),
    {
        let monitor = BatteryMonitor { window: [0u16; 8], next: 0, filled: 0 };
        assert(monitor@ =~= Seq::<u16>::empty());
        monitor
    }

    /// Takes a raw sample into the window and returns the window's average.
    pub fn read_filtered(&mut self, raw: u16) -> (mean: u16)
        ensures
            final(self)@ == slid(old(self)@, raw),
            final(self)@.len() > 0,
            mean == average(final(self)@),
    {
        proof {
            use_type_invariant(&*self);
        }
        let ghost before = self@;
        let at: usize = self.next;
        let mut window = self.window;
        window[at] = raw;
        let next: usize = (at + 1) % FILTER_LEN;
        let filled: usize = if self.filled + 1 < FILTER_LEN {
            self.filled + 1
        } else {
            FILTER_LEN
        };
        *self = BatteryMonitor { window, next, filled };
        assert(self@ =~= slid(before, raw));
        let mut sum: u32 = 0;
        let mut i: usize = 0;
        while i < filled
            invariant
                i <= filled,
                filled <= FILTER_LEN,
                sum == total(window@.take(i as int)),
                sum <= 65_535 * i,
            decreases filled - i,
        {
            assert(window@.take(i + 1).drop_last() =~= window@.take(i as int));
            sum = sum + window[i] as u32;
            i = i + 1;
        }
        proof {
            if filled == FILTER_LEN {
                total_concatenates(window@.take(next as int), window@.skip(next as int));
                total_concatenates(window@.skip(next as int), window@.take(next as int));
                assert(window@.take(next as int) + window@.skip(next as int) =~= window@);
                assert(window@.take(filled as int) =~= window@);
            }
            assert(total(self@) == sum);
            assert(sum / (filled as u32) <= 65_535) by (nonlinear_arith)
                requires
                    sum <= 65_535 * filled,
                    1 <= filled <= 8,
            ;
        }
        (sum / filled as u32) as u16
    }

    /// Cell voltage in millivolts, averaged over the last samples, after one more of them.
    pub fn read_voltage_mv(&mut self, raw: u16) -> (mv: u16)
        ensures
            final(self)@ == slid(old(self)@, raw),
            mv == cell_mv(average(final(self)@)),
    {
        let mean: u16 = self.read_filtered(raw);
        let pin_mv: u32 = mean as u32 * 3300 / 4095;
        #[verifier::truncate]
        ((pin_mv * 3 / 2) as u16)
    }

    /// State of charge as a percentage, after one more sample.
    pub fn read_percentage(&mut self, raw: u16) -> (percent: u8)
        ensures
            final(self)@ == slid(old(self)@, raw),
            percent == percentage(cell_mv(average(final(self)@))),
            percent <= 100,
    {
        let mv: u16 = self.read_voltage_mv(raw);
        if mv >= FULL_MV {
            100
        } else if mv <= EMPTY_MV {
            0
        } else {
            let gained: u32 = (mv - EMPTY_MV) as u32;
            let span: u32 = (FULL_MV - EMPTY_MV) as u32;
            assert(span == 1_150 && gained < 1_150);
            let percent: u32 = gained * 100 / span;
            assert(percent == gained * 100 / 1_150 && percent < 100);
            percent as u8
        }
    }
}

/// The bicolour indicator.
#[derive(Clone, Copy, Debug, PartialEq, Eq, Structural)]
pub struct IndicatorLed {
    pub red: bool,
    pub green: bool,
}

impl IndicatorLed {
    /// An indicator with both colours off.
    pub fn new() -> (led: IndicatorLed)
        ensures
            !led.red && !led.green,
    {
        IndicatorLed { red: false, green: false }
    }

    /// Shows red at or below the warning level, green above it; always exactly one of them.
    pub fn show_battery_percentage(&mut self, percentage: u8)
        ensures
            final(self).red == (percentage <= LOW_BATTERY_PERCENT),
            final(self).green == !final(self).red,
    {
        let low = percentage <= LOW_BATTERY_PERCENT;
        self.red = low;
        self.green = !low;
    }
}

/// The average lies between the smallest and the largest sample, so a steady reading comes out as
/// it is.
pub proof fn average_stays_within(samples: Seq<u16>, low: int, high: int)
    requires
        samples.len() > 0,
        forall|i: int| 0 <= i < samples.len() ==> low <= #[trigger] samples[i] <= high,
    ensures
        low <= average(samples) <= high,
{
    total_within(samples, low, high);
    let n = samples.len() as int;
    let t = total(samples);
    assert(low <= t / n <= high) by (nonlinear_arith)
        requires
            low * n <= t <= high * n,
            n > 0,
    ;
}

/// Bounds on each sample bound the sum.
proof fn total_within(samples: Seq<u16>, low: int, high: int)
    requires
        forall|i: int| 0 <= i < samples.len() ==> low <= #[trigger] samples[i] <= high,
    ensures
        low * samples.len() <= total(samples) <= high * samples.len(),
    decreases samples.len(),
{
    if samples.len() > 0 {
        let rest = samples.drop_last();
        assert forall|i: int| 0 <= i < rest.len() implies low <= #[trigger] rest[i] <= high by {
            assert(rest[i] == samples[i]);
        }
        total_within(rest, low, high);
        let n = rest.len() as int;
        assert(low * (n + 1) == low * n + low && high * (n + 1) == high * n + high)
            by (nonlinear_arith);
    }
}

/// A percentage never exceeds 100, and a higher voltage never shows less charge.
pub proof fn more_voltage_shows_no_less_charge(low_mv: u16, high_mv: u16)
    requires
        low_mv <= high_mv,
    ensures
        0 <= percentage(low_mv) <= percentage(high_mv) <= 100,
{
}

/// The window holds the latest samples in the order they were taken, eight of them at most: a new
/// sample comes last, and pushes out the oldest one only where there is no room left.
pub proof fn the_window_holds_the_latest(samples: Seq<u16>, sample: u16)
    requires
        samples.len() <= 8,
    ensures
        ({
            let after = slid(samples, sample);
            &&& 1 <= after.len() <= 8
            &&& after.last() == sample
            &&& samples.len() < 8 ==> after.drop_last() == samples
            &&& samples.len() == 8 ==> after.drop_last() == samples.drop_first()
        }),
{
    let after = slid(samples, sample);
    if samples.len() < 8 {
        assert(after.drop_last() =~= samples);
    } else {
        assert(after.drop_last() =~= samples.drop_first());
    }
}

/// The average, times the number of samples, is their sum to within a rounded-off remainder; the
/// sum counts every sample once.
pub proof fn the_average_shares_out_the_sum(a: Seq<u16>, b: Seq<u16>, sample: u16)
    requires
        a.len() > 0,
    ensures
        a.len() * average(a) <= total(a) < a.len() * average(a) + a.len(),
        total(a + b) == total(a) + total(b),
        total(seq![sample]) == sample,
        total(Seq::empty()) == 0,
{
    total_concatenates(a, b);
    let n = a.len() as int;
    let t = total(a);
    assert(n * (t / n) <= t < n * (t / n) + n) by (nonlinear_arith)
        requires
            n > 0,
    ;
    reveal_with_fuel(total, 2);
    assert(seq![sample].drop_last() =~= Seq::empty());
}

/// A reading of the 12-bit converter is that share of 3.3 V at the pin, in whole millivolts, and
/// the cell has half as much again, in whole millivolts, behind its divider. Of a reading far past
/// the converter's range the low sixteen bits count.
pub proof fn the_divider_is_undone(raw: int)
    requires
        0 <= raw <= 65_535,
    ensures
        ({
            let pin_mv = raw * 3_300 / 4_095;
            &&& 4_095 * pin_mv <= 3_300 * raw < 4_095 * (pin_mv + 1)
            &&& raw <= 54_216 ==> 2 * cell_mv(raw) <= 3 * pin_mv < 2 * (cell_mv(raw) + 1)
            &&& raw > 54_216 ==> 2 * (cell_mv(raw) + 65_536) <= 3 * pin_mv < 2 * (cell_mv(raw)
                + 65_537)
        }),
        cell_mv(4_095) == 4_950,
{
    let exact = (raw * 3_300 / 4_095 * 3 / 2) as u32;
    assert(exact == raw * 3_300 / 4_095 * 3 / 2);
    assert(exact as u16 == exact % 0x1_0000) by (bit_vector);
}

/// The percentage is how far the voltage is on its way from 3000 mV to 4150 mV, rounded down.
pub proof fn the_percentage_is_linear(mv: u16)
    ensures
        mv <= 3_000 ==> percentage(mv) == 0,
        mv >= 4_150 ==> percentage(mv) == 100,
        3_000 <= mv <= 4_150 ==> 1_150 * percentage(mv) <= 100 * (mv - 3_000) < 1_150 * (
        percentage(mv) + 1),
{
}

} // verus!
