//! The robot's two-cell pack and its charger.

use vstd::prelude::*;

verus! {

/// Where the charger is in its charging cycle.
#[derive(Clone, Copy, Debug, PartialEq, Eq, Structural)]
pub enum ChargeState {
    /// No charging in progress: either nothing is plugged in, or charging is disabled.
    NotCharging,
    /// Trickle charge, for a pack far below its working range.
    Trickle,
    /// Pre-charge, for a pack just below its working range.
    PreCharge,
    /// Fast charge, constant-current phase.
    FastCharge,
    /// Taper charge, constant-voltage phase.
    TaperCharge,
    /// Top-off timer running after the taper phase.
    TopOff,
    /// Charge terminated: the pack is full.
    Done,
    /// The charger reported the reserved code.
    Unknown,
}

impl Default for ChargeState {
    fn default() -> (state: Self)
        ensures
            state == ChargeState::NotCharging,
    {
        ChargeState::NotCharging
    }
}

impl ChargeState {
    /// The state a value of the charger's three-bit `CHRG_STAT` field stands for.
    pub open spec fn of_code(code: u8) -> ChargeState {
        if code == 0 {
            ChargeState::NotCharging
        } else if code == 1 {
            ChargeState::Trickle
        } else if code == 2 {
            ChargeState::PreCharge
        } else if code == 3 {
            ChargeState::FastCharge
        } else if code == 4 {
            ChargeState::TaperCharge
        } else if code == 5 {
            ChargeState::TopOff
        } else if code == 6 {
            ChargeState::Done
        } else {
            ChargeState::Unknown
        }
    }

    /// Label for the display, kept short enough to sit in a page header.
    #[must_use]
    pub fn label(self) -> (label: &'static str)
        ensures
            label@ == self.text(),
    {
        match self {
            ChargeState::NotCharging => "IDLE",
            ChargeState::Trickle => "TRICKLE",
            ChargeState::PreCharge => "PRECHG",
            ChargeState::FastCharge => "CHARGING",
            ChargeState::TaperCharge => "TAPER",
            ChargeState::TopOff => "TOP-OFF",
            ChargeState::Done => "FULL",
            ChargeState::Unknown => "?",
        }
    }

    /// What the label says.
    pub open spec fn text(self) -> Seq<char> {
        match self {
            ChargeState::NotCharging => "IDLE"@,
            ChargeState::Trickle => "TRICKLE"@,
            ChargeState::PreCharge => "PRECHG"@,
            ChargeState::FastCharge => "CHARGING"@,
            ChargeState::TaperCharge => "TAPER"@,
            ChargeState::TopOff => "TOP-OFF"@,
            ChargeState::Done => "FULL"@,
            ChargeState::Unknown => "?"@,
        }
    }

    /// Whether current is currently flowing into the pack.
    #[must_use]
    pub fn is_charging(self) -> (charging: bool)
        ensures
            charging == (self is Trickle || self is PreCharge || self is FastCharge
                || self is TaperCharge || self is TopOff),
    {
        match self {
            ChargeState::Trickle
            | ChargeState::PreCharge
            | ChargeState::FastCharge
            | ChargeState::TaperCharge
            | ChargeState::TopOff => true,
            _ => false,
        }
    }
}

/// A latched fault of the charger, ordered by how much it matters.
#[derive(Clone, Copy, Debug, PartialEq, Eq, Structural)]
pub enum ChargerFault {
    /// The charger shut down because its junction temperature ran away.
    ThermalShutdown,
    /// Input over-voltage.
    InputOverVoltage,
    /// The charge safety timer expired before the pack reached termination.
    SafetyTimer,
}

impl ChargerFault {
    /// What the label says.
    pub open spec fn text(self) -> Seq<char> {
        match self {
            ChargerFault::ThermalShutdown => "OVERTEMP"@,
            ChargerFault::InputOverVoltage => "VBUS OVP"@,
            ChargerFault::SafetyTimer => "CHG TIMER"@,
        }
    }

    /// Label for the display.
    #[must_use]
    pub fn label(self) -> (label: &'static str)
        ensures
            label@ == self.text(),
    {
        match self {
            ChargerFault::ThermalShutdown => "OVERTEMP",
            ChargerFault::InputOverVoltage => "VBUS OVP",
            ChargerFault::SafetyTimer => "CHG TIMER",
        }
    }
}

/// Pack thermistor state.
#[derive(Clone, Copy, Debug, PartialEq, Eq, Structural)]
pub enum ThermistorState {
    /// The pack is within its charging temperature window.
    Normal,
    /// Charging continues at a reduced rate or voltage.
    Warm,
    /// Charging continues at a reduced rate or voltage.
    Cool,
    /// Charging is suspended until the pack warms up.
    Cold,
    /// Charging is suspended until the pack cools down.
    Hot,
    /// The charger reported an undefined code.
    Unknown,
}

impl Default for ThermistorState {
    fn default() -> (state: Self)
        ensures
            state == ThermistorState::Normal,
    {
        ThermistorState::Normal
    }
}

impl ThermistorState {
    /// The state a value of the charger's three-bit `TS_STAT` field stands for. The codes are not
    /// contiguous: 1, 4 and 7 are undefined.
    pub open spec fn of_code(code: u8) -> ThermistorState {
        if code == 0 {
            ThermistorState::Normal
        } else if code == 2 {
            ThermistorState::Warm
        } else if code == 3 {
            ThermistorState::Cool
        } else if code == 5 {
            ThermistorState::Cold
        } else if code == 6 {
            ThermistorState::Hot
        } else {
            ThermistorState::Unknown
        }
    }

    /// What the label says, if there is one.
    pub open spec fn text(self) -> Option<Seq<char>> {
        match self {
            ThermistorState::Normal => None,
            ThermistorState::Warm => Some("PACK WARM"@),
            ThermistorState::Cool => Some("PACK COOL"@),
            ThermistorState::Cold => Some("PACK COLD"@),
            ThermistorState::Hot => Some("PACK HOT"@),
            ThermistorState::Unknown => Some("PACK ?"@),
        }
    }

    /// Label for the display, or `None` when the pack temperature is unremarkable.
    #[must_use]
    pub fn label(self) -> (label: Option<&'static str>)
        ensures
            match label {
                Some(label) => self.text() == Some(label@),
                None => self.text() is None,
            },
    {
        match self {
            ThermistorState::Normal => None,
            ThermistorState::Warm => Some("PACK WARM"),
            ThermistorState::Cool => Some("PACK COOL"),
            ThermistorState::Cold => Some("PACK COLD"),
            ThermistorState::Hot => Some("PACK HOT"),
            ThermistorState::Unknown => Some("PACK ?"),
        }
    }
}

/// Everything the charger reports about the pack and the input, sampled in one pass.
#[derive(Clone, Copy, Debug, PartialEq, Eq, Structural)]
pub struct ChargerStatus {
    pub state: ChargeState,
    /// Pack voltage, i.e. both cells in series.
    pub vbat_mv: u16,
    /// Upper cell of the pack.
    pub cell_top_mv: u16,
    /// Lower cell of the pack.
    pub cell_bot_mv: u16,
    /// Input voltage; 0 when nothing is plugged in.
    pub vbus_mv: u16,
    /// Current flowing into the pack.
    pub charge_current_ma: u16,
    /// Current drawn from the input.
    pub input_current_ma: u16,
    /// Charger junction temperature in tenths of a degree Celsius.
    pub die_temp_dc: i16,
    /// Whether the input source is present and usable.
    pub power_good: bool,
    pub thermistor: ThermistorState,
    pub fault: Option<ChargerFault>,
}

/// Resting cell voltage in millivolts against state of charge in percent, in ascending order.
pub const OCV_CURVE: [(u16, u8); 11] = [
    (3000, 0),
    (3300, 3),
    (3400, 8),
    (3500, 15),
    (3600, 25),
    (3700, 37),
    (3800, 50),
    (3900, 62),
    (4000, 75),
    (4100, 87),
    (4200, 100),
];

/// At or above this, something is really plugged in.
///
/// The input ADC does not read a clean zero with nothing connected, so presence cannot be decided
/// by comparing against zero.
pub const VBUS_PRESENT_MV: u16 = 3000;

/// State of charge at `cell_mv` on the straight line between points `k` and `k + 1` of the curve,
/// rounded down.
pub open spec fn interpolated(cell_mv: int, k: int) -> int {
    let (low_mv, low_percent) = OCV_CURVE@[k];
    let (high_mv, high_percent) = OCV_CURVE@[k + 1];
    low_percent + (cell_mv - low_mv) * (high_percent - low_percent) / (high_mv - low_mv)
}

/// State of charge at `cell_mv`, which lies above point `k` of the curve.
pub open spec fn soc_above(cell_mv: int, k: int) -> int
    decreases 10 - k,
{
    if k >= 10 {
        100
    } else if cell_mv <= OCV_CURVE@[k + 1].0 {
        interpolated(cell_mv, k)
    } else {
        soc_above(cell_mv, k + 1)
    }
}

/// State of charge of a cell at rest: interpolated between the points of the curve, and clamped to
/// its ends.
pub open spec fn soc(cell_mv: int) -> int {
    if cell_mv <= OCV_CURVE@[0].0 {
        OCV_CURVE@[0].1 as int
    } else {
        soc_above(cell_mv, 0)
    }
}

/// Percent of charge left in a cell at `cell_mv` millivolts.
pub fn soc_from_cell_mv(cell_mv: u16) -> (percent: u8)
    ensures
        percent == soc(cell_mv as int),
        percent <= 100,
{
    let (lowest_mv, empty) = OCV_CURVE[0];
    if cell_mv <= lowest_mv {
        return empty;
    }
    let mut k: usize = 0;
    while k < 10
        invariant
            k <= 10,
            OCV_CURVE@[k as int].0 < cell_mv,
            soc(cell_mv as int) == soc_above(cell_mv as int, k as int),
        decreases 10 - k,
    {
        let (low_mv, low_percent) = OCV_CURVE[k];
        let (high_mv, high_percent) = OCV_CURVE[k + 1];
        if cell_mv <= high_mv {
            proof {
                curve_rises(k as int);
                interpolation_stays_between(cell_mv as int, k as int);
            }
            let span: u32 = (high_mv - low_mv) as u32;
            let offset: u32 = (cell_mv - low_mv) as u32;
            let rise: u32 = (high_percent - low_percent) as u32;
            assert(offset * rise <= 65_535 * 255) by (nonlinear_arith)
                requires
                    offset <= 65_535,
                    rise <= 255,
            ;
            return (low_percent as u32 + offset * rise / span) as u8;
        }
        k = k + 1;
    }
    100
}

/// The curve rises from point to point, and ends at 100.
proof fn curve_rises(k: int)
    requires
        0 <= k < 10,
    ensures
        OCV_CURVE@[k].0 < OCV_CURVE@[k + 1].0,
        OCV_CURVE@[k].1 < OCV_CURVE@[k + 1].1,
        OCV_CURVE@[k + 1].1 <= 100,
{
    let c = OCV_CURVE@;
    assert(c[0] == (3000u16, 0u8) && c[1] == (3300u16, 3u8) && c[2] == (3400u16, 8u8) && c[3] == (
        3500u16,
        15u8,
    ) && c[4] == (3600u16, 25u8) && c[5] == (3700u16, 37u8) && c[6] == (3800u16, 50u8) && c[7] == (
        3900u16,
        62u8,
    ) && c[8] == (4000u16, 75u8) && c[9] == (4100u16, 87u8) && c[10] == (4200u16, 100u8));
}

/// Between two points of the curve the state of charge stays between theirs, and is theirs at the
/// points.
proof fn interpolation_stays_between(cell_mv: int, k: int)
    requires
        0 <= k < 10,
        OCV_CURVE@[k].0 <= cell_mv <= OCV_CURVE@[k + 1].0,
    ensures
        OCV_CURVE@[k].1 <= interpolated(cell_mv, k) <= OCV_CURVE@[k + 1].1,
        interpolated(OCV_CURVE@[k].0 as int, k) == OCV_CURVE@[k].1,
        interpolated(OCV_CURVE@[k + 1].0 as int, k) == OCV_CURVE@[k + 1].1,
{
    curve_rises(k);
    let rise = OCV_CURVE@[k + 1].1 - OCV_CURVE@[k].1;
    let span = OCV_CURVE@[k + 1].0 - OCV_CURVE@[k].0;
    let offset = cell_mv - OCV_CURVE@[k].0;
    assert(0 <= offset * rise / span <= rise) by (nonlinear_arith)
        requires
            0 <= offset <= span,
            0 < span,
            0 <= rise,
    ;
    assert(span * rise / span == rise) by (nonlinear_arith)
        requires
            0 < span,
    ;
    assert(0 * rise / span == 0) by (nonlinear_arith)
        requires
            0 < span,
    ;
}

impl ChargerStatus {
    /// The voltage the state of charge is judged by: that of the weaker cell. A cell reading zero
    /// has not been sampled yet and does not count; with neither sampled it is half the pack
    /// voltage.
    pub open spec fn weaker_cell_mv(self) -> u16 {
        if self.cell_top_mv == 0 && self.cell_bot_mv == 0 {
            self.vbat_mv / 2
        } else if self.cell_top_mv == 0 {
            self.cell_bot_mv
        } else if self.cell_bot_mv == 0 {
            self.cell_top_mv
        } else if self.cell_top_mv <= self.cell_bot_mv {
            self.cell_top_mv
        } else {
            self.cell_bot_mv
        }
    }

    /// Whether an input source is physically present.
    pub open spec fn plugged_in(self) -> bool {
        self.vbus_mv >= VBUS_PRESENT_MV
    }

    /// Whether an input source is physically present.
    #[must_use]
    pub fn input_present(&self) -> (present: bool)
        ensures
            present == self.plugged_in(),
    {
        self.vbus_mv >= VBUS_PRESENT_MV
    }

    /// Whether an input is plugged in but the charger refuses to draw from it.
    #[must_use]
    pub fn input_unusable(&self) -> (unusable: bool)
        ensures
            unusable == (self.plugged_in() && !self.power_good),
    {
        self.input_present() && !self.power_good
    }

    /// Rough state of charge in percent, from the weaker of the two cells.
    ///
    /// That cell is what ends the discharge, so it is the honest one to report.
    #[must_use]
    pub fn state_of_charge(&self) -> (percent: u8)
        ensures
            percent == soc(self.weaker_cell_mv() as int),
            percent <= 100,
    {
        let cell_mv: u16 = match (self.cell_top_mv, self.cell_bot_mv) {
            (0, 0) => self.vbat_mv / 2,
            (0, bot) => bot,
            (top, 0) => top,
            (top, bot) => if top <= bot {
                top
            } else {
                bot
            },
        };
        soc_from_cell_mv(cell_mv)
    }
}

/// What the charger's registers hold, field by field.
#[derive(Clone, Copy, Debug, PartialEq, Eq, Structural)]
pub struct ChargerReadings {
    /// The `CHRG_STAT` field.
    pub charge_code: u8,
    pub power_good: bool,
    pub vbat_mv: u16,
    pub cell_top_mv: u16,
    pub cell_bot_mv: u16,
    pub vbus_mv: u16,
    pub charge_current_ma: u16,
    pub input_current_ma: u16,
    pub die_temp_dc: i16,
    /// Thermal shutdown flag.
    pub tshut: bool,
    /// Input over-voltage flag.
    pub vbus_ovp: bool,
    /// Safety timer flag.
    pub tmr: bool,
    /// The whole NTC status register; `TS_STAT` is its low three bits.
    pub ntc_status: u8,
}

impl ChargerReadings {
    /// The fault that matters most among those set.
    pub open spec fn worst_fault(self) -> Option<ChargerFault> {
        if self.tshut {
            Some(ChargerFault::ThermalShutdown)
        } else if self.vbus_ovp {
            Some(ChargerFault::InputOverVoltage)
        } else if self.tmr {
            Some(ChargerFault::SafetyTimer)
        } else {
            None
        }
    }

    /// What the registers mean.
    pub fn read_status(&self) -> (status: ChargerStatus)
        ensures
            status == (ChargerStatus {
                state: ChargeState::of_code(self.charge_code),
                vbat_mv: self.vbat_mv,
                cell_top_mv: self.cell_top_mv,
                cell_bot_mv: self.cell_bot_mv,
                vbus_mv: self.vbus_mv,
                charge_current_ma: self.charge_current_ma,
                input_current_ma: self.input_current_ma,
                die_temp_dc: self.die_temp_dc,
                power_good: self.power_good,
                thermistor: ThermistorState::of_code(self.ntc_status % 8),
                fault: self.worst_fault(),
            }),
    {
        let fault = if self.tshut {
            Some(ChargerFault::ThermalShutdown)
        } else if self.vbus_ovp {
            Some(ChargerFault::InputOverVoltage)
        } else if self.tmr {
            Some(ChargerFault::SafetyTimer)
        } else {
            None
        };
        ChargerStatus {
            state: charge_state(self.charge_code),
            vbat_mv: self.vbat_mv,
            cell_top_mv: self.cell_top_mv,
            cell_bot_mv: self.cell_bot_mv,
            vbus_mv: self.vbus_mv,
            charge_current_ma: self.charge_current_ma,
            input_current_ma: self.input_current_ma,
            die_temp_dc: self.die_temp_dc,
            power_good: self.power_good,
            thermistor: thermistor_state(self.ntc_status % 8),
            fault,
        }
    }
}

/// Decodes the `CHRG_STAT` field.
pub fn charge_state(code: u8) -> (state: ChargeState)
    ensures
        state == ChargeState::of_code(code),
{
    match code {
        0 => ChargeState::NotCharging,
        1 => ChargeState::Trickle,
        2 => ChargeState::PreCharge,
        3 => ChargeState::FastCharge,
        4 => ChargeState::TaperCharge,
        5 => ChargeState::TopOff,
        6 => ChargeState::Done,
        _ => ChargeState::Unknown,
    }
}

/// Decodes the `TS_STAT` field.
pub fn thermistor_state(code: u8) -> (state: ThermistorState)
    ensures
        state == ThermistorState::of_code(code),
{
    match code {
        0 => ThermistorState::Normal,
        2 => ThermistorState::Warm,
        3 => ThermistorState::Cool,
        5 => ThermistorState::Cold,
        6 => ThermistorState::Hot,
        _ => ThermistorState::Unknown,
    }
}

/// A cell above point `k` of the curve has at least that point's charge, and never more than 100%.
proof fn soc_is_bounded_below(cell_mv: int, k: int)
    requires
        0 <= k <= 10,
        OCV_CURVE@[k].0 < cell_mv,
    ensures
        OCV_CURVE@[k].1 <= soc_above(cell_mv, k) <= 100,
    decreases 10 - k,
{
    if k < 10 {
        curve_rises(k);
        if cell_mv <= OCV_CURVE@[k + 1].0 {
            interpolation_stays_between(cell_mv, k);
        } else {
            soc_is_bounded_below(cell_mv, k + 1);
        }
    }
}

/// Above point `k` of the curve, a higher voltage never means less charge.
proof fn soc_rises_above(low_mv: int, high_mv: int, k: int)
    requires
        0 <= k <= 10,
        OCV_CURVE@[k].0 < low_mv <= high_mv,
    ensures
        soc_above(low_mv, k) <= soc_above(high_mv, k),
    decreases 10 - k,
{
    if k < 10 {
        curve_rises(k);
        if low_mv <= OCV_CURVE@[k + 1].0 {
            interpolation_stays_between(low_mv, k);
            if high_mv <= OCV_CURVE@[k + 1].0 {
                let rise = OCV_CURVE@[k + 1].1 - OCV_CURVE@[k].1;
                let span = OCV_CURVE@[k + 1].0 - OCV_CURVE@[k].0;
                let (a, b) = (low_mv - OCV_CURVE@[k].0, high_mv - OCV_CURVE@[k].0);
                assert(a * rise <= b * rise) by (nonlinear_arith)
                    requires
                        a <= b,
                        0 <= rise,
                ;
                vstd::arithmetic::div_mod::lemma_div_is_ordered(a * rise, b * rise, span);
            } else {
                soc_is_bounded_below(high_mv, k + 1);
            }
        } else {
            soc_rises_above(low_mv, high_mv, k + 1);
        }
    }
}

/// The state of charge is a percentage, and a higher cell voltage never means less charge.
pub proof fn more_voltage_is_never_less_charge(low_mv: int, high_mv: int)
    requires
        low_mv <= high_mv,
    ensures
        0 <= soc(low_mv) <= soc(high_mv) <= 100,
{
    if high_mv > OCV_CURVE@[0].0 {
        soc_is_bounded_below(high_mv, 0);
        if low_mv > OCV_CURVE@[0].0 {
            soc_is_bounded_below(low_mv, 0);
            soc_rises_above(low_mv, high_mv, 0);
        }
    }
}

/// The state of charge passes through every point of the curve.
pub proof fn curve_points_are_exact(k: int)
    requires
        0 <= k <= 10,
    ensures
        soc(OCV_CURVE@[k].0 as int) == OCV_CURVE@[k].1,
{
    if k > 0 {
        point_is_exact(k, 0);
    }
}

/// Searching from point `from` on finds point `k` at its own charge.
proof fn point_is_exact(k: int, from: int)
    requires
        0 <= from < k <= 10,
    ensures
        soc_above(OCV_CURVE@[k].0 as int, from) == OCV_CURVE@[k].1,
        OCV_CURVE@[from].0 < OCV_CURVE@[k].0,
    decreases k - from,
{
    curve_rises(from);
    if from + 1 == k {
        interpolation_stays_between(OCV_CURVE@[k].0 as int, from);
    } else {
        point_is_exact(k, from + 1);
    }
}

/// Between two neighbouring points of the curve the charge rises in proportion to the voltage, in
/// whole percent rounded down; below its first point a cell is empty, and above its last full.
pub proof fn charge_rises_evenly_between_the_points(cell_mv: int, k: int)
    requires
        0 <= k < 10,
    ensures
        ({
            let (low_mv, low_percent) = OCV_CURVE@[k];
            let (high_mv, high_percent) = OCV_CURVE@[k + 1];
            let gained = soc(cell_mv) - low_percent;
            low_mv <= cell_mv <= high_mv ==> (high_mv - low_mv) * gained <= (cell_mv - low_mv) * (
            high_percent - low_percent) < (high_mv - low_mv) * (gained + 1)
        }),
        cell_mv <= 3_000 ==> soc(cell_mv) == 0,
        cell_mv >= 4_200 ==> soc(cell_mv) == 100,
{
    let c = OCV_CURVE@;
    assert(c[0] == (3000u16, 0u8) && c[10] == (4200u16, 100u8));
    if c[k].0 < cell_mv <= c[k + 1].0 {
        segment_is_found(cell_mv, k, 0);
        curve_rises(k);
        let span = c[k + 1].0 - c[k].0;
        let product = (cell_mv - c[k].0) * (c[k + 1].1 - c[k].1);
        assert(span * (product / span) <= product < span * (product / span + 1))
            by (nonlinear_arith)
            requires
                span > 0,
        ;
    } else if cell_mv == c[k].0 {
        curve_points_are_exact(k);
        curve_rises(k);
        let span = c[k + 1].0 - c[k].0;
        assert((cell_mv - c[k].0) * (c[k + 1].1 - c[k].1) == 0) by (nonlinear_arith)
            requires
                cell_mv == c[k].0,
        ;
        assert(span * 0 == 0 && span * (0 + 1) == span) by (nonlinear_arith);
    }
    if cell_mv >= 4_200 {
        curve_points_are_exact(10);
        more_voltage_is_never_less_charge(4_200, cell_mv);
    }
}

/// Searching from point `from` on finds the segment a voltage lies in.
proof fn segment_is_found(cell_mv: int, k: int, from: int)
    requires
        0 <= from <= k < 10,
        OCV_CURVE@[k].0 < cell_mv <= OCV_CURVE@[k + 1].0,
    ensures
        soc_above(cell_mv, from) == interpolated(cell_mv, k),
        OCV_CURVE@[from].0 < cell_mv,
    decreases k - from,
{
    curve_rises(from);
    if from < k {
        segment_is_found(cell_mv, k, from + 1);
        if from + 1 < k {
            curve_rises(from + 1);
        }
    }
}

/// The curve: from 3.0 V, empty, to 4.2 V, full.
pub proof fn curve_is_that_of_the_cells()
    ensures
        soc(3_000) == 0 && soc(3_300) == 3 && soc(3_400) == 8 && soc(3_500) == 15 && soc(3_600)
            == 25 && soc(3_700) == 37 && soc(3_800) == 50 && soc(3_900) == 62 && soc(4_000) == 75
            && soc(4_100) == 87 && soc(4_200) == 100,
{
    let c = OCV_CURVE@;
    assert(c[0] == (3000u16, 0u8) && c[1] == (3300u16, 3u8) && c[2] == (3400u16, 8u8) && c[3] == (
        3500u16,
        15u8,
    ) && c[4] == (3600u16, 25u8) && c[5] == (3700u16, 37u8) && c[6] == (3800u16, 50u8) && c[7] == (
        3900u16,
        62u8,
    ) && c[8] == (4000u16, 75u8) && c[9] == (4100u16, 87u8) && c[10] == (4200u16, 100u8));
    curve_points_are_exact(0);
    curve_points_are_exact(1);
    curve_points_are_exact(2);
    curve_points_are_exact(3);
    curve_points_are_exact(4);
    curve_points_are_exact(5);
    curve_points_are_exact(6);
    curve_points_are_exact(7);
    curve_points_are_exact(8);
    curve_points_are_exact(9);
    curve_points_are_exact(10);
}

/// The charge shown is that of the weaker sampled cell: no sampled cell has less. With none sampled
/// it is that of half the pack.
pub proof fn the_weaker_cell_counts(status: ChargerStatus)
    ensures
        ({
            let counted = status.weaker_cell_mv();
            let (top, bottom) = (status.cell_top_mv, status.cell_bot_mv);
            &&& top != 0 ==> counted <= top && soc(counted as int) <= soc(top as int)
            &&& bottom != 0 ==> counted <= bottom && soc(counted as int) <= soc(bottom as int)
            &&& top != 0 || bottom != 0 ==> counted != 0 && (counted == top || counted == bottom)
            &&& top == 0 && bottom == 0 ==> 2 * counted <= status.vbat_mv <= 2 * counted + 1
        }),
{
    let counted = status.weaker_cell_mv() as int;
    if counted <= status.cell_top_mv {
        more_voltage_is_never_less_charge(counted, status.cell_top_mv as int);
    }
    if counted <= status.cell_bot_mv {
        more_voltage_is_never_less_charge(counted, status.cell_bot_mv as int);
    }
}

/// The charger's codes run through the phases of a charge in order: idle, five phases in which
/// current flows, done, and a reserved one. Each stands for one state, and no two for the same.
pub proof fn charge_codes_run_through_the_phases(a: u8, b: u8)
    ensures
        ChargeState::of_code(0) is NotCharging,
        ChargeState::of_code(1) is Trickle,
        ChargeState::of_code(2) is PreCharge,
        ChargeState::of_code(3) is FastCharge,
        ChargeState::of_code(4) is TaperCharge,
        ChargeState::of_code(5) is TopOff,
        ChargeState::of_code(6) is Done,
        a >= 7 <==> ChargeState::of_code(a) is Unknown,
        a < 7 && ChargeState::of_code(a) == ChargeState::of_code(b) ==> a == b,
{
}

/// Of the eight thermistor codes five are defined, one each for a normal, a warm, a cool, a cold
/// and a hot pack; all others are unknown.
pub proof fn thermistor_codes_are_told_apart(a: u8, b: u8)
    ensures
        ThermistorState::of_code(0) is Normal,
        ThermistorState::of_code(2) is Warm,
        ThermistorState::of_code(3) is Cool,
        ThermistorState::of_code(5) is Cold,
        ThermistorState::of_code(6) is Hot,
        ThermistorState::of_code(a) is Unknown <==> a == 1 || a == 4 || a >= 7,
        !(ThermistorState::of_code(a) is Unknown) && ThermistorState::of_code(a)
            == ThermistorState::of_code(b) ==> a == b,
{
}

/// A fault is reported exactly if a flag is set, it is one whose flag is set, and no graver one is.
pub proof fn the_gravest_fault_is_reported(readings: ChargerReadings)
    ensures
        readings.worst_fault() is None <==> !readings.tshut && !readings.vbus_ovp && !readings.tmr,
        readings.tshut <==> readings.worst_fault() == Some(ChargerFault::ThermalShutdown),
        readings.worst_fault() == Some(ChargerFault::InputOverVoltage) ==> readings.vbus_ovp,
        readings.worst_fault() == Some(ChargerFault::SafetyTimer) ==> readings.tmr
            && !readings.vbus_ovp,
{
}

/// An input counts as present from three volts on.
pub proof fn presence_starts_at_three_volts(status: ChargerStatus)
    ensures
        status.plugged_in() <==> status.vbus_mv >= 3_000,
{
}

} // verus!
