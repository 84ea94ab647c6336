//! The robot's pack and its charger.

use dropbot::battery::{
    charge_state, soc_from_cell_mv, thermistor_state, ChargeState, ChargerFault, ChargerReadings,
    ThermistorState, OCV_CURVE, VBUS_PRESENT_MV,
};

fn readings() -> ChargerReadings {
    ChargerReadings {
        charge_code: 3,
        power_good: true,
        vbat_mv: 7_800,
        cell_top_mv: 3_950,
        cell_bot_mv: 3_850,
        vbus_mv: 5_010,
        charge_current_ma: 450,
        input_current_ma: 980,
        die_temp_dc: 312,
        tshut: false,
        vbus_ovp: false,
        tmr: false,
        ntc_status: 0,
    }
}

#[test]
fn the_curve_is_met_at_its_points_and_clamped_beyond() {
    for (mv, percent) in OCV_CURVE {
        assert_eq!(soc_from_cell_mv(mv), percent);
    }
    assert_eq!(soc_from_cell_mv(0), 0);
    assert_eq!(soc_from_cell_mv(u16::MAX), 100);
    // A third of the way from 25 to 37, rounded down.
    assert_eq!(soc_from_cell_mv(3_633), 28);
}

#[test]
fn more_voltage_never_means_less_charge() {
    let mut last = 0;
    for mv in 2_900..4_400 {
        let percent = soc_from_cell_mv(mv);
        assert!(last <= percent && percent <= 100);
        last = percent;
    }
}

#[test]
fn the_weaker_cell_decides() {
    let mut status = readings().read_status();
    assert_eq!(status.state_of_charge(), soc_from_cell_mv(3_850));
    status.cell_bot_mv = 0;
    assert_eq!(status.state_of_charge(), soc_from_cell_mv(3_950));
    status.cell_top_mv = 0;
    assert_eq!(status.state_of_charge(), soc_from_cell_mv(3_900));
    status.cell_bot_mv = 3_400;
    assert_eq!(status.state_of_charge(), 8);
}

#[test]
fn registers_are_decoded_field_by_field() {
    let status = readings().read_status();
    assert_eq!(status.state, ChargeState::FastCharge);
    assert_eq!(status.thermistor, ThermistorState::Normal);
    assert_eq!(status.fault, None);
    assert_eq!(status.vbat_mv, 7_800);
    assert_eq!(status.die_temp_dc, 312);
    // Only the low three bits of the NTC register count.
    let warm = ChargerReadings { ntc_status: 0b1111_1010, ..readings() };
    assert_eq!(warm.read_status().thermistor, ThermistorState::Warm);
}

#[test]
fn the_worst_fault_is_reported() {
    let all = ChargerReadings { tshut: true, vbus_ovp: true, tmr: true, ..readings() };
    assert_eq!(all.read_status().fault, Some(ChargerFault::ThermalShutdown));
    let two = ChargerReadings { tshut: false, ..all };
    assert_eq!(two.read_status().fault, Some(ChargerFault::InputOverVoltage));
    let one = ChargerReadings { vbus_ovp: false, ..two };
    assert_eq!(one.read_status().fault, Some(ChargerFault::SafetyTimer));
}

#[test]
fn status_codes_are_the_chargers() {
    let states = [
        (ChargeState::NotCharging, "IDLE", false),
        (ChargeState::Trickle, "TRICKLE", true),
        (ChargeState::PreCharge, "PRECHG", true),
        (ChargeState::FastCharge, "CHARGING", true),
        (ChargeState::TaperCharge, "TAPER", true),
        (ChargeState::TopOff, "TOP-OFF", true),
        (ChargeState::Done, "FULL", false),
        (ChargeState::Unknown, "?", false),
    ];
    for (code, (state, label, charging)) in states.into_iter().enumerate() {
        assert_eq!(charge_state(code as u8), state);
        assert_eq!(state.label(), label);
        assert_eq!(state.is_charging(), charging);
    }
    let packs = [
        (0, ThermistorState::Normal, None),
        (1, ThermistorState::Unknown, Some("PACK ?")),
        (2, ThermistorState::Warm, Some("PACK WARM")),
        (3, ThermistorState::Cool, Some("PACK COOL")),
        (4, ThermistorState::Unknown, Some("PACK ?")),
        (5, ThermistorState::Cold, Some("PACK COLD")),
        (6, ThermistorState::Hot, Some("PACK HOT")),
        (7, ThermistorState::Unknown, Some("PACK ?")),
    ];
    for (code, state, label) in packs {
        assert_eq!(thermistor_state(code), state);
        assert_eq!(state.label(), label);
    }
    assert_eq!(ChargerFault::ThermalShutdown.label(), "OVERTEMP");
    assert_eq!(ChargerFault::InputOverVoltage.label(), "VBUS OVP");
    assert_eq!(ChargerFault::SafetyTimer.label(), "CHG TIMER");
    assert_eq!(ChargeState::default(), ChargeState::NotCharging);
    assert_eq!(ThermistorState::default(), ThermistorState::Normal);
}

#[test]
fn input_noise_is_not_an_input() {
    let mut status = readings().read_status();
    assert!(status.input_present());
    assert!(!status.input_unusable());
    status.power_good = false;
    assert!(status.input_unusable());
    status.vbus_mv = VBUS_PRESENT_MV - 1;
    assert!(!status.input_present());
    assert!(!status.input_unusable());
}
