//! The rest of an anchor's board: fuel gauge, indicator, power button, calibration manifest.

use dropbot::anchor::gauge::{BatteryMonitor, IndicatorLed};
use dropbot::anchor::hardware::{antenna_delay, for_index, AnchorHardwareCalibration};
use dropbot::anchor::power::{ButtonInput, ButtonWait, PowerLatch};
use dropbot::uwb::radio::AntennaDelay;

#[test]
fn the_gauge_averages_the_last_eight_samples() {
    let mut monitor = BatteryMonitor::new();
    assert_eq!(monitor.read_filtered(100), 100);
    assert_eq!(monitor.read_filtered(201), 150);
    for _ in 0..8 {
        monitor.read_filtered(3_000);
    }
    assert_eq!(monitor.read_filtered(3_000), 3_000);
    assert_eq!(monitor.read_filtered(3_008), 3_001);
    assert_eq!(BatteryMonitor::new().read_filtered(u16::MAX), u16::MAX);
}

#[test]
fn the_gauge_undoes_the_divider() {
    // 3277 counts are 2640 mV at the pin, and half as much again at the cell.
    assert_eq!(BatteryMonitor::new().read_voltage_mv(3_277), 3_960);
    assert_eq!(BatteryMonitor::new().read_voltage_mv(0), 0);
    assert_eq!(BatteryMonitor::new().read_voltage_mv(4_095), 4_950);
}

#[test]
fn the_gauge_is_linear_between_empty_and_full() {
    let percent = |raw| BatteryMonitor::new().read_percentage(raw);
    // 3000 mV and below, 4150 mV and above.
    assert_eq!(percent(2_482), 0);
    assert_eq!(percent(4_095), 100);
    // 3960 mV: 960 of 1150.
    assert_eq!(percent(3_277), 83);
    let mut last = 0;
    for raw in 0..=4_095 {
        let next = percent(raw);
        assert!(last <= next && next <= 100);
        last = next;
    }
}

#[test]
fn the_indicator_shows_exactly_one_colour() {
    let mut led = IndicatorLed::new();
    assert_eq!(led, IndicatorLed { red: false, green: false });
    led.show_battery_percentage(20);
    assert_eq!(led, IndicatorLed { red: true, green: false });
    led.show_battery_percentage(21);
    assert_eq!(led, IndicatorLed { red: false, green: true });
}

#[test]
fn a_long_press_powers_off() {
    let mut latch = PowerLatch::new();
    assert_eq!(latch.wait, ButtonWait::Press);
    assert_eq!(
        latch.wait_for_power_off_request(ButtonInput::Pressed),
        ButtonWait::Settle { ms: 30 }
    );
    assert_eq!(
        latch.wait_for_power_off_request(ButtonInput::Settled { pressed: true }),
        ButtonWait::Release { ms: 2_970 }
    );
    assert_eq!(latch.wait_for_power_off_request(ButtonInput::HeldOut), ButtonWait::PowerOff);
}

#[test]
fn a_bounce_or_a_short_press_does_not_power_off() {
    let mut latch = PowerLatch::new();
    latch.wait_for_power_off_request(ButtonInput::Pressed);
    assert_eq!(
        latch.wait_for_power_off_request(ButtonInput::Settled { pressed: false }),
        ButtonWait::Press
    );
    latch.wait_for_power_off_request(ButtonInput::Pressed);
    latch.wait_for_power_off_request(ButtonInput::Settled { pressed: true });
    assert_eq!(latch.wait_for_power_off_request(ButtonInput::Released), ButtonWait::Press);
}

#[test]
fn a_manifest_entry_accepts_its_own_board_only() {
    let uid = [7u8; 12];
    let entry = AnchorHardwareCalibration {
        anchor_id: 0xA002,
        expected_uid: Some(uid),
        rx_ticks: 16_400,
        tx_ticks: 16_390,
    };
    assert!(entry.accepts(0xA002, &uid));
    assert!(!entry.accepts(0xA001, &uid));
    let mut other = uid;
    other[11] = 8;
    assert!(!entry.accepts(0xA002, &other));
    let blank = AnchorHardwareCalibration { expected_uid: None, ..entry };
    assert!(!blank.accepts(0xA002, &uid));
    assert_eq!(entry.delay(), AntennaDelay { rx: 16_400, tx: 16_390 });
    assert_eq!(for_index(&[blank, entry, blank, blank], 1), entry);
    assert_eq!(antenna_delay(3), AntennaDelay { rx: 16_385, tx: 16_385 });
}
