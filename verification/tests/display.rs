//! The screens of the status display.

use dropbot::battery::{ChargeState, ChargerFault, ChargerStatus, ThermistorState};
use dropbot::display::canvas::{
    centered_x, clip_to_row, right_aligned_x, text_width, Canvas, DrawOp, TextAnchor,
};
use dropbot::display::numbers::{format_amps, format_volts, version_label};
use dropbot::display::pages::{
    draw_battery_page, draw_firmware_update, draw_network_page, draw_notice, draw_screen,
    draw_text, BatteryPage, DisplayError, NetworkPage,
};
use dropbot::display::wrap::wrap_message;

fn wrapped(message: &str) -> Vec<&str> {
    wrap_message(message).iter().copied().collect()
}

fn text(text: &str, x: i32, y: i32) -> DrawOp {
    DrawOp::Text { text: text.to_string(), x, y, anchor: TextAnchor::Top }
}

fn border() -> DrawOp {
    DrawOp::Outline { x: 0, y: 0, width: 128, height: 64 }
}

fn separator(y: i32) -> DrawOp {
    DrawOp::Line { from_x: 0, from_y: y, to_x: 127, to_y: y }
}

fn charged() -> ChargerStatus {
    ChargerStatus {
        state: ChargeState::FastCharge,
        vbat_mv: 8_129,
        cell_top_mv: 4_060,
        cell_bot_mv: 4_069,
        vbus_mv: 5_013,
        charge_current_ma: 455,
        input_current_ma: 1_200,
        die_temp_dc: 312,
        power_good: true,
        thermistor: ThermistorState::Normal,
        fault: None,
    }
}

#[test]
fn readings_have_two_truncated_decimals() {
    assert_eq!(format_volts(8_129).as_str(), "8.12V");
    assert_eq!(format_volts(0).as_str(), "0.00V");
    assert_eq!(format_volts(65_535).as_str(), "65.53V");
    assert_eq!(format_amps(455).as_str(), "0.45A");
    assert_eq!(format_amps(1_009).as_str(), "1.00A");
}

#[test]
fn an_overlong_version_is_left_out() {
    assert_eq!(version_label("1.2.3").as_str(), "v1.2.3");
    assert_eq!(version_label("123456789012345").as_str(), "v123456789012345");
    assert_eq!(version_label("1234567890123456").as_str(), "v");
    // The label holds sixteen bytes, not sixteen characters.
    assert_eq!(version_label("\u{e9}\u{e9}\u{e9}\u{e9}\u{e9}\u{e9}\u{e9}\u{e9}").as_str(), "v");
    assert_eq!(version_label("").as_str(), "v");
}

#[test]
fn messages_wrap_on_spaces() {
    assert_eq!(wrapped("  Preparing update  "), ["Preparing update"]);
    assert_eq!(
        wrapped("The quick brown fox jumps over the lazy dog"),
        ["The quick brown fox", "jumps over the lazy", "dog"]
    );
    assert_eq!(wrapped("12345678901234567890 next"), ["12345678901234567890", "next"]);
    assert_eq!(wrapped(""), Vec::<&str>::new());
    assert_eq!(wrapped(" \t\n"), Vec::<&str>::new());
}

#[test]
fn lines_are_filled_up_to_the_last_space_that_fits() {
    // Exactly twenty characters fit, so that the space behind them is the place to break.
    assert_eq!(wrapped("hello aaaaaaaaaaaaaa bbb"), ["hello aaaaaaaaaaaaaa", "bbb"]);
    // One more, and the second word moves on.
    assert_eq!(wrapped("hello aaaaaaaaaaaaaaa bbb"), ["hello", "aaaaaaaaaaaaaaa bbb"]);
    assert_eq!(wrapped("a bb ccc dddd eeeee  f"), ["a bb ccc dddd eeeee", "f"]);
    let message = "one two three four x one two three four y one two three four z";
    assert_eq!(
        wrapped(message),
        ["one two three four x", "one two three four y", "one two three four z"]
    );
}

#[test]
fn white_space_is_that_of_unicode() {
    let white = |c: char| {
        matches!(u32::from(c), 0x09..=0x0D | 0x20 | 0x85 | 0xA0 | 0x1680 | 0x2000..=0x200A
            | 0x2028 | 0x2029 | 0x202F | 0x205F | 0x3000)
    };
    for c in '\0'..=char::MAX {
        let message: String = [c, 'x'].iter().collect();
        let expected = if white(c) { "x" } else { message.as_str() };
        assert_eq!(wrapped(&message), [expected]);
    }
    assert_eq!(wrapped("\u{3000}\u{a0}a\u{2003}b\u{85}"), ["a\u{2003}b"]);
    assert_eq!(wrapped("\u{200b}a\u{180e}"), ["\u{200b}a\u{180e}"]);
}

#[test]
fn overlong_words_are_split_and_overlong_messages_truncated() {
    assert_eq!(wrapped("abcdefghijklmnopqrstuvwxyz"), ["abcdefghijklmnopqrst", "uvwxyz"]);
    let long = "aaaaaaaaaaaaaaaaaaaa bbbbbbbbbbbbbbbbbbbb cccccccccccccccccccc dropped";
    assert_eq!(
        wrapped(long),
        ["aaaaaaaaaaaaaaaaaaaa", "bbbbbbbbbbbbbbbbbbbb", "cccccccccccccccccccc"]
    );
}

#[test]
fn texts_are_placed_by_their_width() {
    assert_eq!(text_width("ABC"), 18);
    assert_eq!(centered_x("ABCD"), 52);
    assert_eq!(right_aligned_x("ABC"), 106);
    let wide = "0123456789012345678901234567890123456789";
    assert_eq!(centered_x(wide), 0);
    assert_eq!(right_aligned_x(wide), 0);
    assert_eq!(clip_to_row(wide, 40), "01234567890123");
    assert_eq!(clip_to_row("short", 40), "short");
    assert_eq!(clip_to_row("short", 200), "");
}

#[test]
fn the_network_page_shows_the_link() {
    let page = NetworkPage {
        ssid: "a-network-name-too-long",
        ip_address: Some("192.168.8.20"),
        broker_status: "ONLINE",
        device_id: "508040",
        firmware_version: "1.2.3",
    };
    assert_eq!(
        draw_network_page(&page).ops,
        vec![
            border(),
            text("NETWORK", 4, 3),
            text("ONLINE", 88, 3),
            separator(15),
            text("SSID", 4, 19),
            text("a-network-name", 40, 19),
            text("IP", 4, 30),
            text("192.168.8.20", 40, 30),
            text("MQTT", 4, 41),
            text("ONLINE", 40, 41),
            text("ID", 4, 52),
            text("508040", 40, 52),
            text("v1.2.3", 88, 52),
        ]
    );
    let offline = NetworkPage { ip_address: None, ..page };
    let ops = draw_network_page(&offline).ops;
    assert_eq!(ops[2], text("NO LINK", 82, 3));
    assert_eq!(ops[7], text("---.---.---.--", 40, 30));
}

#[test]
fn the_battery_page_shows_the_charger() {
    let page = BatteryPage { status: Some(charged()), firmware_version: "1.2.3" };
    assert_eq!(
        draw_battery_page(&page).ops,
        vec![
            border(),
            text("BAT 82%", 4, 3),
            text("CHARGING", 76, 3),
            separator(15),
            text("VBAT 8.12V", 4, 19),
            text("0.45A", 94, 19),
            text("CELL", 4, 30),
            text("4.06/4.06V", 40, 30),
            text("VBUS 5.01V", 4, 41),
            text("1.20A", 94, 41),
            text("31C OK", 4, 52),
            text("v1.2.3", 88, 52),
        ]
    );
}

#[test]
fn the_battery_page_hides_input_noise() {
    let status = ChargerStatus { vbus_mv: 120, die_temp_dc: -57, ..charged() };
    let ops = draw_battery_page(&BatteryPage { status: Some(status), firmware_version: "" }).ops;
    assert_eq!(ops[8], text("VBUS --", 4, 41));
    assert_eq!(ops[9], text("", 124, 41));
    assert_eq!(ops[10], text("-5C OK", 4, 52));
}

#[test]
fn the_battery_page_works_without_a_charger() {
    let page = BatteryPage { status: None, firmware_version: "1.2.3" };
    assert_eq!(
        draw_battery_page(&page).ops,
        vec![
            border(),
            text("BATTERY", 4, 3),
            text("--", 112, 3),
            separator(15),
            text("NO CHARGER DATA", 19, 30),
            text("", 4, 52),
            text("v1.2.3", 88, 52),
        ]
    );
}

#[test]
fn the_health_slot_shows_what_matters_most() {
    let footer = |status| {
        let page = BatteryPage { status: Some(status), firmware_version: "" };
        match draw_battery_page(&page).ops.swap_remove(10) {
            DrawOp::Text { text, .. } => text,
            other => panic!("expected a text, got {other:?}"),
        }
    };
    let poor = ChargerStatus { power_good: false, ..charged() };
    assert_eq!(footer(poor), "31C POOR PWR");
    let hot = ChargerStatus { thermistor: ThermistorState::Hot, ..poor };
    assert_eq!(footer(hot), "31C PACK HOT");
    let fault = ChargerStatus { fault: Some(ChargerFault::SafetyTimer), ..hot };
    assert_eq!(footer(fault), "31C CHG TIMER");
}

#[test]
fn a_notice_centers_its_message() {
    // Three lines of eleven pixels in a body of forty-two leave four above.
    assert_eq!(
        draw_notice("POWER", "Shutting down because the pack is empty").ops,
        vec![
            border(),
            text("POWER", 49, 3),
            separator(16),
            text("Shutting down", 25, 23),
            text("because the pack is", 7, 34),
            text("empty", 49, 45),
        ]
    );
}

#[test]
fn an_update_shows_its_progress() {
    assert_eq!(
        draw_firmware_update("Downloading a very long file name", Some(42)).ops,
        vec![
            border(),
            text("FIRMWARE UPDATE", 19, 3),
            separator(16),
            text("Downloading a very", 10, 19),
            DrawOp::Outline { x: 12, y: 34, width: 104, height: 14 },
            DrawOp::Filled { x: 14, y: 36, width: 42, height: 10 },
            text("42%", 55, 50),
        ]
    );
    let over = draw_screen("X", "", Some(200)).ops;
    assert_eq!(over[4], DrawOp::Filled { x: 14, y: 36, width: 100, height: 10 });
    assert_eq!(over[5], text("100%", 52, 50));
}

#[test]
fn a_free_text_needs_representable_coordinates() {
    let drawn: Result<Canvas, DisplayError<()>> = draw_text(10, 20, "hi");
    assert_eq!(
        drawn.unwrap().ops,
        vec![DrawOp::Text {
            text: "hi".to_string(),
            x: 10,
            y: 20,
            anchor: TextAnchor::Baseline,
        }]
    );
    let wide: Result<Canvas, DisplayError<()>> = draw_text(0x8000_0000, 0, "hi");
    assert!(matches!(wide, Err(DisplayError::CoordinatesOutOfRange)));
    let high: Result<Canvas, DisplayError<()>> = draw_text(0, u32::MAX, "hi");
    assert!(matches!(high, Err(DisplayError::CoordinatesOutOfRange)));
}
