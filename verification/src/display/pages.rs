//! The screens of the status display.

use vstd::prelude::*;

use crate::battery;
use crate::battery::ChargerStatus;
use crate::display::canvas;
use crate::display::canvas::{
    centered_x, clip_to_row, right_aligned_x, Canvas, Mark, DISPLAY_HEIGHT, DISPLAY_WIDTH,
    LINE_HEIGHT, MARGIN,
};
use crate::display::numbers;
use crate::display::numbers::{
    append, append_decimal, append_hundredths, format_amps, format_volts, version_label,
};
use crate::display::label;
use crate::display::label::{label_text, lines_slice, new_label};
use crate::display::wrap;
use crate::display::wrap::{wrap_message, SCREEN_MESSAGE_MAX_LINES};
use crate::rounding;

verus! {

/// Top of a menu page's title row.
pub const PAGE_TITLE_TOP: i32 = 3;

/// Separator drawn underneath the title row.
pub const PAGE_SEPARATOR_Y: i32 = 15;

/// Tops of the four body rows every menu page is laid out on.
pub const PAGE_ROWS: [i32; 4] = [19, 30, 41, 52];

/// Left edge of the value column, leaving room for a four-character label.
pub const PAGE_VALUE_X: i32 = 40;

/// Separator of a titled full-screen screen.
pub const SCREEN_SEPARATOR_Y: i32 = 16;

/// Body area of a titled full-screen screen.
pub const SCREEN_BODY_TOP: i32 = 19;

pub const SCREEN_BODY_BOTTOM: i32 = DISPLAY_HEIGHT - 3;

/// Progress bar geometry. The fillable interior is 100 pixels wide, so one percent is one pixel.
pub const PROGRESS_BAR_X: i32 = 12;

pub const PROGRESS_BAR_Y: i32 = 34;

pub const PROGRESS_BAR_WIDTH: u32 = 104;

pub const PROGRESS_BAR_HEIGHT: u32 = 14;

pub const PROGRESS_FILL_WIDTH: u32 = 100;

pub const PROGRESS_FILL_HEIGHT: u32 = PROGRESS_BAR_HEIGHT - 4;

/// What the network page shows.
#[derive(Clone, Copy, Debug, PartialEq, Eq)]
pub struct NetworkPage<'a> {
    pub ssid: &'a str,
    pub ip_address: Option<&'a str>,
    pub broker_status: &'a str,
    pub device_id: &'a str,
    pub firmware_version: &'a str,
}

/// What the battery page shows.
#[derive(Clone, Copy, Debug, PartialEq, Eq)]
pub struct BatteryPage<'a> {
    /// `None` until the charger has been read, or while it does not answer.
    pub status: Option<ChargerStatus>,
    pub firmware_version: &'a str,
}

/// Why nothing could be drawn.
#[derive(Debug)]
pub enum DisplayError<E> {
    Bus(E),
    NotInitialized,
    CoordinatesOutOfRange,
}

/// A row with a label, and a value clipped to what fits.
pub open spec fn label_row(y: int, label: Seq<char>, value: Seq<char>) -> Seq<Mark> {
    seq![
        canvas::text_mark(label, MARGIN as int, y),
        canvas::text_mark(
            canvas::clipped(value, PAGE_VALUE_X as int),
            PAGE_VALUE_X as int,
            y,
        ),
    ]
}

/// A row with a text against each border.
pub open spec fn split_row(y: int, left: Seq<char>, right: Seq<char>) -> Seq<Mark> {
    seq![
        canvas::text_mark(left, MARGIN as int, y),
        canvas::text_mark(right, canvas::right_aligned(right), y),
    ]
}

/// The frame every menu page shares: the border, a title row with an annotation, and a separator.
pub open spec fn page_frame(title: Seq<char>, annotation: Seq<char>) -> Seq<Mark> {
    seq![canvas::border_mark()] + split_row(PAGE_TITLE_TOP as int, title, annotation)
        + seq![canvas::separator_mark(PAGE_SEPARATOR_Y as int)]
}

/// The network page: link state, network name, address, broker session and identity, with the
/// firmware version against the right border of the identity row.
pub open spec fn network_page(page: NetworkPage) -> Seq<Mark> {
    let version = numbers::version_text(page.firmware_version@);
    page_frame(
        "NETWORK"@,
        if page.ip_address is Some {
            "ONLINE"@
        } else {
            "NO LINK"@
        },
    ) + label_row(19, "SSID"@, page.ssid@) + label_row(
        30,
        "IP"@,
        match page.ip_address {
            Some(address) => address@,
            None => "---.---.---.---"@,
        },
    ) + label_row(41, "MQTT"@, page.broker_status@) + label_row(52, "ID"@, page.device_id@)
        + seq![canvas::text_mark(version, canvas::right_aligned(version), 52)]
}

/// What most deserves attention: a latched fault first, then a pack too hot or cold to charge, then
/// an input that is present but unusable, and otherwise a plain OK.
pub open spec fn health_text(status: ChargerStatus) -> Seq<char> {
    match status.fault {
        Some(fault) => fault.text(),
        None => match status.thermistor.text() {
            Some(text) => text,
            None => if status.plugged_in() && !status.power_good {
                "POOR PWR"@
            } else {
                "OK"@
            },
        },
    }
}

/// The battery page: charge and charger state in the header, then pack, cells, input, and the
/// charger's temperature with its health.
pub open spec fn battery_page(page: BatteryPage) -> Seq<Mark> {
    let version = numbers::version_text(page.firmware_version@);
    match page.status {
        None => page_frame("BATTERY"@, "--"@) + seq![
            canvas::text_mark(
                "NO CHARGER DATA"@,
                canvas::centered("NO CHARGER DATA"@),
                30,
            ),
        ] + split_row(52, ""@, version),
        Some(status) => page_frame(
            "BAT "@ + numbers::decimal(
                battery::soc(status.weaker_cell_mv() as int) as nat,
            ) + "%"@,
            status.state.text(),
        ) + split_row(
            19,
            "VBAT "@ + numbers::hundredths(status.vbat_mv as int) + "V"@,
            numbers::hundredths(status.charge_current_ma as int) + "A"@,
        ) + label_row(
            30,
            "CELL"@,
            numbers::hundredths(status.cell_top_mv as int) + "/"@ + numbers::hundredths(
                status.cell_bot_mv as int,
            ) + "V"@,
        ) + split_row(
            41,
            // With nothing plugged in, what the input ADC reads is noise.
            if status.plugged_in() {
                "VBUS "@ + numbers::hundredths(status.vbus_mv as int) + "V"@
            } else {
                "VBUS "@ + "--"@
            },
            if status.plugged_in() {
                numbers::hundredths(status.input_current_ma as int) + "A"@
            } else {
                ""@
            },
        ) + split_row(
            52,
            numbers::signed_decimal(rounding::quotient(status.die_temp_dc as int, 10)) + "C "@
                + health_text(status),
            version,
        ),
    }
}

/// A message's lines, centered, one below the other from `y` on.
pub open spec fn message_lines(lines: Seq<Seq<char>>, y: int) -> Seq<Mark> {
    Seq::new(
        lines.len(),
        |i: int| canvas::text_mark(lines[i], canvas::centered(lines[i]), y + i * LINE_HEIGHT),
    )
}

/// The frame of a full-screen screen: the border, a centered title and a separator.
pub open spec fn screen_frame(title: Seq<char>) -> Seq<Mark> {
    seq![
        canvas::border_mark(),
        canvas::text_mark(title, canvas::centered(title), PAGE_TITLE_TOP as int),
        canvas::separator_mark(SCREEN_SEPARATOR_Y as int),
    ]
}

/// The lines a message is broken into.
pub open spec fn lines_of(message: Seq<char>) -> Seq<Seq<char>> {
    wrap::wrapped(
        wrap::trimmed_end(wrap::trimmed_start(message)),
        SCREEN_MESSAGE_MAX_LINES as int,
    )
}

/// A progress bar and the figure below it.
pub open spec fn progress(percent: int) -> Seq<Mark> {
    let figure = numbers::decimal(percent as nat) + "%"@;
    seq![
        Mark::Outline {
            x: PROGRESS_BAR_X as int,
            y: PROGRESS_BAR_Y as int,
            width: PROGRESS_BAR_WIDTH as int,
            height: PROGRESS_BAR_HEIGHT as int,
        },
        Mark::Filled {
            x: PROGRESS_BAR_X + 2,
            y: PROGRESS_BAR_Y + 2,
            width: percent,
            height: PROGRESS_FILL_HEIGHT as int,
        },
        canvas::text_mark(figure, canvas::centered(figure), SCREEN_BODY_BOTTOM - LINE_HEIGHT),
    ]
}

/// A framed full-screen screen. With a percentage, the message's first line sits on top of the body
/// and leaves room for the progress bar; without one, the message takes the whole body, vertically
/// centered.
pub open spec fn screen(title: Seq<char>, message: Seq<char>, percent: Option<u8>) -> Seq<Mark> {
    let lines = lines_of(message);
    match percent {
        Some(percent) => screen_frame(title) + message_lines(
            if lines.len() > 0 {
                lines.take(1)
            } else {
                lines
            },
            SCREEN_BODY_TOP as int,
        ) + progress(
            if percent > 100 {
                100
            } else {
                percent as int
            },
        ),
        None => screen_frame(title) + message_lines(
            lines,
            SCREEN_BODY_TOP + (SCREEN_BODY_BOTTOM - SCREEN_BODY_TOP - lines.len() * LINE_HEIGHT)
                / 2,
        ),
    }
}

/// Draws `label` in the label column and `value` in the value column of the row at `y`.
fn draw_label_row(canvas: &mut Canvas, y: i32, label: &str, value: &str)
    ensures
        final(canvas)@ == old(canvas)@ + label_row(y as int, label@, value@),
{
    canvas.text(label, MARGIN, y);
    canvas.text(clip_to_row(value, PAGE_VALUE_X), PAGE_VALUE_X, y);
    assert(canvas@ =~= old(canvas)@ + label_row(y as int, label@, value@));
}

/// Draws the row at `y` with `left` against the left border and `right` against the right one.
fn draw_split_row(canvas: &mut Canvas, y: i32, left: &str, right: &str)
    requires
        canvas::measurable(right@),
    ensures
        final(canvas)@ == old(canvas)@ + split_row(y as int, left@, right@),
{
    canvas.text(left, MARGIN, y);
    canvas.text(right, right_aligned_x(right), y);
    assert(canvas@ =~= old(canvas)@ + split_row(y as int, left@, right@));
}

/// Draws the frame every menu page shares.
fn draw_page_frame(canvas: &mut Canvas, title: &str, annotation: &str)
    requires
        canvas::measurable(annotation@),
    ensures
        final(canvas)@ == old(canvas)@ + page_frame(title@, annotation@),
{
    canvas.outline(0, 0, DISPLAY_WIDTH as u32, DISPLAY_HEIGHT as u32);
    draw_split_row(canvas, PAGE_TITLE_TOP, title, annotation);
    canvas.separator(PAGE_SEPARATOR_Y);
    assert(canvas@ =~= old(canvas)@ + page_frame(title@, annotation@));
}

/// Composes the network page.
pub fn draw_network_page(page: &NetworkPage) -> (canvas: Canvas)
    ensures
        canvas@ == network_page(*page),
{
    proof {
        reveal_strlit("ONLINE");
        reveal_strlit("NO LINK");
        numbers::version_is_short(page.firmware_version@);
    }
    let version = version_label(page.firmware_version);
    let mut canvas = Canvas::new();
    draw_page_frame(
        &mut canvas,
        "NETWORK",
        if page.ip_address.is_some() {
            "ONLINE"
        } else {
            "NO LINK"
        },
    );
    draw_label_row(&mut canvas, PAGE_ROWS[0], "SSID", page.ssid);
    let address: &str = match page.ip_address {
        Some(address) => address,
        None => "---.---.---.---",
    };
    draw_label_row(&mut canvas, PAGE_ROWS[1], "IP", address);
    draw_label_row(&mut canvas, PAGE_ROWS[2], "MQTT", page.broker_status);
    draw_label_row(&mut canvas, PAGE_ROWS[3], "ID", page.device_id);
    let version_text: &str = label_text(&version);
    canvas.text(version_text, right_aligned_x(version_text), PAGE_ROWS[3]);
    assert(canvas@ =~= network_page(*page));
    canvas
}

/// The texts of the battery page's health slot are plain and short.
proof fn health_is_short(status: ChargerStatus)
    ensures
        numbers::plain(health_text(status)),
        health_text(status).len() <= 9,
{
    reveal_strlit("OVERTEMP");
    reveal_strlit("VBUS OVP");
    reveal_strlit("CHG TIMER");
    reveal_strlit("PACK WARM");
    reveal_strlit("PACK COOL");
    reveal_strlit("PACK COLD");
    reveal_strlit("PACK HOT");
    reveal_strlit("PACK ?");
    reveal_strlit("POOR PWR");
    reveal_strlit("OK");
}

/// What most deserves attention.
fn health(status: &ChargerStatus) -> (text: &'static str)
    ensures
        text@ == health_text(*status),
{
    if let Some(fault) = status.fault {
        return fault.label();
    }
    if let Some(text) = status.thermistor.label() {
        return text;
    }
    if status.input_unusable() {
        "POOR PWR"
    } else {
        "OK"
    }
}

/// A label that reads `prefix`, a reading in units with two decimals, and `V`.
fn volts_label(prefix: &str, millivolts: u16) -> (text: heapless::String<16>)
    requires
        numbers::plain(prefix@),
        prefix@.len() <= 5,
    ensures
        label::label_chars(&text) == prefix@ + numbers::hundredths(millivolts as int) + "V"@,
{
    proof {
        numbers::hundredths_are_short(millivolts);
        reveal_strlit("V");
    }
    let reading = format_volts(millivolts);
    proof {
        numbers::plain_concatenates(numbers::hundredths(millivolts as int), "V"@);
    }
    let mut text = new_label();
    append(&mut text, prefix);
    append(&mut text, label_text(&reading));
    assert(label::label_chars(&text) =~= prefix@ + numbers::hundredths(millivolts as int) + "V"@);
    text
}

/// The header of the battery page.
fn charge_label(percent: u8) -> (text: heapless::String<16>)
    ensures
        label::label_chars(&text) == "BAT "@ + numbers::decimal(percent as nat) + "%"@,
{
    proof {
        numbers::decimal_is_short(percent as nat);
        reveal_strlit("BAT ");
        reveal_strlit("%");
    }
    let mut text = new_label();
    append(&mut text, "BAT ");
    append_decimal(&mut text, percent as u16);
    append(&mut text, "%");
    assert(label::label_chars(&text) =~= "BAT "@ + numbers::decimal(percent as nat) + "%"@);
    text
}

/// The two cell voltages of the battery page.
fn cells_label(top_mv: u16, bottom_mv: u16) -> (text: heapless::String<16>)
    ensures
        label::label_chars(&text) == numbers::hundredths(top_mv as int) + "/"@
            + numbers::hundredths(bottom_mv as int) + "V"@,
{
    proof {
        numbers::hundredths_are_short(top_mv);
        numbers::hundredths_are_short(bottom_mv);
        reveal_strlit("/");
        reveal_strlit("V");
    }
    let mut text = new_label();
    append_hundredths(&mut text, top_mv);
    append(&mut text, "/");
    append_hundredths(&mut text, bottom_mv);
    append(&mut text, "V");
    assert(label::label_chars(&text) =~= numbers::hundredths(top_mv as int) + "/"@
        + numbers::hundredths(bottom_mv as int) + "V"@);
    text
}

/// The charger's temperature and health.
fn footer_label(status: &ChargerStatus) -> (text: heapless::String<16>)
    ensures
        label::label_chars(&text) == numbers::signed_decimal(
            rounding::quotient(status.die_temp_dc as int, 10),
        ) + "C "@ + health_text(*status),
{
    let degrees: i16 = status.die_temp_dc / 10;
    proof {
        health_is_short(*status);
        reveal_strlit("-");
        reveal_strlit("C ");
        assert(degrees == rounding::quotient(status.die_temp_dc as int, 10));
        let magnitude = if degrees < 0 { -(degrees as int) } else { degrees as int };
        numbers::decimal_is_short(magnitude as nat);
    }
    let mut text = new_label();
    if degrees < 0 {
        append(&mut text, "-");
        append_decimal(&mut text, (-degrees) as u16);
    } else {
        append_decimal(&mut text, degrees as u16);
    }
    assert(label::label_chars(&text) =~= numbers::signed_decimal(degrees as int));
    append(&mut text, "C ");
    append(&mut text, health(status));
    assert(label::label_chars(&text) =~= numbers::signed_decimal(degrees as int) + "C "@
        + health_text(*status));
    text
}

/// Composes the battery page.
pub fn draw_battery_page(page: &BatteryPage) -> (canvas: Canvas)
    ensures
        canvas@ == battery_page(*page),
{
    proof {
        numbers::version_is_short(page.firmware_version@);
    }
    let version = version_label(page.firmware_version);
    let mut canvas = Canvas::new();
    let status = match page.status {
        Some(status) => status,
        None => {
            proof {
                reveal_strlit("--");
                reveal_strlit("NO CHARGER DATA");
            }
            draw_page_frame(&mut canvas, "BATTERY", "--");
            canvas.text("NO CHARGER DATA", centered_x("NO CHARGER DATA"), PAGE_ROWS[1]);
            draw_split_row(&mut canvas, PAGE_ROWS[3], "", label_text(&version));
            assert(canvas@ =~= battery_page(*page));
            return canvas;
        },
    };
    proof {
        reveal_strlit("VBAT ");
        reveal_strlit("VBUS ");
        reveal_strlit("A");
        reveal_strlit("");
        state_is_short(status);
        numbers::hundredths_are_short(status.charge_current_ma);
        numbers::hundredths_are_short(status.input_current_ma);
    }
    let header = charge_label(status.state_of_charge());
    let pack = volts_label("VBAT ", status.vbat_mv);
    let charge_current = format_amps(status.charge_current_ma);
    let cells = cells_label(status.cell_top_mv, status.cell_bot_mv);
    let footer = footer_label(&status);
    draw_page_frame(&mut canvas, label_text(&header), status.state.label());
    draw_split_row(&mut canvas, PAGE_ROWS[0], label_text(&pack), label_text(&charge_current));
    draw_label_row(&mut canvas, PAGE_ROWS[1], "CELL", label_text(&cells));
    if status.input_present() {
        let input = volts_label("VBUS ", status.vbus_mv);
        let input_current = format_amps(status.input_current_ma);
        draw_split_row(&mut canvas, PAGE_ROWS[2], label_text(&input), label_text(&input_current));
    } else {
        let mut input = new_label();
        proof {
            reveal_strlit("--");
        }
        append(&mut input, "VBUS ");
        append(&mut input, "--");
        assert(label::label_chars(&input) =~= "VBUS "@ + "--"@);
        draw_split_row(&mut canvas, PAGE_ROWS[2], label_text(&input), "");
    }
    draw_split_row(&mut canvas, PAGE_ROWS[3], label_text(&footer), label_text(&version));
    assert(canvas@ =~= battery_page(*page));
    canvas
}

/// The charger state's label is short.
proof fn state_is_short(status: ChargerStatus)
    ensures
        status.state.text().len() <= 8,
{
    reveal_strlit("IDLE");
    reveal_strlit("TRICKLE");
    reveal_strlit("PRECHG");
    reveal_strlit("CHARGING");
    reveal_strlit("TAPER");
    reveal_strlit("TOP-OFF");
    reveal_strlit("FULL");
    reveal_strlit("?");
}

/// Composes a framed full-screen screen: `title` centered above a separator, `message` word-wrapped
/// underneath. With `percent` set, the body makes room for a progress bar and the figure below it,
/// which leaves only the message's first line room to show.
pub fn draw_screen(title: &str, message: &str, percent: Option<u8>) -> (canvas: Canvas)
    requires
        canvas::measurable(title@),
    ensures
        canvas@ == screen(title@, message@, percent),
{
    let wrapped = wrap_message(message);
    let lines: &[&str] = lines_slice(&wrapped);
    let ghost texts = lines_of(message@);
    proof {
        wrap::wrapped_lines_fit(
            wrap::trimmed_end(wrap::trimmed_start(message@)),
            SCREEN_MESSAGE_MAX_LINES as int,
        );
    }
    let mut canvas = Canvas::new();
    canvas.outline(0, 0, DISPLAY_WIDTH as u32, DISPLAY_HEIGHT as u32);
    canvas.text(title, centered_x(title), PAGE_TITLE_TOP);
    canvas.separator(SCREEN_SEPARATOR_Y);
    assert(canvas@ =~= screen_frame(title@));
    match percent {
        Some(percent) => {
            let percent: u8 = if percent > 100 {
                100
            } else {
                percent
            };
            if lines.len() > 0 {
                assert(lines@[0]@ == texts[0]);
                canvas.text(lines[0], centered_x(lines[0]), SCREEN_BODY_TOP);
            }
            assert(canvas@ =~= screen_frame(title@) + message_lines(
                if texts.len() > 0 {
                    texts.take(1)
                } else {
                    texts
                },
                SCREEN_BODY_TOP as int,
            ));
            canvas.outline(
                PROGRESS_BAR_X,
                PROGRESS_BAR_Y,
                PROGRESS_BAR_WIDTH,
                PROGRESS_BAR_HEIGHT,
            );
            canvas.filled(
                PROGRESS_BAR_X + 2,
                PROGRESS_BAR_Y + 2,
                PROGRESS_FILL_WIDTH * percent as u32 / 100,
                PROGRESS_FILL_HEIGHT,
            );
            let figure = percent_label(percent);
            let figure_text: &str = label_text(&figure);
            canvas.text(figure_text, centered_x(figure_text), SCREEN_BODY_BOTTOM - LINE_HEIGHT);
            assert(canvas@ =~= screen(title@, message@, Some(percent)));
        },
        None => {
            let ghost frame = canvas@;
            let block_height: i32 = lines.len() as i32 * LINE_HEIGHT;
            let top: i32 = SCREEN_BODY_TOP + (SCREEN_BODY_BOTTOM - SCREEN_BODY_TOP - block_height)
                / 2;
            let mut i: usize = 0;
            let mut y: i32 = top;
            while i < lines.len()
                invariant
                    i <= lines@.len(),
                    lines@.len() <= SCREEN_MESSAGE_MAX_LINES,
                    lines@.len() == texts.len(),
                    forall|k: int| 0 <= k < lines@.len() ==> (#[trigger] lines@[k])@ == texts[k],
                    forall|k: int| 0 <= k < texts.len() ==> (#[trigger] texts[k]).len() <= 20,
                    0 <= top <= 40,
                    y == top + i * LINE_HEIGHT,
                    canvas@ =~= frame + message_lines(texts, top as int).take(i as int),
                decreases lines@.len() - i,
            {
                assert(lines@[i as int]@ == texts[i as int]);
                canvas.text(lines[i], centered_x(lines[i]), y);
                i = i + 1;
                y = y + LINE_HEIGHT;
            }
            assert(canvas@ =~= frame + message_lines(texts, top as int));
        },
    }
    canvas
}

/// The figure below a progress bar.
fn percent_label(percent: u8) -> (text: heapless::String<16>)
    ensures
        label::label_chars(&text) == numbers::decimal(percent as nat) + "%"@,
        label::label_chars(&text).len() <= 4,
{
    proof {
        numbers::decimal_is_short(percent as nat);
        reveal_strlit("%");
    }
    let mut text = new_label();
    append_decimal(&mut text, percent as u16);
    append(&mut text, "%");
    assert(label::label_chars(&text) =~= numbers::decimal(percent as nat) + "%"@);
    text
}

/// Composes the firmware update screen.
pub fn draw_firmware_update(message: &str, percent: Option<u8>) -> (canvas: Canvas)
    ensures
        canvas@ == screen("FIRMWARE UPDATE"@, message@, percent),
{
    proof {
        reveal_strlit("FIRMWARE UPDATE");
    }
    draw_screen("FIRMWARE UPDATE", message, percent)
}

/// Composes a notice.
pub fn draw_notice(title: &str, message: &str) -> (canvas: Canvas)
    requires
        canvas::measurable(title@),
    ensures
        canvas@ == screen(title@, message@, None),
{
    draw_screen(title, message, None)
}

/// Composes a free-standing text at pixel coordinates, if they are ones the display arithmetic can
/// hold.
pub fn draw_text<E>(x: u32, y: u32, text: &str) -> (canvas: Result<Canvas, DisplayError<E>>)
    ensures
        match canvas {
            Ok(canvas) => {
                &&& x <= i32::MAX && y <= i32::MAX
                &&& canvas@ == seq![
                    Mark::Text {
                        text: text@,
                        x: x as int,
                        y: y as int,
                        anchor: canvas::TextAnchor::Baseline,
                    },
                ]
            },
            Err(error) => error is CoordinatesOutOfRange && (x > i32::MAX || y > i32::MAX),
        },
{
    if x > i32::MAX as u32 || y > i32::MAX as u32 {
        return Err(DisplayError::CoordinatesOutOfRange);
    }
    let mut canvas = Canvas::new();
    canvas.standing_text(text, x as i32, y as i32);
    Ok(canvas)
}

/// A message's lines stay inside the body of the screen, clear of its borders, and do not touch
/// each other.
pub proof fn message_stays_in_the_body(message: Seq<char>, i: int)
    requires
        0 <= i < lines_of(message).len(),
    ensures
        ({
            let lines = lines_of(message);
            let top = SCREEN_BODY_TOP + (SCREEN_BODY_BOTTOM - SCREEN_BODY_TOP - lines.len()
                * LINE_HEIGHT) / 2;
            let y = top + i * LINE_HEIGHT;
            &&& message_lines(lines, top)[i] == canvas::text_mark(
                lines[i],
                canvas::centered(lines[i]),
                y,
            )
            &&& SCREEN_BODY_TOP <= y
            &&& y + LINE_HEIGHT <= SCREEN_BODY_BOTTOM
            &&& canvas::centered(lines[i]) >= MARGIN
            &&& canvas::centered(lines[i]) + canvas::width_of(lines[i]) <= DISPLAY_WIDTH - MARGIN
        }),
{
    wrap::wrapped_lines_fit(
        wrap::trimmed_end(wrap::trimmed_start(message)),
        SCREEN_MESSAGE_MAX_LINES as int,
    );
    let lines = lines_of(message);
    assert(lines[i].len() <= 20);
}

/// One percent of progress is one pixel, and the filled part never leaves the bar.
pub proof fn progress_fills_the_bar(percent: int)
    requires
        0 <= percent <= 100,
    ensures
        progress(percent)[1] == (Mark::Filled {
            x: PROGRESS_BAR_X + 2,
            y: PROGRESS_BAR_Y + 2,
            width: percent,
            height: PROGRESS_BAR_HEIGHT - 4,
        }),
        PROGRESS_BAR_X + 2 + percent <= PROGRESS_BAR_X + PROGRESS_BAR_WIDTH - 2,
{
}

/// A text at a place, hanging from its top edge.
pub open spec fn shows(marks: Seq<Mark>, text: Seq<char>, x: int, y: int) -> bool {
    marks.contains(Mark::Text { text, x, y, anchor: canvas::TextAnchor::Top })
}

/// A text that ends at the right margin, hanging from its top edge; one too wide for that starts at
/// the panel's edge.
pub open spec fn shows_at_the_right(marks: Seq<Mark>, text: Seq<char>, y: int) -> bool {
    shows(
        marks,
        text,
        if text.len() <= 20 {
            124 - 6 * text.len()
        } else {
            0
        },
        y,
    )
}

/// A text has its place on a screen if it is one of the marks there.
proof fn mark_is_shown(marks: Seq<Mark>, i: int, text: Seq<char>, x: int, y: int)
    requires
        0 <= i < marks.len(),
        marks[i] == canvas::text_mark(text, x, y),
    ensures
        shows(marks, text, x, y),
{
    assert(marks[i] == marks[i]);
}

/// The network page names the page and the link, and behind each of its four labels shows what the
/// label says, cut to its row: the network's name, the address or dashes, the broker session, and
/// the robot's identity next to the firmware version. There is nothing else on it but the border
/// and the separator.
pub proof fn the_network_page_shows_the_link(page: NetworkPage)
    ensures
        ({
            let marks = network_page(page);
            let value = |text: Seq<char>| if text.len() <= 14 {
                text
            } else {
                text.take(14)
            };
            &&& marks.len() == 13
            &&& marks[0] == (Mark::Outline { x: 0, y: 0, width: 128, height: 64 })
            &&& marks[3] == (Mark::Line { from_x: 0, from_y: 15, to_x: 127, to_y: 15 })
            &&& shows(marks, "NETWORK"@, 4, 3)
            &&& page.ip_address is Some ==> shows_at_the_right(marks, "ONLINE"@, 3)
            &&& page.ip_address is None ==> shows_at_the_right(marks, "NO LINK"@, 3)
            &&& shows(marks, "SSID"@, 4, 19) && shows(marks, value(page.ssid@), 40, 19)
            &&& shows(marks, "IP"@, 4, 30)
            &&& page.ip_address matches Some(address) ==> shows(marks, value(address@), 40, 30)
            &&& page.ip_address is None ==> shows(marks, value("---.---.---.---"@), 40, 30)
            &&& shows(marks, "MQTT"@, 4, 41) && shows(marks, value(page.broker_status@), 40, 41)
            &&& shows(marks, "ID"@, 4, 52) && shows(marks, value(page.device_id@), 40, 52)
            &&& shows_at_the_right(marks, numbers::version_text(page.firmware_version@), 52)
        }),
{
    reveal_strlit("ONLINE");
    reveal_strlit("NO LINK");
    let marks = network_page(page);
    let annotation = if page.ip_address is Some {
        "ONLINE"@
    } else {
        "NO LINK"@
    };
    let address = match page.ip_address {
        Some(address) => address@,
        None => "---.---.---.---"@,
    };
    let version = numbers::version_text(page.firmware_version@);
    numbers::version_is_short(page.firmware_version@);
    mark_is_shown(marks, 1, "NETWORK"@, 4, 3);
    mark_is_shown(marks, 2, annotation, canvas::right_aligned(annotation), 3);
    mark_is_shown(marks, 4, "SSID"@, 4, 19);
    mark_is_shown(marks, 5, canvas::clipped(page.ssid@, 40), 40, 19);
    mark_is_shown(marks, 6, "IP"@, 4, 30);
    mark_is_shown(marks, 7, canvas::clipped(address, 40), 40, 30);
    mark_is_shown(marks, 8, "MQTT"@, 4, 41);
    mark_is_shown(marks, 9, canvas::clipped(page.broker_status@, 40), 40, 41);
    mark_is_shown(marks, 10, "ID"@, 4, 52);
    mark_is_shown(marks, 11, canvas::clipped(page.device_id@, 40), 40, 52);
    mark_is_shown(marks, 12, version, canvas::right_aligned(version), 52);
}

/// The battery page shows the charge and the charger's state in its header, the pack's voltage and
/// charge current, both cells' voltages, the input's voltage and current while there is an input,
/// and the charger's temperature in whole degrees with its health, next to the firmware version.
pub proof fn the_battery_page_shows_the_readings(page: BatteryPage, status: ChargerStatus)
    requires
        page.status == Some(status),
    ensures
        ({
            let marks = battery_page(page);
            let volts = |mv: u16| numbers::hundredths(mv as int) + "V"@;
            let amps = |ma: u16| numbers::hundredths(ma as int) + "A"@;
            let charge = battery::soc(status.weaker_cell_mv() as int) as nat;
            let degrees = rounding::quotient(status.die_temp_dc as int, 10);
            &&& marks.len() == 12
            &&& marks[0] == (Mark::Outline { x: 0, y: 0, width: 128, height: 64 })
            &&& marks[3] == (Mark::Line { from_x: 0, from_y: 15, to_x: 127, to_y: 15 })
            &&& shows(marks, "BAT "@ + numbers::decimal(charge) + "%"@, 4, 3)
            &&& shows_at_the_right(marks, status.state.text(), 3)
            &&& shows(marks, "VBAT "@ + volts(status.vbat_mv), 4, 19)
            &&& shows_at_the_right(marks, amps(status.charge_current_ma), 19)
            &&& shows(marks, "CELL"@, 4, 30)
            &&& shows(
                marks,
                numbers::hundredths(status.cell_top_mv as int) + "/"@ + volts(status.cell_bot_mv),
                40,
                30,
            )
            &&& status.vbus_mv >= 3_000 ==> shows(marks, "VBUS "@ + volts(status.vbus_mv), 4, 41)
                && shows_at_the_right(marks, amps(status.input_current_ma), 41)
            &&& status.vbus_mv < 3_000 ==> shows(marks, "VBUS --"@, 4, 41) && shows_at_the_right(
                marks,
                ""@,
                41,
            )
            &&& shows(
                marks,
                numbers::signed_decimal(degrees) + "C "@ + health_text(status),
                4,
                52,
            )
            &&& shows_at_the_right(marks, numbers::version_text(page.firmware_version@), 52)
        }),
{
    reveal_strlit("A");
    reveal_strlit("V");
    reveal_strlit("/");
    reveal_strlit("");
    reveal_strlit("--");
    reveal_strlit("VBUS ");
    reveal_strlit("VBUS --");
    let marks = battery_page(page);
    let version = numbers::version_text(page.firmware_version@);
    let charge = numbers::decimal(battery::soc(status.weaker_cell_mv() as int) as nat);
    let (vbat, vbus) = (
        numbers::hundredths(status.vbat_mv as int),
        numbers::hundredths(status.vbus_mv as int),
    );
    let (top, bottom) = (
        numbers::hundredths(status.cell_top_mv as int),
        numbers::hundredths(status.cell_bot_mv as int),
    );
    let charging = numbers::hundredths(status.charge_current_ma as int) + "A"@;
    let drawn = numbers::hundredths(status.input_current_ma as int) + "A"@;
    numbers::version_is_short(page.firmware_version@);
    numbers::hundredths_are_short(status.charge_current_ma);
    numbers::hundredths_are_short(status.input_current_ma);
    numbers::hundredths_are_short(status.cell_top_mv);
    numbers::hundredths_are_short(status.cell_bot_mv);
    state_is_short(status);
    mark_is_shown(marks, 1, "BAT "@ + charge + "%"@, 4, 3);
    mark_is_shown(marks, 2, status.state.text(), canvas::right_aligned(status.state.text()), 3);
    assert("VBAT "@ + vbat + "V"@ =~= "VBAT "@ + (vbat + "V"@));
    mark_is_shown(marks, 4, "VBAT "@ + (vbat + "V"@), 4, 19);
    mark_is_shown(marks, 5, charging, canvas::right_aligned(charging), 19);
    mark_is_shown(marks, 6, "CELL"@, 4, 30);
    assert(top + "/"@ + bottom + "V"@ =~= top + "/"@ + (bottom + "V"@));
    mark_is_shown(marks, 7, top + "/"@ + (bottom + "V"@), 40, 30);
    if status.vbus_mv >= 3_000 {
        assert("VBUS "@ + vbus + "V"@ =~= "VBUS "@ + (vbus + "V"@));
        mark_is_shown(marks, 8, "VBUS "@ + (vbus + "V"@), 4, 41);
        mark_is_shown(marks, 9, drawn, canvas::right_aligned(drawn), 41);
    } else {
        assert("VBUS "@ + "--"@ =~= "VBUS --"@);
        mark_is_shown(marks, 8, "VBUS --"@, 4, 41);
        mark_is_shown(marks, 9, ""@, canvas::right_aligned(""@), 41);
    }
    mark_is_shown(
        marks,
        10,
        numbers::signed_decimal(rounding::quotient(status.die_temp_dc as int, 10)) + "C "@
            + health_text(status),
        4,
        52,
    );
    mark_is_shown(marks, 11, version, canvas::right_aligned(version), 52);
}

/// Without a charger to read, the battery page says so, and still shows the firmware version.
pub proof fn the_battery_page_says_when_there_is_nothing_to_show(page: BatteryPage)
    requires
        page.status is None,
    ensures
        ({
            let marks = battery_page(page);
            &&& marks.len() == 7
            &&& shows(marks, "BATTERY"@, 4, 3) && shows_at_the_right(marks, "--"@, 3)
            &&& shows(marks, "NO CHARGER DATA"@, 19, 30)
            &&& shows_at_the_right(marks, numbers::version_text(page.firmware_version@), 52)
        }),
{
    reveal_strlit("--");
    reveal_strlit("NO CHARGER DATA");
    let marks = battery_page(page);
    let version = numbers::version_text(page.firmware_version@);
    numbers::version_is_short(page.firmware_version@);
    mark_is_shown(marks, 1, "BATTERY"@, 4, 3);
    mark_is_shown(marks, 2, "--"@, canvas::right_aligned("--"@), 3);
    mark_is_shown(marks, 4, "NO CHARGER DATA"@, 19, 30);
    mark_is_shown(marks, 6, version, canvas::right_aligned(version), 52);
}

/// A fault is shown before anything else, a pack out of its temperature window before a poor input,
/// and all is well only if there is none of them.
pub proof fn the_worst_news_is_shown(status: ChargerStatus)
    ensures
        status.fault matches Some(fault) ==> health_text(status) == fault.text(),
        status.fault is None && !(status.thermistor is Normal) ==> Some(health_text(status))
            == status.thermistor.text(),
        status.fault is None && status.thermistor is Normal ==> health_text(status) == (
        if status.vbus_mv >= 3_000 && !status.power_good {
            "POOR PWR"@
        } else {
            "OK"@
        }),
{
}

/// A full-screen screen shows its title centered above a separator, and without a percentage all of
/// the message's lines, centered on the body of 42 pixels from 19 on, eleven pixels apart.
pub proof fn screens_show_the_whole_message(title: Seq<char>, message: Seq<char>)
    ensures
        ({
            let marks = screen(title, message, None);
            let lines = lines_of(message);
            &&& marks.len() == 3 + lines.len() && lines.len() <= 3
            &&& marks[0] == (Mark::Outline { x: 0, y: 0, width: 128, height: 64 })
            &&& marks[1] == canvas::text_mark(title, canvas::centered(title), 3)
            &&& marks[2] == (Mark::Line { from_x: 0, from_y: 16, to_x: 127, to_y: 16 })
            &&& forall|i: int|
                0 <= i < lines.len() ==> #[trigger] marks[3 + i] == canvas::text_mark(
                    lines[i],
                    canvas::centered(lines[i]),
                    19 + (42 - 11 * lines.len()) / 2 + 11 * i,
                )
        }),
        lines_of(message) == wrap::wrapped(
            wrap::trimmed_end(wrap::trimmed_start(message)),
            3,
        ),
{
    wrap::wrapped_lines_fit(wrap::trimmed_end(wrap::trimmed_start(message)), 3);
}

/// With a percentage, a full-screen screen shows the message's first line on top of the body, the
/// bar filled by one pixel per percent up to a hundred, and the figure below it.
pub proof fn screens_show_the_progress(title: Seq<char>, message: Seq<char>, percent: u8)
    ensures
        ({
            let marks = screen(title, message, Some(percent));
            let lines = lines_of(message);
            let shown = if percent <= 100 {
                percent as int
            } else {
                100
            };
            let first = if lines.len() > 0 {
                1int
            } else {
                0int
            };
            let figure = numbers::decimal(shown as nat) + "%"@;
            &&& marks.len() == 6 + first
            &&& marks[0] == (Mark::Outline { x: 0, y: 0, width: 128, height: 64 })
            &&& marks[1] == canvas::text_mark(title, canvas::centered(title), 3)
            &&& marks[2] == (Mark::Line { from_x: 0, from_y: 16, to_x: 127, to_y: 16 })
            &&& lines.len() > 0 ==> marks[3] == canvas::text_mark(
                lines[0],
                canvas::centered(lines[0]),
                19,
            )
            &&& marks[3 + first] == (Mark::Outline { x: 12, y: 34, width: 104, height: 14 })
            &&& marks[4 + first] == (Mark::Filled { x: 14, y: 36, width: shown, height: 10 })
            &&& marks[5 + first] == canvas::text_mark(figure, canvas::centered(figure), 50)
        }),
{
}

} // verus!
