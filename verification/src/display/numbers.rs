//! Numbers as short texts.

use vstd::prelude::*;
use vstd::utf8;

use crate::display::label;
use crate::display::label::{new_label, push_text, LABEL_CAPACITY};

verus! {

/// The decimal digit of a number below ten.
pub open spec fn digit(d: int) -> char {
    (48 + d) as u8 as char
}

/// A natural number in decimal, without leading zeros.
pub open spec fn decimal(n: nat) -> Seq<char>
    decreases n,
{
    if n < 10 {
        seq![digit(n as int)]
    } else {
        decimal(n / 10).push(digit((n % 10) as int))
    }
}

/// A number below a hundred with exactly two digits.
pub open spec fn two_digits(n: int) -> Seq<char> {
    seq![digit(n / 10), digit(n % 10)]
}

/// An integer in decimal.
pub open spec fn signed_decimal(n: int) -> Seq<char> {
    if n < 0 {
        "-"@ + decimal((-n) as nat)
    } else {
        decimal(n as nat)
    }
}

/// Thousandths as units with two decimals, truncated.
pub open spec fn hundredths(thousandths: int) -> Seq<char> {
    decimal((thousandths / 1000) as nat) + "."@ + two_digits(thousandths % 1000 / 10)
}

/// Text that takes one byte per character.
pub open spec fn plain(text: Seq<char>) -> bool {
    utf8::is_ascii_chars(text)
}

/// Plain texts put together are plain, and take as many bytes as characters.
pub proof fn plain_concatenates(a: Seq<char>, b: Seq<char>)
    requires
        plain(a),
        plain(b),
    ensures
        plain(a + b),
        utf8::encode_utf8(a).len() == a.len(),
        utf8::encode_utf8(a + b).len() == a.len() + b.len(),
{
    utf8::is_ascii_chars_concat(a + b, a, b);
    utf8::is_ascii_chars_encode_utf8(a);
    utf8::is_ascii_chars_encode_utf8(a + b);
}

/// A number's decimal form is plain, and has at most five digits below 100000, at most two below a
/// hundred, and at most three below a thousand.
pub proof fn decimal_is_short(n: nat)
    requires
        n < 100_000,
    ensures
        plain(decimal(n)),
        decimal(n).len() <= 5,
        n < 10_000 ==> decimal(n).len() <= 4,
        n < 1_000 ==> decimal(n).len() <= 3,
        n < 100 ==> decimal(n).len() <= 2,
        decimal(n).len() >= 1,
{
    reveal_with_fuel(decimal, 6);
}

/// Appends a plain text that fits.
pub(crate) fn append(label: &mut heapless::String<16>, text: &str)
    requires
        plain(label::label_chars(old(label))),
        plain(text@),
        label::label_chars(old(label)).len() + text@.len() <= LABEL_CAPACITY,
    ensures
        label::label_chars(final(label)) == label::label_chars(old(label)) + text@,
        plain(label::label_chars(final(label))),
{
    proof {
        plain_concatenates(label::label_chars(label), text@);
        utf8::is_ascii_chars_encode_utf8(text@);
    }
    let _ = push_text(label, text);
}

/// The text of one digit.
fn digit_text(d: u16) -> (text: &'static str)
    requires
        d < 10,
    ensures
        text@ == seq![digit(d as int)],
        plain(text@),
{
    proof {
        reveal_strlit("0");
        reveal_strlit("1");
        reveal_strlit("2");
        reveal_strlit("3");
        reveal_strlit("4");
        reveal_strlit("5");
        reveal_strlit("6");
        reveal_strlit("7");
        reveal_strlit("8");
        reveal_strlit("9");
    }
    let text: &'static str = match d {
        0 => "0",
        1 => "1",
        2 => "2",
        3 => "3",
        4 => "4",
        5 => "5",
        6 => "6",
        7 => "7",
        8 => "8",
        _ => "9",
    };
    assert(text@ =~= seq![digit(d as int)]);
    text
}

/// Appends a number in decimal.
pub(crate) fn append_decimal(label: &mut heapless::String<16>, n: u16)
    requires
        plain(label::label_chars(old(label))),
        label::label_chars(old(label)).len() + decimal(n as nat).len() <= LABEL_CAPACITY,
    ensures
        label::label_chars(final(label)) == label::label_chars(old(label)) + decimal(n as nat),
        plain(label::label_chars(final(label))),
    decreases n,
{
    if n >= 10 {
        append_decimal(label, n / 10);
    }
    append(label, digit_text(n % 10));
    assert(label::label_chars(label) =~= label::label_chars(old(label)) + decimal(n as nat));
}

/// Appends a number below a hundred with two digits.
fn append_two_digits(label: &mut heapless::String<16>, n: u16)
    requires
        n < 100,
        plain(label::label_chars(old(label))),
        label::label_chars(old(label)).len() + 2 <= LABEL_CAPACITY,
    ensures
        label::label_chars(final(label)) == label::label_chars(old(label)) + two_digits(n as int),
        plain(label::label_chars(final(label))),
{
    append(label, digit_text(n / 10));
    append(label, digit_text(n % 10));
    assert(label::label_chars(label) =~= label::label_chars(old(label)) + two_digits(n as int));
}

/// Appends thousandths as units with two decimals, truncated.
pub(crate) fn append_hundredths(label: &mut heapless::String<16>, thousandths: u16)
    requires
        plain(label::label_chars(old(label))),
        label::label_chars(old(label)).len() + hundredths(thousandths as int).len()
            <= LABEL_CAPACITY,
    ensures
        label::label_chars(final(label)) == label::label_chars(old(label)) + hundredths(
            thousandths as int,
        ),
        plain(label::label_chars(final(label))),
{
    proof {
        reveal_strlit(".");
    }
    append_decimal(label, thousandths / 1000);
    append(label, ".");
    append_two_digits(label, thousandths % 1000 / 10);
    assert(label::label_chars(label) =~= label::label_chars(old(label)) + hundredths(
        thousandths as int,
    ));
}

/// A reading in units with two decimals takes at most five characters.
pub proof fn hundredths_are_short(thousandths: u16)
    ensures
        plain(hundredths(thousandths as int)),
        4 <= hundredths(thousandths as int).len() <= 5,
{
    reveal_strlit(".");
    decimal_is_short((thousandths / 1000) as nat);
}

/// Formats a millivolt reading as `8.12V`, i.e. two decimals, truncated.
pub fn format_volts(millivolts: u16) -> (text: heapless::String<16>)
    ensures
        label::label_chars(&text) == hundredths(millivolts as int) + "V"@,
{
    proof {
        hundredths_are_short(millivolts);
        reveal_strlit("V");
    }
    let mut text = new_label();
    append_hundredths(&mut text, millivolts);
    append(&mut text, "V");
    assert(label::label_chars(&text) =~= hundredths(millivolts as int) + "V"@);
    text
}

/// Formats a milliamp reading as `0.45A`, i.e. two decimals, truncated.
pub fn format_amps(milliamps: u16) -> (text: heapless::String<16>)
    ensures
        label::label_chars(&text) == hundredths(milliamps as int) + "A"@,
{
    proof {
        hundredths_are_short(milliamps);
        reveal_strlit("A");
    }
    let mut text = new_label();
    append_hundredths(&mut text, milliamps);
    append(&mut text, "A");
    assert(label::label_chars(&text) =~= hundredths(milliamps as int) + "A"@);
    text
}

/// The firmware version as shown: behind a `v`, or left out if it does not fit a label.
pub open spec fn version_text(firmware_version: Seq<char>) -> Seq<char> {
    if utf8::encode_utf8(firmware_version).len() < LABEL_CAPACITY {
        "v"@ + firmware_version
    } else {
        "v"@
    }
}

/// Formats the firmware version for display.
pub fn version_label(firmware_version: &str) -> (version: heapless::String<16>)
    ensures
        label::label_chars(&version) == version_text(firmware_version@),
{
    let mut version = new_label();
    proof {
        reveal_strlit("v");
        utf8::is_ascii_chars_encode_utf8("v"@);
    }
    append(&mut version, "v");
    assert(label::label_chars(&version) =~= "v"@);
    let _ = push_text(&mut version, firmware_version);
    version
}

/// A text never takes fewer bytes than it has characters.
proof fn bytes_cover_characters(text: Seq<char>)
    ensures
        text.len() <= utf8::encode_utf8(text).len(),
    decreases text.len(),
{
    if text.len() > 0 {
        bytes_cover_characters(text.drop_first());
    }
}

/// The version as shown has at most as many characters as a label has bytes.
pub proof fn version_is_short(firmware_version: Seq<char>)
    ensures
        1 <= version_text(firmware_version).len() <= LABEL_CAPACITY,
{
    reveal_strlit("v");
    bytes_cover_characters(firmware_version);
}

/// The number a decimal text stands for.
pub open spec fn number_of(text: Seq<char>) -> int
    decreases text.len(),
{
    if text.len() == 0 {
        0
    } else {
        10 * number_of(text.drop_last()) + (text.last() as int - 48)
    }
}

/// The decimal form of a number reads back as that number.
pub proof fn decimal_reads_back(n: nat)
    ensures
        number_of(decimal(n)) == n,
    decreases n,
{
    reveal_with_fuel(number_of, 2);
    if n < 10 {
        assert(decimal(n).drop_last().len() == 0);
        assert(digit(n as int) as int == 48 + n);
    } else {
        decimal_reads_back(n / 10);
        assert(decimal(n).drop_last() =~= decimal(n / 10));
        assert(digit((n % 10) as int) as int == 48 + n % 10);
    }
}

/// A number's decimal form consists of digits, and starts with a zero only if it is zero.
pub proof fn decimal_has_no_leading_zero(n: nat)
    ensures
        decimal(n).len() >= 1,
        forall|i: int| 0 <= i < decimal(n).len() ==> '0' <= #[trigger] decimal(n)[i] <= '9',
        n > 0 ==> decimal(n)[0] != '0',
        n == 0 ==> decimal(n) == seq!['0'],
    decreases n,
{
    if n >= 10 {
        decimal_has_no_leading_zero(n / 10);
    }
}

/// Two digits read back as the number below a hundred they stand for.
proof fn two_digits_read_back(n: int)
    requires
        0 <= n < 100,
    ensures
        number_of(two_digits(n)) == n,
        two_digits(n).len() == 2,
{
    reveal_with_fuel(number_of, 3);
    let text = two_digits(n);
    assert(text.drop_last() =~= seq![digit(n / 10)]);
    assert(text.drop_last().drop_last() =~= Seq::empty());
    assert(digit(n / 10) as int == 48 + n / 10);
    assert(digit(n % 10) as int == 48 + n % 10);
}

/// A reading in thousandths is shown as whole units, a point and exactly two decimals, and what is
/// shown falls short of it by less than a hundredth.
pub proof fn readings_read_back(thousandths: int)
    requires
        0 <= thousandths,
    ensures
        ({
            let text = hundredths(thousandths);
            let point = text.len() - 3;
            let shown = 1_000 * number_of(text.take(point)) + 10 * number_of(text.skip(point + 1));
            &&& point >= 1
            &&& text[point] == '.'
            &&& shown <= thousandths < shown + 10
        }),
{
    reveal_strlit(".");
    let whole = decimal((thousandths / 1000) as nat);
    let part = two_digits(thousandths % 1000 / 10);
    let text = hundredths(thousandths);
    let point = text.len() - 3;
    decimal_has_no_leading_zero((thousandths / 1000) as nat);
    decimal_reads_back((thousandths / 1000) as nat);
    two_digits_read_back(thousandths % 1000 / 10);
    assert(text.take(point) =~= whole);
    assert(text.skip(point + 1) =~= part);
}

/// A negative number is its opposite behind a minus sign, and any other number has no sign.
pub proof fn signs_are_shown(n: int)
    ensures
        n >= 0 ==> signed_decimal(n) == decimal(n as nat) && signed_decimal(n)[0] != '-',
        n < 0 ==> signed_decimal(n)[0] == '-' && signed_decimal(n).skip(1) == signed_decimal(-n),
{
    reveal_strlit("-");
    if n >= 0 {
        decimal_has_no_leading_zero(n as nat);
    } else {
        assert(signed_decimal(n).skip(1) =~= decimal((-n) as nat));
    }
}

/// A version is shown whole behind a `v` if it takes no more than fifteen bytes, and otherwise not
/// at all.
pub proof fn versions_are_shown_whole_or_not(firmware_version: Seq<char>)
    ensures
        version_text(firmware_version)[0] == 'v',
        utf8::encode_utf8(firmware_version).len() <= 15 ==> version_text(firmware_version).skip(1)
            == firmware_version,
        utf8::encode_utf8(firmware_version).len() > 15 ==> version_text(firmware_version).len()
            == 1,
{
    reveal_strlit("v");
    if utf8::encode_utf8(firmware_version).len() <= 15 {
        assert(version_text(firmware_version).skip(1) =~= firmware_version);
    }
}

} // verus!
