//! Breaking a message into lines that fit the panel.

use vstd::prelude::*;

use crate::display::label;
use crate::display::label::{lines_are_full, new_lines, push_line};

verus! {

/// Widest line that still fits between the borders: `20 * 6 = 120` of the 128 pixels.
pub const SCREEN_MESSAGE_MAX_CHARS: usize = 20;

/// Lines a message may take.
pub const SCREEN_MESSAGE_MAX_LINES: usize = 3;

/// Whether a character has the Unicode property `White_Space`.
pub open spec fn whitespace(c: char) -> bool {
    let code = c as int;
    ||| 0x09 <= code <= 0x0D
    ||| code == 0x20
    ||| code == 0x85
    ||| code == 0xA0
    ||| code == 0x1680
    ||| 0x2000 <= code <= 0x200A
    ||| code == 0x2028
    ||| code == 0x2029
    ||| code == 0x202F
    ||| code == 0x205F
    ||| code == 0x3000
}

/// `char::is_whitespace`: whether a character has the Unicode property `White_Space`.
pub assume_specification[ char::is_whitespace ](c: char) -> (white: bool)
    ensures
        white == whitespace(c),
;

/// `text` without leading white space.
pub open spec fn trimmed_start(text: Seq<char>) -> Seq<char>
    decreases text.len(),
{
    if text.len() > 0 && whitespace(text[0]) {
        trimmed_start(text.skip(1))
    } else {
        text
    }
}

/// `text` without trailing white space.
pub open spec fn trimmed_end(text: Seq<char>) -> Seq<char>
    decreases text.len(),
{
    if text.len() > 0 && whitespace(text.last()) {
        trimmed_end(text.drop_last())
    } else {
        text
    }
}

/// Position of the last space among the first `limit` characters, if there is one.
pub open spec fn last_space(text: Seq<char>, limit: int) -> Option<int>
    decreases limit,
{
    if limit <= 0 {
        None
    } else if text[limit - 1] == ' ' {
        Some(limit - 1)
    } else {
        last_space(text, limit - 1)
    }
}

/// Where a text too long for one line is broken: at the last space that leaves no more before it
/// than fits on the line, or else right at the line's end.
pub open spec fn break_at(text: Seq<char>) -> int {
    match last_space(text, SCREEN_MESSAGE_MAX_CHARS + 1) {
        Some(at) => at,
        None => SCREEN_MESSAGE_MAX_CHARS as int,
    }
}

/// `text`, which has no white space at its start, broken greedily into at most `room` lines.
pub open spec fn wrapped(text: Seq<char>, room: int) -> Seq<Seq<char>>
    decreases room,
{
    if text.len() == 0 || room <= 0 {
        Seq::empty()
    } else if text.len() <= SCREEN_MESSAGE_MAX_CHARS {
        seq![text]
    } else {
        seq![trimmed_end(text.take(break_at(text)))] + wrapped(
            trimmed_start(text.skip(break_at(text))),
            room - 1,
        )
    }
}

/// `text` without leading white space.
fn trim_start(text: &str) -> (trimmed: &str)
    ensures
        trimmed@ == trimmed_start(text@),
{
    let len: usize = text.unicode_len();
    let mut from: usize = 0;
    assert(text@.skip(0) =~= text@);
    while from < len && text.get_char(from).is_whitespace()
        invariant
            from <= len,
            len == text@.len(),
            trimmed_start(text@) == trimmed_start(text@.skip(from as int)),
        decreases len - from,
    {
        assert(text@.skip(from as int).skip(1) =~= text@.skip(from + 1));
        from = from + 1;
    }
    assert(text@.skip(from as int) =~= text@.subrange(from as int, len as int));
    text.substring_char(from, len)
}

/// `text` without trailing white space.
fn trim_end(text: &str) -> (trimmed: &str)
    ensures
        trimmed@ == trimmed_end(text@),
{
    let mut len: usize = text.unicode_len();
    assert(text@.take(len as int) =~= text@);
    while len > 0 && text.get_char(len - 1).is_whitespace()
        invariant
            len <= text@.len(),
            trimmed_end(text@) == trimmed_end(text@.take(len as int)),
        decreases len,
    {
        assert(text@.take(len as int).drop_last() =~= text@.take(len - 1));
        len = len - 1;
    }
    assert(text@.take(len as int) =~= text@.subrange(0, len as int));
    text.substring_char(0, len)
}

/// Where a text too long for one line is broken.
fn find_break(text: &str) -> (at: usize)
    requires
        text@.len() > SCREEN_MESSAGE_MAX_CHARS,
    ensures
        at == break_at(text@),
        at <= SCREEN_MESSAGE_MAX_CHARS,
{
    let mut limit: usize = SCREEN_MESSAGE_MAX_CHARS + 1;
    while limit > 0
        invariant
            limit <= SCREEN_MESSAGE_MAX_CHARS + 1,
            text@.len() > SCREEN_MESSAGE_MAX_CHARS,
            last_space(text@, limit as int) == last_space(text@, SCREEN_MESSAGE_MAX_CHARS + 1),
        decreases limit,
    {
        if text.get_char(limit - 1) == ' ' {
            return limit - 1;
        }
        limit = limit - 1;
    }
    SCREEN_MESSAGE_MAX_CHARS
}

/// Greedily wraps `text` on spaces into at most `SCREEN_MESSAGE_MAX_LINES` lines that fit the panel
/// width. A word too long to fit on its own is hard-split rather than dropped; anything past the
/// last line is truncated.
pub fn wrap_message(text: &str) -> (lines: heapless::Vec<&str, 3>)
    ensures
        label::line_texts(&lines) == wrapped(
            trimmed_end(trimmed_start(text@)),
            SCREEN_MESSAGE_MAX_LINES as int,
        ),
{
    let mut lines = new_lines();
    let mut rest: &str = trim_end(trim_start(text));
    let ghost whole = rest@;
    while !rest.is_empty() && !lines_are_full(&lines)
        invariant
            whole == trimmed_end(trimmed_start(text@)),
            label::line_texts(&lines).len() <= SCREEN_MESSAGE_MAX_LINES,
            label::line_texts(&lines) + wrapped(
                rest@,
                SCREEN_MESSAGE_MAX_LINES - label::line_texts(&lines).len(),
            ) =~= wrapped(whole, SCREEN_MESSAGE_MAX_LINES as int),
        decreases SCREEN_MESSAGE_MAX_LINES - label::line_texts(&lines).len(),
    {
        let len: usize = rest.unicode_len();
        if len <= SCREEN_MESSAGE_MAX_CHARS {
            let _ = push_line(&mut lines, rest);
            return lines;
        }
        let at: usize = find_break(rest);
        assert(rest@.subrange(0, at as int) =~= rest@.take(at as int));
        assert(rest@.subrange(at as int, len as int) =~= rest@.skip(at as int));
        let line: &str = trim_end(rest.substring_char(0, at));
        let _ = push_line(&mut lines, line);
        rest = trim_start(rest.substring_char(at, len));
    }
    lines
}

/// What of a text is visible: everything but white space.
pub open spec fn ink(text: Seq<char>) -> Seq<char>
    decreases text.len(),
{
    if text.len() == 0 {
        Seq::empty()
    } else if whitespace(text[0]) {
        ink(text.skip(1))
    } else {
        seq![text[0]] + ink(text.skip(1))
    }
}

/// What of a list of lines is visible.
pub open spec fn ink_of_lines(lines: Seq<Seq<char>>) -> Seq<char>
    decreases lines.len(),
{
    if lines.len() == 0 {
        Seq::empty()
    } else {
        ink(lines[0]) + ink_of_lines(lines.skip(1))
    }
}

/// The ink of a text put together from two parts is the ink of the parts.
proof fn ink_concatenates(a: Seq<char>, b: Seq<char>)
    ensures
        ink(a + b) == ink(a) + ink(b),
    decreases a.len(),
{
    if a.len() == 0 {
        assert(a + b =~= b);
        assert(ink(a) + ink(b) =~= ink(b));
    } else {
        ink_concatenates(a.skip(1), b);
        assert((a + b).skip(1) =~= a.skip(1) + b);
        if !whitespace(a[0]) {
            assert(seq![a[0]] + (ink(a.skip(1)) + ink(b)) =~= (seq![a[0]] + ink(a.skip(1))) + ink(
                b,
            ));
        }
    }
}

/// Trimming takes no ink away, and never makes a text longer.
pub proof fn trimming_keeps_the_ink(text: Seq<char>)
    ensures
        ink(trimmed_start(text)) == ink(text),
        ink(trimmed_end(text)) == ink(text),
        trimmed_start(text).len() <= text.len(),
        trimmed_end(text).len() <= text.len(),
        trimmed_start(text).len() > 0 ==> !whitespace(trimmed_start(text)[0]),
        trimmed_end(text).len() > 0 ==> !whitespace(trimmed_end(text).last()),
        text.len() > 0 && !whitespace(text[0]) ==> trimmed_end(text).len() > 0 && trimmed_end(
            text,
        )[0] == text[0],
    decreases text.len(),
{
    if text.len() > 0 {
        trimming_keeps_the_ink(text.skip(1));
        trimming_keeps_the_ink(text.drop_last());
        let last = seq![text.last()];
        assert(text =~= text.drop_last() + last);
        ink_concatenates(text.drop_last(), last);
        reveal_with_fuel(ink, 2);
        assert(ink(text.drop_last()) + Seq::<char>::empty() =~= ink(text.drop_last()));
    }
}

/// Every line of a wrapped message fits the panel, and there are no more of them than there is room
/// for. If the message starts with ink, every line does.
pub proof fn wrapped_lines_fit(text: Seq<char>, room: int)
    requires
        0 <= room,
    ensures
        wrapped(text, room).len() <= room,
        forall|i: int|
            0 <= i < wrapped(text, room).len() ==> (#[trigger] wrapped(text, room)[i]).len()
                <= SCREEN_MESSAGE_MAX_CHARS,
        !(text.len() > 0 && whitespace(text[0])) ==> forall|i: int|
            0 <= i < wrapped(text, room).len() ==> 0 < (#[trigger] wrapped(text, room)[i]).len()
                && !whitespace(wrapped(text, room)[i][0]),
    decreases room,
{
    if text.len() > SCREEN_MESSAGE_MAX_CHARS && room > 0 {
        let at = break_at(text);
        last_space_is_the_last(text, SCREEN_MESSAGE_MAX_CHARS + 1);
        let head = text.take(at);
        let tail = text.skip(at);
        trimming_keeps_the_ink(head);
        trimming_keeps_the_ink(tail);
        wrapped_lines_fit(trimmed_start(tail), room - 1);
        let rest = wrapped(trimmed_start(tail), room - 1);
        assert forall|i: int| 0 < i < wrapped(text, room).len() implies #[trigger] wrapped(
            text,
            room,
        )[i] == rest[i - 1] by {}
    }
}

/// The position found holds a space, none behind it does, and none is found only if there is none.
proof fn last_space_is_the_last(text: Seq<char>, limit: int)
    ensures
        match last_space(text, limit) {
            Some(at) => 0 <= at < limit && text[at] == ' ' && forall|k: int|
                at < k < limit ==> text[k] != ' ',
            None => forall|k: int| 0 <= k < limit ==> text[k] != ' ',
        },
    decreases limit,
{
    if limit > 0 {
        last_space_is_the_last(text, limit - 1);
    }
}

/// Wrapping is greedy: a line is broken at a space, and no later space would still leave a line
/// that fits. Only where there is no space to break at is the line filled to its end.
pub proof fn wrapping_is_greedy(text: Seq<char>)
    requires
        text.len() > SCREEN_MESSAGE_MAX_CHARS,
    ensures
        0 <= break_at(text) <= SCREEN_MESSAGE_MAX_CHARS,
        forall|k: int| break_at(text) < k <= SCREEN_MESSAGE_MAX_CHARS ==> text[k] != ' ',
        text[break_at(text)] == ' ' || break_at(text) == SCREEN_MESSAGE_MAX_CHARS && forall|k: int|
            0 <= k <= SCREEN_MESSAGE_MAX_CHARS ==> text[k] != ' ',
{
    last_space_is_the_last(text, SCREEN_MESSAGE_MAX_CHARS + 1);
}

/// Wrapping drops nothing but white space: what the lines show is the beginning of what the message
/// shows, and all of it unless every line has been used up.
pub proof fn wrapping_keeps_the_words(text: Seq<char>, room: int)
    requires
        0 <= room,
    ensures
        ink_of_lines(wrapped(text, room)).is_prefix_of(ink(text)),
        wrapped(text, room).len() < room ==> ink_of_lines(wrapped(text, room)) == ink(text),
    decreases room,
{
    let lines = wrapped(text, room);
    if text.len() == 0 || room <= 0 {
        assert(ink_of_lines(lines) =~= Seq::empty());
    } else if text.len() <= SCREEN_MESSAGE_MAX_CHARS {
        assert(lines.skip(1) =~= Seq::empty());
        assert(ink_of_lines(lines.skip(1)) =~= Seq::empty());
        assert(ink_of_lines(lines) =~= ink(text));
    } else {
        let at = break_at(text);
        last_space_is_the_last(text, SCREEN_MESSAGE_MAX_CHARS + 1);
        let head = text.take(at);
        let tail = text.skip(at);
        assert(text =~= head + tail);
        ink_concatenates(head, tail);
        trimming_keeps_the_ink(head);
        trimming_keeps_the_ink(tail);
        wrapping_keeps_the_words(trimmed_start(tail), room - 1);
        assert(lines.skip(1) =~= wrapped(trimmed_start(tail), room - 1));
        assert(lines[0] == trimmed_end(head));
        let rest = ink_of_lines(wrapped(trimmed_start(tail), room - 1));
        assert((ink(head) + rest).is_prefix_of(ink(head) + ink(tail)));
    }
}

/// Trimming takes white space off one end and nothing else: what it leaves is the rest of the text,
/// and what it takes is white space throughout.
pub proof fn trimming_takes_white_space_only(text: Seq<char>)
    ensures
        ({
            let cut = text.len() - trimmed_start(text).len();
            &&& 0 <= cut
            &&& trimmed_start(text) == text.skip(cut)
            &&& forall|i: int| 0 <= i < cut ==> whitespace(#[trigger] text[i])
            &&& trimmed_start(text).len() > 0 ==> !whitespace(trimmed_start(text)[0])
        }),
        ({
            let kept = trimmed_end(text).len();
            &&& kept <= text.len()
            &&& trimmed_end(text) == text.take(kept as int)
            &&& forall|i: int| kept <= i < text.len() ==> whitespace(#[trigger] text[i])
            &&& kept > 0 ==> !whitespace(text[kept - 1])
        }),
    decreases text.len(),
{
    if text.len() == 0 {
        assert(text.skip(0) =~= text);
        assert(text.take(0) =~= text);
    } else {
        let tail = text.skip(1);
        let head = text.drop_last();
        trimming_takes_white_space_only(tail);
        trimming_takes_white_space_only(head);
        if whitespace(text[0]) {
            let cut = tail.len() - trimmed_start(tail).len();
            assert(tail.skip(cut) =~= text.skip(cut + 1));
            assert forall|i: int| 0 <= i < cut + 1 implies whitespace(#[trigger] text[i]) by {
                if i > 0 {
                    assert(tail[i - 1] == text[i]);
                }
            }
        } else {
            assert(text.skip(0) =~= text);
        }
        if whitespace(text.last()) {
            let kept = trimmed_end(head).len() as int;
            assert(head.take(kept) =~= text.take(kept));
            assert forall|i: int| kept <= i < text.len() implies whitespace(#[trigger] text[i]) by {
                if i < head.len() {
                    assert(head[i] == text[i]);
                }
            }
        } else {
            assert(text.take(text.len() as int) =~= text);
        }
    }
}

/// A message that fits is one line. Of a longer one, the first line ends at the last space that
/// leaves no more than twenty characters before it, or after twenty characters if there is none,
/// and the rest is wrapped in the same way into the lines that are left.
pub proof fn first_lines_are_filled(text: Seq<char>, room: int)
    requires
        room > 0,
        text.len() > 0,
    ensures
        text.len() <= 20 ==> wrapped(text, room) == seq![text],
        text.len() > 20 ==> exists|at: int| #[trigger]
            ends_at(text, at) && wrapped(text, room) == seq![trimmed_end(text.take(at))]
                + wrapped(trimmed_start(text.skip(at)), room - 1),
        wrapped(text, 0) == Seq::<Seq<char>>::empty(),
        wrapped(Seq::empty(), room) == Seq::<Seq<char>>::empty(),
{
    if text.len() > 20 {
        wrapping_is_greedy(text);
        assert(ends_at(text, break_at(text)));
    }
}

/// Whether a line filled as far as possible ends at a place: at the last of the spaces with no more
/// than twenty characters before them, or after twenty characters if there is none.
pub open spec fn ends_at(text: Seq<char>, at: int) -> bool {
    &&& 0 <= at <= 20
    &&& text[at] == ' ' || at == 20 && forall|k: int| 0 <= k <= 20 ==> text[k] != ' '
    &&& forall|k: int| at < k <= 20 ==> text[k] != ' '
}

} // verus!
