//! What can be drawn, and where texts go.

use vstd::prelude::*;

verus! {

pub const DISPLAY_WIDTH: i32 = 128;

pub const DISPLAY_HEIGHT: i32 = 64;

/// Width of a glyph. Text is drawn without character spacing, so a string's pixel width is its
/// character count times this.
pub const CHAR_WIDTH: i32 = 6;

/// Glyph height plus one pixel of leading.
pub const LINE_HEIGHT: i32 = 11;

/// Distance kept between text and the border rectangle.
pub const MARGIN: i32 = 4;

/// What a text's vertical position refers to.
#[derive(Clone, Copy, Debug, PartialEq, Eq, Structural)]
pub enum TextAnchor {
    /// The top of the glyphs.
    Top,
    /// The line the glyphs stand on.
    Baseline,
}

/// One thing to draw.
#[derive(Debug, PartialEq, Eq)]
pub enum DrawOp {
    Text { text: String, x: i32, y: i32, anchor: TextAnchor },
    /// The one-pixel outline of a rectangle.
    Outline { x: i32, y: i32, width: u32, height: u32 },
    /// A filled rectangle.
    Filled { x: i32, y: i32, width: u32, height: u32 },
    /// A one-pixel line.
    Line { from_x: i32, from_y: i32, to_x: i32, to_y: i32 },
}

/// What one thing looks like.
pub enum Mark {
    Text { text: Seq<char>, x: int, y: int, anchor: TextAnchor },
    Outline { x: int, y: int, width: int, height: int },
    Filled { x: int, y: int, width: int, height: int },
    Line { from_x: int, from_y: int, to_x: int, to_y: int },
}

impl View for DrawOp {
    type V = Mark;

    open spec fn view(&self) -> Mark {
        match self {
            DrawOp::Text { text, x, y, anchor } => Mark::Text {
                text: text@,
                x: *x as int,
                y: *y as int,
                anchor: *anchor,
            },
            DrawOp::Outline { x, y, width, height } => Mark::Outline {
                x: *x as int,
                y: *y as int,
                width: *width as int,
                height: *height as int,
            },
            DrawOp::Filled { x, y, width, height } => Mark::Filled {
                x: *x as int,
                y: *y as int,
                width: *width as int,
                height: *height as int,
            },
            DrawOp::Line { from_x, from_y, to_x, to_y } => Mark::Line {
                from_x: *from_x as int,
                from_y: *from_y as int,
                to_x: *to_x as int,
                to_y: *to_y as int,
            },
        }
    }
}

/// A screen being composed: the things to draw, in order, on a cleared panel.
#[derive(Debug)]
pub struct Canvas {
    pub ops: Vec<DrawOp>,
}

impl View for Canvas {
    type V = Seq<Mark>;

    open spec fn view(&self) -> Seq<Mark> {
        self.ops@.map_values(|op: DrawOp| op@)
    }
}

/// A text hanging from its top edge.
pub open spec fn text_mark(text: Seq<char>, x: int, y: int) -> Mark {
    Mark::Text { text, x, y, anchor: TextAnchor::Top }
}

/// Pixel width of a text.
pub open spec fn width_of(text: Seq<char>) -> int {
    text.len() * CHAR_WIDTH
}

/// Whether a text's pixel width is a number the display arithmetic can hold.
pub open spec fn measurable(text: Seq<char>) -> bool {
    width_of(text) <= i32::MAX
}

/// Left edge of a text centered on the panel; the panel's edge if it is too wide.
pub open spec fn centered(text: Seq<char>) -> int {
    if width_of(text) > DISPLAY_WIDTH {
        0
    } else {
        (DISPLAY_WIDTH - width_of(text)) / 2
    }
}

/// Left edge of a text against the right margin; the panel's edge if it is too wide.
pub open spec fn right_aligned(text: Seq<char>) -> int {
    if width_of(text) > DISPLAY_WIDTH - MARGIN {
        0
    } else {
        DISPLAY_WIDTH - MARGIN - width_of(text)
    }
}

/// How many characters fit between `x` and the right margin.
pub open spec fn room_from(x: int) -> int {
    if x >= DISPLAY_WIDTH - MARGIN {
        0
    } else {
        (DISPLAY_WIDTH - MARGIN - x) / (CHAR_WIDTH as int)
    }
}

/// As much of a text as fits between `x` and the right margin.
pub open spec fn clipped(text: Seq<char>, x: int) -> Seq<char> {
    if text.len() <= room_from(x) {
        text
    } else {
        text.take(room_from(x))
    }
}

/// Pixel width of `text`.
pub fn text_width(text: &str) -> (width: i32)
    requires
        measurable(text@),
    ensures
        width == width_of(text@),
{
    text.unicode_len() as i32 * CHAR_WIDTH
}

/// Left edge of `text` when centered.
pub fn centered_x(text: &str) -> (x: i32)
    requires
        measurable(text@),
    ensures
        x == centered(text@),
        0 <= x <= DISPLAY_WIDTH,
{
    let x: i32 = (DISPLAY_WIDTH - text_width(text)) / 2;
    if x > 0 {
        x
    } else {
        0
    }
}

/// Left edge of `text` when right-aligned.
pub fn right_aligned_x(text: &str) -> (x: i32)
    requires
        measurable(text@),
    ensures
        x == right_aligned(text@),
        0 <= x <= DISPLAY_WIDTH,
{
    let x: i32 = DISPLAY_WIDTH - MARGIN - text_width(text);
    if x > 0 {
        x
    } else {
        0
    }
}

/// Clips `text` to the widest whole number of characters that still fits between `x` and the right
/// border, so an over-long value cannot run past the frame.
pub fn clip_to_row(text: &str, x: i32) -> (clipped_text: &str)
    requires
        DISPLAY_WIDTH - MARGIN - x <= i32::MAX,
    ensures
        clipped_text@ == clipped(text@, x as int),
{
    let room: i32 = (DISPLAY_WIDTH - MARGIN - x) / CHAR_WIDTH;
    let max_chars: usize = if room > 0 {
        room as usize
    } else {
        0
    };
    if text.unicode_len() <= max_chars {
        text
    } else {
        assert(text@.take(max_chars as int) =~= text@.subrange(0, max_chars as int));
        text.substring_char(0, max_chars)
    }
}

impl Canvas {
    /// A cleared panel.
    pub fn new() -> (canvas: Canvas)
        ensures
            canvas@ == Seq::<Mark>::empty(),
    {
        let canvas = Canvas { ops: Vec::new() };
        assert(canvas@ =~= Seq::<Mark>::empty());
        canvas
    }

    /// Adds one thing to draw.
    fn draw(&mut self, op: DrawOp)
        ensures
            final(self)@ == old(self)@.push(op@),
    {
        self.ops.push(op);
        assert(self@ =~= old(self)@.push(op@));
    }

    /// Adds a text hanging from its top edge.
    pub fn text(&mut self, text: &str, x: i32, y: i32)
        ensures
            final(self)@ == old(self)@.push(text_mark(text@, x as int, y as int)),
    {
        self.draw(DrawOp::Text { text: text.to_owned(), x, y, anchor: TextAnchor::Top });
    }

    /// Adds a text standing on its baseline.
    pub fn standing_text(&mut self, text: &str, x: i32, y: i32)
        ensures
            final(self)@ == old(self)@.push(
                (Mark::Text {
                    text: text@,
                    x: x as int,
                    y: y as int,
                    anchor: TextAnchor::Baseline,
                }),
            ),
    {
        self.draw(DrawOp::Text { text: text.to_owned(), x, y, anchor: TextAnchor::Baseline });
    }

    /// Adds the outline of a rectangle.
    pub fn outline(&mut self, x: i32, y: i32, width: u32, height: u32)
        ensures
            final(self)@ == old(self)@.push(
                (Mark::Outline {
                    x: x as int,
                    y: y as int,
                    width: width as int,
                    height: height as int,
                }),
            ),
    {
        self.draw(DrawOp::Outline { x, y, width, height });
    }

    /// Adds a filled rectangle.
    pub fn filled(&mut self, x: i32, y: i32, width: u32, height: u32)
        ensures
            final(self)@ == old(self)@.push(
                (Mark::Filled {
                    x: x as int,
                    y: y as int,
                    width: width as int,
                    height: height as int,
                }),
            ),
    {
        self.draw(DrawOp::Filled { x, y, width, height });
    }

    /// Adds a horizontal line across the panel.
    pub fn separator(&mut self, y: i32)
        ensures
            final(self)@ == old(self)@.push(separator_mark(y as int)),
    {
        self.draw(DrawOp::Line { from_x: 0, from_y: y, to_x: DISPLAY_WIDTH - 1, to_y: y });
    }
}

/// A horizontal line across the panel.
pub open spec fn separator_mark(y: int) -> Mark {
    Mark::Line { from_x: 0, from_y: y, to_x: DISPLAY_WIDTH - 1, to_y: y }
}

/// The border around the panel.
pub open spec fn border_mark() -> Mark {
    Mark::Outline { x: 0, y: 0, width: DISPLAY_WIDTH as int, height: DISPLAY_HEIGHT as int }
}

/// A clipped text never runs past the right margin, and what is cut off would have.
pub proof fn clipped_text_fits(text: Seq<char>, x: int)
    requires
        0 <= x <= DISPLAY_WIDTH - MARGIN,
    ensures
        x + width_of(clipped(text, x)) <= DISPLAY_WIDTH - MARGIN,
        clipped(text, x).is_prefix_of(text),
        clipped(text, x) != text ==> x + width_of(clipped(text, x)) + CHAR_WIDTH > DISPLAY_WIDTH
            - MARGIN,
{
}

/// A right-aligned text that fits ends exactly at the right margin, whatever its length.
pub proof fn right_aligned_ends_at_the_margin(text: Seq<char>)
    requires
        width_of(text) <= DISPLAY_WIDTH - MARGIN,
    ensures
        right_aligned(text) + width_of(text) == DISPLAY_WIDTH - MARGIN,
{
}

/// A centered text that fits has the same space on either side.
pub proof fn centered_is_symmetric(text: Seq<char>)
    requires
        width_of(text) <= DISPLAY_WIDTH,
    ensures
        centered(text) == DISPLAY_WIDTH - (centered(text) + width_of(text)),
{
    assert(text.len() * CHAR_WIDTH == 6 * text.len());
}

/// A text is six pixels wide per character, so that putting texts side by side adds their widths.
pub proof fn widths_add_up(a: Seq<char>, b: Seq<char>)
    ensures
        width_of(a) == 6 * a.len(),
        width_of(a + b) == width_of(a) + width_of(b),
{
}

/// Wherever a row starts, what is drawn of a text is its beginning, as much of it as fits before
/// the right margin, and nothing if the row starts behind that.
pub proof fn clipping_is_tight(text: Seq<char>, x: int)
    ensures
        clipped(text, x).is_prefix_of(text),
        x > 124 ==> clipped(text, x).len() == 0,
        x <= 124 ==> x + 6 * clipped(text, x).len() <= 124,
        x <= 124 && clipped(text, x).len() < text.len() ==> x + 6 * (clipped(text, x).len() + 1)
            > 124,
{
}

/// A text that is too wide starts at the panel's edge, whichever way it is aligned, and none starts
/// before it.
pub proof fn wide_texts_start_at_the_edge(text: Seq<char>)
    ensures
        width_of(text) >= 128 ==> centered(text) == 0,
        width_of(text) >= 124 ==> right_aligned(text) == 0,
        width_of(text) <= 128 ==> 2 * centered(text) + width_of(text) == 128,
        width_of(text) <= 124 ==> right_aligned(text) + width_of(text) == 124,
{
}

/// The border runs along the edge of the 128 by 64 pixels, a separator from edge to edge at its
/// height, and a text hangs from the point it is given.
pub proof fn marks_are_where_they_say(text: Seq<char>, x: int, y: int)
    ensures
        border_mark() == (Mark::Outline { x: 0, y: 0, width: 128, height: 64 }),
        separator_mark(y) == (Mark::Line { from_x: 0, from_y: y, to_x: 127, to_y: y }),
        text_mark(text, x, y) == (Mark::Text { text, x, y, anchor: TextAnchor::Top }),
{
}

} // verus!
