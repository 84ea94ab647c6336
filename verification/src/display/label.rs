//! Fixed-capacity texts and line lists, as provided by the `heapless` crate.
//!
//! Nothing about `heapless` is proved here. Each function below makes one call into it and states
//! what that call does to the contents.

use vstd::prelude::*;
use vstd::utf8;

verus! {

/// A text of at most `N` bytes, `heapless::String`.
#[verifier::external_type_specification]
#[verifier::external_body]
pub struct ExHeaplessString<const N: usize>(heapless::String<N>);

/// A list of at most `N` items, `heapless::Vec`.
#[verifier::external_type_specification]
#[verifier::external_body]
#[verifier::reject_recursive_types(T)]
pub struct ExHeaplessVec<T, const N: usize>(heapless::Vec<T, N>);

/// Capacity of a label, in bytes.
pub const LABEL_CAPACITY: usize = 16;

/// Capacity of a line list.
pub const LINE_CAPACITY: usize = 3;

/// The characters a label holds.
pub uninterp spec fn label_chars(label: &heapless::String<16>) -> Seq<char>;

/// The texts a line list holds, in order.
pub uninterp spec fn line_texts(lines: &heapless::Vec<&str, 3>) -> Seq<Seq<char>>;

/// `heapless::String::new`: a label without contents.
#[verifier::external_body]
pub(crate) fn new_label() -> (label: heapless::String<16>)
    ensures
        label_chars(&label) == Seq::<char>::empty(),
{
    heapless::String::new()
}

/// `heapless::String::push_str`: appends `text` if its UTF-8 form still fits, and otherwise changes
/// nothing and reports failure.
#[verifier::external_body]
pub(crate) fn push_text(label: &mut heapless::String<16>, text: &str) -> (pushed: Result<(), ()>)
    ensures
        pushed is Ok <==> utf8::encode_utf8(label_chars(old(label))).len() + utf8::encode_utf8(
            text@,
        ).len() <= LABEL_CAPACITY,
        label_chars(final(label)) == (if pushed is Ok {
            label_chars(old(label)) + text@
        } else {
            label_chars(old(label))
        }),
{
    label.push_str(text)
}

/// `heapless::String::as_str`: the contents as a string slice.
#[verifier::external_body]
pub(crate) fn label_text(label: &heapless::String<16>) -> (text: &str)
    ensures
        text@ == label_chars(label),
{
    label.as_str()
}

/// `heapless::Vec::new`: a list without lines.
#[verifier::external_body]
pub(crate) fn new_lines<'a>() -> (lines: heapless::Vec<&'a str, 3>)
    ensures
        line_texts(&lines) == Seq::<Seq<char>>::empty(),
{
    heapless::Vec::new()
}

/// `heapless::Vec::push`: appends `line` if there is room, and otherwise changes nothing and hands
/// it back.
#[verifier::external_body]
pub(crate) fn push_line<'a>(
    lines: &mut heapless::Vec<&'a str, 3>,
    line: &'a str,
) -> (pushed: Result<(), &'a str>)
    ensures
        pushed == (if line_texts(old(lines)).len() < LINE_CAPACITY {
            Ok::<(), &'a str>(())
        } else {
            Err(line)
        }),
        line_texts(final(lines)) == (if line_texts(old(lines)).len() < LINE_CAPACITY {
            line_texts(old(lines)).push(line@)
        } else {
            line_texts(old(lines))
        }),
{
    lines.push(line)
}

/// `heapless::Vec::is_full`: whether the list has as many lines as it can hold.
#[verifier::external_body]
pub(crate) fn lines_are_full(lines: &heapless::Vec<&str, 3>) -> (full: bool)
    ensures
        full == (line_texts(lines).len() == LINE_CAPACITY),
{
    lines.is_full()
}

/// `heapless::Vec::as_slice`: the lines as a slice, no more of them than the capacity.
#[verifier::external_body]
pub(crate) fn lines_slice<'a, 'b>(lines: &'b heapless::Vec<&'a str, 3>) -> (slice: &'b [&'a str])
    ensures
        slice@.len() == line_texts(lines).len(),
        slice@.len() <= LINE_CAPACITY,
        forall|i: int| 0 <= i < slice@.len() ==> (#[trigger] slice@[i])@ == line_texts(lines)[i],
{
    lines.as_slice()
}

} // verus!
