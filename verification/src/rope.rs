//! The text buffer: `ropey::Rope`, known to the verifier through the sequence
//! of characters it holds.

use ropey::Rope;
use vstd::prelude::*;

verus! {

/// `ropey::Rope`, a value that only its own methods look into.
#[verifier::external_type_specification]
#[verifier::external_body]
pub struct ExRope(Rope);

/// The characters that a rope holds, in order.
pub uninterp spec fn rope_chars(rope: Rope) -> Seq<char>;

/// `text` without the characters at the positions `start..end`.
pub open spec fn without_range(text: Seq<char>, start: int, end: int) -> Seq<char> {
    text.subrange(0, start) + text.subrange(end, text.len() as int)
}

/// `Rope::new` creates an empty rope.
pub assume_specification[ Rope::new ]() -> (rope: Rope)
    ensures
        rope_chars(rope) == Seq::<char>::empty(),
;

/// `Rope::from_str` builds a rope that holds the characters of `text`.
pub assume_specification[ Rope::from_str ](text: &str) -> (rope: Rope)
    ensures
        rope_chars(rope) == text@,
;

/// `Rope::len_chars` counts the characters of the rope.
pub assume_specification[ Rope::len_chars ](rope: &Rope) -> (len: usize)
    ensures
        len == rope_chars(*rope).len(),
;

/// `Rope::insert_char` puts `ch` in front of the character at `char_idx`, or
/// at the end where `char_idx` is the length. It panics on a larger index,
/// which the precondition leaves out.
pub assume_specification[ Rope::insert_char ](rope: &mut Rope, char_idx: usize, ch: char)
    requires
        char_idx <= rope_chars(*old(rope)).len(),
    ensures
        rope_chars(*final(rope)) == rope_chars(*old(rope)).insert(char_idx as int, ch),
;

/// `Rope::remove` on the half-open range `start..end` takes those characters
/// out and keeps the rest in order. It panics where `start > end` or
/// `end` is past the length, which the precondition leaves out.
#[verifier::external_body]
pub(crate) fn remove_range(rope: &mut Rope, start: usize, end: usize)
    requires
        start <= end <= rope_chars(*old(rope)).len(),
    ensures
        rope_chars(*final(rope)) == without_range(
            rope_chars(*old(rope)),
            start as int,
            end as int,
        ),
{
    rope.remove(start..end);
}

/// `String::from` on a borrowed rope collects its characters, in order, into a
/// string.
#[verifier::external_body]
pub(crate) fn rope_text(rope: &Rope) -> (text: String)
    ensures
        text@ == rope_chars(*rope),
{
    String::from(rope)
}

} // verus!
