//! The text of the focused window, as handed to the polish prompt.
use vstd::prelude::*;

use crate::text::{chars_of, slice_vec, string_from_chars, trim_vec, trim_ws, CharClass};

verus! {

/// At most this many characters of window text are kept.
pub const MAX_CONTEXT_CHARS: usize = 800;
/// Screenshots wider than this are scaled down before recognition.
pub const MAX_IMAGE_WIDTH: u32 = 1024;

/// The window context made from recognised text: the text trimmed, cut to
/// its first [`MAX_CONTEXT_CHARS`] characters; nothing when it is blank.
pub open spec fn context_spec(text: Seq<char>) -> Option<Seq<char>> {
    let t = trim_ws(text);
    if t.len() == 0 {
        None
    } else if t.len() > MAX_CONTEXT_CHARS {
        Some(t.subrange(0, MAX_CONTEXT_CHARS as int))
    } else {
        Some(t)
    }
}

/// Makes the window context from the text recognised in a screenshot.
pub fn context_from_recognized_text(text: &str) -> (r: Option<String>)
    ensures
        match r {
            Some(s) => context_spec(text@) == Some(s@),
            None => context_spec(text@) is None,
        },
{
    let t = trim_vec(&chars_of(text), CharClass::Whitespace);
    if t.len() == 0 {
        None
    } else if t.len() > MAX_CONTEXT_CHARS {
        Some(string_from_chars(&slice_vec(&t, 0, MAX_CONTEXT_CHARS)))
    } else {
        Some(string_from_chars(&t))
    }
}

/// A screenshot is scaled down only when it is wider than the limit.
pub fn needs_resize(width: u32, max_width: u32) -> (b: bool)
    ensures
        b == (width > max_width),
{
    width > max_width
}

} // verus!
