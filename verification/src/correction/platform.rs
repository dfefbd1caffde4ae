//! Shaping of the text read from the focused field.
use vstd::prelude::*;

use crate::text::{chars_of, is_blank, trim_ws};

verus! {

/// Most characters read from a text field in one snapshot.
pub const MAX_TEXT_SNAPSHOT_CHARS: i32 = 50_000;

/// The text, unless it is blank.
pub fn non_empty_text(text: String) -> (r: Option<String>)
    ensures
        r == (if trim_ws(text@).len() == 0 {
            None
        } else {
            Some(text)
        }),
{
    let v = chars_of(text.as_str());
    if is_blank(&v) {
        None
    } else {
        Some(text)
    }
}

/// The caret clamped to `[0, character_count]`; a missing caret counts as the end.
pub open spec fn clamped_caret(character_count: i32, caret_offset: Option<i32>) -> int {
    let c = match caret_offset {
        Some(c) => c as int,
        None => character_count as int,
    };
    if c < 0 {
        0
    } else if c > character_count {
        character_count as int
    } else {
        c
    }
}

/// The range of characters to read: all of a short text; otherwise a window
/// of [`MAX_TEXT_SNAPSHOT_CHARS`] ending half a window after the caret, or at
/// the end of the text.  The start is not held at zero: with the caret less
/// than half a window from the start, the window begins before the text.
pub open spec fn text_range_spec(character_count: i32, caret_offset: Option<i32>) -> Option<(int, int)> {
    if character_count <= 0 {
        None
    } else if character_count <= MAX_TEXT_SNAPSHOT_CHARS {
        Some((0, character_count as int))
    } else {
        let c = clamped_caret(character_count, caret_offset);
        let end = if c + MAX_TEXT_SNAPSHOT_CHARS / 2 <= character_count {
            c + MAX_TEXT_SNAPSHOT_CHARS / 2
        } else {
            character_count as int
        };
        Some((end - MAX_TEXT_SNAPSHOT_CHARS, end))
    }
}

/// Bounds the snapshot of a large text to a window around the caret.
pub fn bounded_text_range(character_count: i32, caret_offset: Option<i32>) -> (r: Option<(i32, i32)>)
    requires
        character_count <= MAX_TEXT_SNAPSHOT_CHARS || clamped_caret(character_count, caret_offset)
            + MAX_TEXT_SNAPSHOT_CHARS / 2 <= i32::MAX,
    ensures
        match r {
            Some(p) => text_range_spec(character_count, caret_offset) == Some(
                (p.0 as int, p.1 as int),
            ),
            None => text_range_spec(character_count, caret_offset) is None,
        },
{
    if character_count <= 0 {
        return None;
    }
    if character_count <= MAX_TEXT_SNAPSHOT_CHARS {
        return Some((0, character_count));
    }
    let half_window = MAX_TEXT_SNAPSHOT_CHARS / 2;
    let raw = match caret_offset {
        Some(c) => c,
        None => character_count,
    };
    let caret = if raw < 0 {
        0
    } else if raw > character_count {
        character_count
    } else {
        raw
    };
    let mut start = caret - half_window;
    let mut end = if start + MAX_TEXT_SNAPSHOT_CHARS <= character_count {
        start + MAX_TEXT_SNAPSHOT_CHARS
    } else {
        character_count
    };
    start = end - MAX_TEXT_SNAPSHOT_CHARS;
    end = if start + MAX_TEXT_SNAPSHOT_CHARS <= character_count {
        start + MAX_TEXT_SNAPSHOT_CHARS
    } else {
        character_count
    };
    Some((start, end))
}


/// Law: a snapshot range holds at most [`MAX_TEXT_SNAPSHOT_CHARS`]
/// characters, all of them when the text is short, and lies within the text
/// unless the caret of a long text is less than half a window from its start.
pub proof fn lemma_snapshot_range_within_text(character_count: i32, caret_offset: Option<i32>)
    requires
        character_count > 0,
        character_count <= MAX_TEXT_SNAPSHOT_CHARS || clamped_caret(character_count, caret_offset)
            >= MAX_TEXT_SNAPSHOT_CHARS / 2,
    ensures
        text_range_spec(character_count, caret_offset) matches Some(r) && 0 <= r.0 <= r.1 <= character_count
            && r.1 - r.0 <= MAX_TEXT_SNAPSHOT_CHARS,
        character_count <= MAX_TEXT_SNAPSHOT_CHARS ==> text_range_spec(character_count, caret_offset) == Some(
            (0int, character_count as int),
        ),
{
}

} // verus!
