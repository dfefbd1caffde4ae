//! Where the recording pill sits on the screen and when it is shown.
use vstd::prelude::*;

use crate::text::str_eq;

verus! {

/// Width of the pill in logical pixels.
pub const PILL_W_LOGICAL: u32 = 140;
/// Height of the pill in logical pixels.
pub const PILL_H_LOGICAL: u32 = 80;
/// Distance of the pill from the screen's edges in logical pixels.
pub const MARGIN_LOGICAL: u32 = 20;

/// What to do with the pill window.
#[derive(Debug, Clone, Copy, PartialEq, Eq, Structural)]
pub enum PillVisibility {
    Hide,
    Show,
    /// Leave it as it is; the interface hides it when it is done.
    Keep,
}

/// The pill is never shown in mode `"never"`; in mode `"when_recording"` it
/// is shown while a task runs; in any other mode it is always shown.
pub open spec fn pill_visibility_spec(mode: Seq<char>, is_recording: bool, is_transcribing: bool) -> PillVisibility {
    if mode == "never"@ {
        PillVisibility::Hide
    } else if mode == "when_recording"@ {
        if is_recording || is_transcribing {
            PillVisibility::Show
        } else {
            PillVisibility::Keep
        }
    } else {
        PillVisibility::Show
    }
}

/// Decides what to do with the pill window.
pub fn pill_visibility(indicator_mode: &str, is_recording: bool, is_transcribing: bool) -> (v: PillVisibility)
    ensures
        v == pill_visibility_spec(indicator_mode@, is_recording, is_transcribing),
{
    if str_eq(indicator_mode, "never") {
        PillVisibility::Hide
    } else if str_eq(indicator_mode, "when_recording") {
        if is_recording || is_transcribing {
            PillVisibility::Show
        } else {
            PillVisibility::Keep
        }
    } else {
        PillVisibility::Show
    }
}

/// Integer division rounded toward zero, as Rust divides.
pub open spec fn half_toward_zero(a: int) -> int {
    if a >= 0 {
        a / 2
    } else {
        -((-a) / 2)
    }
}

/// The pill's position relative to the screen's origin for a preset: a
/// corner or the middle of the top or bottom edge, `margin` from the edges;
/// the bottom middle for an unknown preset.
pub open spec fn pill_offset_spec(preset: Seq<char>, sw: int, sh: int, pw: int, ph: int, m: int) -> (int, int) {
    if preset == "top-left"@ {
        (m, m)
    } else if preset == "top-center"@ {
        (half_toward_zero(sw - pw), m)
    } else if preset == "top-right"@ {
        (sw - pw - m, m)
    } else if preset == "bottom-left"@ {
        (m, sh - ph - m)
    } else if preset == "bottom-right"@ {
        (sw - pw - m, sh - ph - m)
    } else {
        (half_toward_zero(sw - pw), sh - ph - m)
    }
}

/// Whether a value fits an `i32`.
pub open spec fn fits_i32(v: int) -> bool {
    i32::MIN <= v <= i32::MAX
}

/// The pill's position on a screen whose top-left corner is at `origin`:
/// all sizes in physical pixels.
pub fn pill_position(
    preset: &str,
    origin_x: i32,
    origin_y: i32,
    screen_w: i32,
    screen_h: i32,
    pill_w: i32,
    pill_h: i32,
    margin: i32,
) -> (p: (i32, i32))
    requires
        fits_i32(screen_w - pill_w),
        fits_i32(screen_w - pill_w - margin),
        fits_i32(screen_h - pill_h),
        fits_i32(screen_h - pill_h - margin),
        fits_i32(origin_x + pill_offset_spec(preset@, screen_w as int, screen_h as int, pill_w as int, pill_h as int, margin as int).0),
        fits_i32(origin_y + pill_offset_spec(preset@, screen_w as int, screen_h as int, pill_w as int, pill_h as int, margin as int).1),
    ensures
        p.0 == origin_x + pill_offset_spec(preset@, screen_w as int, screen_h as int, pill_w as int, pill_h as int, margin as int).0,
        p.1 == origin_y + pill_offset_spec(preset@, screen_w as int, screen_h as int, pill_w as int, pill_h as int, margin as int).1,
{
    let free_w = screen_w - pill_w;
    let centered = if free_w >= 0 {
        free_w / 2
    } else {
        -((-(free_w as i64)) / 2) as i32
    };
    let (rel_x, rel_y) = if str_eq(preset, "top-left") {
        (margin, margin)
    } else if str_eq(preset, "top-center") {
        (centered, margin)
    } else if str_eq(preset, "top-right") {
        (screen_w - pill_w - margin, margin)
    } else if str_eq(preset, "bottom-left") {
        (margin, screen_h - pill_h - margin)
    } else if str_eq(preset, "bottom-right") {
        (screen_w - pill_w - margin, screen_h - pill_h - margin)
    } else {
        (centered, screen_h - pill_h - margin)
    };
    (origin_x + rel_x, origin_y + rel_y)
}

} // verus!
