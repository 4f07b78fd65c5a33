//! The choices behind the glow that follows a mouse click.

use vstd::prelude::*;
use crate::hook::Button;
use crate::text_util::str_is;

verus! {

/// How long a ripple lasts, in milliseconds.
pub const RIPPLE_DURATION_MS: u64 = 260;

/// The colour of a ripple, as red, green, blue and alpha: cyan for the left
/// button and for unknown buttons, amber for the right one, mint green for the
/// middle one.
pub open spec fn ripple_rgba(button: Button) -> (u8, u8, u8, u8) {
    match button {
        Button::Left => (0, 212, 255, 255),
        Button::Right => (255, 152, 0, 255),
        Button::Middle => (16, 185, 129, 255),
        Button::Unknown(_) => (0, 212, 255, 255),
    }
}

pub fn ripple_color(button: Button) -> (r: (u8, u8, u8, u8))
    ensures
        r == ripple_rgba(button),
{
    match button {
        Button::Left => (0, 212, 255, 255),
        Button::Right => (255, 152, 0, 255),
        Button::Middle => (16, 185, 129, 255),
        Button::Unknown(_) => (0, 212, 255, 255),
    }
}

/// The largest radius of a ripple, in pixels, for its size setting: 20 for
/// "small", 40 for "large", 30 for anything else.
pub fn ripple_max_radius(ripple_size: &str) -> (r: u32)
    ensures
        r == (if ripple_size@ == "small"@ {
            20u32
        } else if ripple_size@ == "large"@ {
            40u32
        } else {
            30u32
        }),
{
    if str_is(ripple_size, "small") {
        20
    } else if str_is(ripple_size, "large") {
        40
    } else {
        30
    }
}

} // verus!
