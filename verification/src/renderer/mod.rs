//! Reading the colours of a custom style.

pub mod layout;

use vstd::prelude::*;
use crate::renderer::layout::BubbleLayout;
use crate::text_util::str_is;

verus! {

pub open spec fn hex_digit_value(c: u8) -> Option<u8> {
    if 48 <= c <= 57 {
        Some((c - 48) as u8)
    } else if 97 <= c <= 102 {
        Some((c - 87) as u8)
    } else if 65 <= c <= 70 {
        Some((c - 55) as u8)
    } else {
        None
    }
}

/// What std's `u8::from_str_radix(.., 16)` gives for a two-byte text, or 0
/// where it fails: two hex digits, or '+' and one hex digit.
pub open spec fn hex_pair_value(a: u8, b: u8) -> u8 {
    if a == 43 {
        match hex_digit_value(b) {
            Some(v) => v,
            None => 0,
        }
    } else {
        match (hex_digit_value(a), hex_digit_value(b)) {
            (Some(x), Some(y)) => (x * 16 + y) as u8,
            _ => 0,
        }
    }
}

/// The bytes after every leading '#'.
pub open spec fn without_hashes(b: Seq<u8>) -> Seq<u8>
    decreases b.len(),
{
    if b.len() > 0 && b[0] == 35 {
        without_hashes(b.drop_first())
    } else {
        b
    }
}

/// A UTF-8 continuation byte, at which no character starts.
pub open spec fn is_continuation(c: u8) -> bool {
    128 <= c < 192
}

/// Whether the first three byte pairs of `t` can be cut out of the text:
/// positions 2, 4 and 6 each start a character or end the text.
pub open spec fn pairs_cut_cleanly(t: Seq<u8>) -> bool {
    t.len() >= 6 ==> (!is_continuation(t[2]) && !is_continuation(t[4]) && (t.len() > 6
        ==> !is_continuation(t[6])))
}

/// The red, green and blue of a colour written as "#rrggbb": each pair that
/// does not read as hex counts as 0, and a text shorter than six bytes after
/// its '#' signs is black.
pub open spec fn hex_rgb(t: Seq<u8>) -> (u8, u8, u8) {
    if t.len() >= 6 {
        (hex_pair_value(t[0], t[1]), hex_pair_value(t[2], t[3]), hex_pair_value(t[4], t[5]))
    } else {
        (0, 0, 0)
    }
}

fn hex_digit(c: u8) -> (r: Option<u8>)
    ensures
        r == hex_digit_value(c),
{
    if 48 <= c && c <= 57 {
        Some(c - 48)
    } else if 97 <= c && c <= 102 {
        Some(c - 87)
    } else if 65 <= c && c <= 70 {
        Some(c - 55)
    } else {
        None
    }
}

fn hex_pair(a: u8, b: u8) -> (r: u8)
    ensures
        r == hex_pair_value(a, b),
{
    if a == 43 {
        match hex_digit(b) {
            Some(v) => v,
            None => 0,
        }
    } else {
        match (hex_digit(a), hex_digit(b)) {
            (Some(x), Some(y)) => x * 16 + y,
            _ => 0,
        }
    }
}

/// Reads the red, green and blue of a colour from the bytes of its text.
/// Returns `None` exactly where cutting the text into byte pairs would split
/// a character.
pub fn parse_hex_rgb(hex: &[u8]) -> (r: Option<(u8, u8, u8)>)
    ensures
        match r {
            Some(rgb) => pairs_cut_cleanly(without_hashes(hex@)) && rgb == hex_rgb(
                without_hashes(hex@),
            ),
            None => !pairs_cut_cleanly(without_hashes(hex@)),
        },
{
    let mut start: usize = 0;
    assert(hex@.subrange(0, hex@.len() as int) =~= hex@);
    while start < hex.len() && hex[start] == 35
        invariant
            start <= hex@.len(),
            without_hashes(hex@) == without_hashes(hex@.subrange(start as int, hex@.len() as int)),
        decreases hex.len() - start,
    {
        let ghost rest = hex@.subrange(start as int, hex@.len() as int);
        assert(rest.drop_first() =~= hex@.subrange(start + 1, hex@.len() as int));
        start = start + 1;
    }
    let ghost t = hex@.subrange(start as int, hex@.len() as int);
    assert(without_hashes(t) == t);
    let n = hex.len() - start;
    if n < 6 {
        return Some((0, 0, 0));
    }
    let cont2 = 128 <= hex[start + 2] && hex[start + 2] < 192;
    let cont4 = 128 <= hex[start + 4] && hex[start + 4] < 192;
    let cont6 = n > 6 && 128 <= hex[start + 6] && hex[start + 6] < 192;
    if cont2 || cont4 || cont6 {
        return None;
    }
    let red = hex_pair(hex[start], hex[start + 1]);
    let green = hex_pair(hex[start + 2], hex[start + 3]);
    let blue = hex_pair(hex[start + 4], hex[start + 5]);
    Some((red, green, blue))
}


/// Room left around the rows for the soft shadow of the "default" style.
pub const SHADOW_PADDING: u64 = 12;
/// Gap between two rows of the history, in pixels.
pub const ROW_GAP: u64 = 8;

/// The widest of the row widths, or 0 for no rows.
pub open spec fn max_width(ws: Seq<u64>) -> nat
    decreases ws.len(),
{
    if ws.len() == 0 {
        0
    } else if ws.last() >= max_width(ws.drop_last()) {
        ws.last() as nat
    } else {
        max_width(ws.drop_last())
    }
}

/// The sum of the row heights.
pub open spec fn height_sum(hs: Seq<u64>) -> nat
    decreases hs.len(),
{
    if hs.len() == 0 {
        0
    } else {
        height_sum(hs.drop_last()) + hs.last() as nat
    }
}

pub open spec fn row_widths(ls: Seq<BubbleLayout>) -> Seq<u64> {
    ls.map_values(|l: BubbleLayout| l.total_width)
}

pub open spec fn row_heights(ls: Seq<BubbleLayout>) -> Seq<u64> {
    ls.map_values(|l: BubbleLayout| l.total_height)
}

/// The padding around the rows for a bubble style.
pub open spec fn style_padding(style: Seq<char>) -> nat {
    if style == "default"@ {
        SHADOW_PADDING as nat
    } else {
        0
    }
}

/// The size of the canvas for a stack of rows: as wide as the widest row,
/// as high as the rows and the gaps between them, with the style's padding
/// on every side.
pub open spec fn canvas_spec(ls: Seq<BubbleLayout>, style: Seq<char>) -> (nat, nat) {
    (
        max_width(row_widths(ls)) + 2 * style_padding(style),
        height_sum(row_heights(ls)) + (if ls.len() > 0 { ROW_GAP * (ls.len() - 1) } else { 0 }) as nat
            + 2 * style_padding(style),
    )
}

proof fn lemma_height_sum_prefix(hs: Seq<u64>, i: int)
    requires
        0 <= i <= hs.len(),
    ensures
        height_sum(hs.take(i)) <= height_sum(hs),
    decreases hs.len() - i,
{
    if i < hs.len() {
        lemma_height_sum_prefix(hs, i + 1);
        assert(hs.take(i + 1).drop_last() =~= hs.take(i));
    } else {
        assert(hs.take(i) =~= hs);
    }
}

/// Measures the canvas that a stack of rows needs in the style `style`.
pub fn canvas_size(layouts: &[BubbleLayout], style: &str) -> (r: (u64, u64))
    requires
        canvas_spec(layouts@, style@).0 <= u64::MAX,
        canvas_spec(layouts@, style@).1 <= u64::MAX,
    ensures
        (r.0 as nat, r.1 as nat) == canvas_spec(layouts@, style@),
{
    let pad: u64 = if str_is(style, "default") {
        SHADOW_PADDING
    } else {
        0
    };
    let ghost ws = row_widths(layouts@);
    let ghost hs = row_heights(layouts@);
    let mut max_w: u64 = 0;
    let mut total_h: u64 = 0;
    let mut i: usize = 0;
    while i < layouts.len()
        invariant
            i <= layouts@.len(),
            ws == row_widths(layouts@),
            hs == row_heights(layouts@),
            canvas_spec(layouts@, style@).1 <= u64::MAX,
            pad == style_padding(style@),
            max_w == max_width(ws.take(i as int)),
            total_h == height_sum(hs.take(i as int)) + (if i > 0 { ROW_GAP * (i - 1) } else { 0 }),
        decreases layouts.len() - i,
    {
        proof {
            assert(ws.take(i + 1).drop_last() =~= ws.take(i as int));
            assert(hs.take(i + 1).drop_last() =~= hs.take(i as int));
            lemma_height_sum_prefix(hs, i + 1);
        }
        let w = layouts[i].total_width;
        let h = layouts[i].total_height;
        if w >= max_w {
            max_w = w;
        }
        if i > 0 {
            total_h = total_h + h + ROW_GAP;
        } else {
            total_h = total_h + h;
        }
        i = i + 1;
    }
    assert(ws.take(layouts@.len() as int) =~= ws);
    assert(hs.take(layouts@.len() as int) =~= hs);
    (max_w + 2 * pad, total_h + 2 * pad)
}

} // verus!
