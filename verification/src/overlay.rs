//! Where the bubble goes on screen, and the pixel order that the layered
//! window expects.

use vstd::prelude::*;

verus! {

/// The corner of the bubble for a cursor at (`pt_x`, `pt_y`): quadrants 0
/// and 2 put the bubble left of the cursor, 1 and 3 right of it; 0 and 1
/// above it, 2 and 3 below it.
pub open spec fn anchor_spec(pt_x: int, pt_y: int, width: int, height: int, quadrant: u8) -> (int, int) {
    (
        if quadrant == 0 || quadrant == 2 { pt_x - width - 16 } else { pt_x + 16 },
        if quadrant == 0 || quadrant == 1 { pt_y - height - 24 } else { pt_y + 24 },
    )
}

pub open spec fn fits_i32(v: int) -> bool {
    i32::MIN <= v <= i32::MAX
}

/// Places a bubble of `width` by `height` next to the cursor at
/// (`pt_x`, `pt_y`), on the side that `quadrant` names.
pub fn anchor_bubble(pt_x: i32, pt_y: i32, width: i32, height: i32, quadrant: u8) -> (r: (i32, i32))
    requires
        quadrant == 0 || quadrant == 2 ==> fits_i32(pt_x - width),
        quadrant == 0 || quadrant == 1 ==> fits_i32(pt_y - height),
        fits_i32(anchor_spec(pt_x as int, pt_y as int, width as int, height as int, quadrant).0),
        fits_i32(anchor_spec(pt_x as int, pt_y as int, width as int, height as int, quadrant).1),
    ensures
        (r.0 as int, r.1 as int) == anchor_spec(pt_x as int, pt_y as int, width as int, height as int, quadrant),
{
    let bx = if quadrant == 0 || quadrant == 2 {
        pt_x - width - 16
    } else {
        pt_x + 16
    };
    let by = if quadrant == 0 || quadrant == 1 {
        pt_y - height - 24
    } else {
        pt_y + 24
    };
    (bx, by)
}

/// Quadrants 0 and 2 put the whole bubble left of the cursor and 1 and 3
/// right of it, 16 px away; quadrants 0 and 1 put it wholly above the cursor
/// and 2 and 3 below it, 24 px away.
pub proof fn law_anchor_sides(pt_x: int, pt_y: int, width: int, height: int, quadrant: u8)
    ensures
        (quadrant == 0 || quadrant == 2) ==> anchor_spec(pt_x, pt_y, width, height, quadrant).0 + width + 16 == pt_x,
        !(quadrant == 0 || quadrant == 2) ==> anchor_spec(pt_x, pt_y, width, height, quadrant).0 == pt_x + 16,
        (quadrant == 0 || quadrant == 1) ==> anchor_spec(pt_x, pt_y, width, height, quadrant).1 + height + 24 == pt_y,
        !(quadrant == 0 || quadrant == 1) ==> anchor_spec(pt_x, pt_y, width, height, quadrant).1 == pt_y + 24,
{
}

/// A screen's work area: the screen without the task bar.
#[derive(Clone, Copy, Debug, PartialEq, Eq, Structural)]
pub struct WorkArea {
    pub left: i32,
    pub top: i32,
    pub right: i32,
    pub bottom: i32,
}

/// The bubble at (`bx`, `by`) moved to the other side of the cursor along
/// each axis on which it would leave the work area `a`.
pub open spec fn fit_spec(pt_x: int, pt_y: int, width: int, height: int, bx: int, by: int, a: WorkArea) -> (int, int) {
    let x1 = fit_right(pt_x, width, bx, a);
    let y1 = fit_bottom(pt_y, height, by, a);
    (if x1 < a.left { pt_x + 16 } else { x1 }, if y1 < a.top { pt_y + 24 } else { y1 })
}

/// The bubble's left edge after the flip that keeps its right edge inside.
pub open spec fn fit_right(pt_x: int, width: int, bx: int, a: WorkArea) -> int {
    if bx + width > a.right { pt_x - width - 16 } else { bx }
}

/// The bubble's top edge after the flip that keeps its bottom edge inside.
pub open spec fn fit_bottom(pt_y: int, height: int, by: int, a: WorkArea) -> int {
    if by + height > a.bottom { pt_y - height - 24 } else { by }
}

/// Keeps the bubble inside the work area: a bubble that would stick out on
/// the right or at the bottom flips to the left of or above the cursor, and
/// one that would then stick out on the left or at the top flips back.
pub fn fit_to_work_area(
    pt_x: i32,
    pt_y: i32,
    width: i32,
    height: i32,
    bx: i32,
    by: i32,
    area: WorkArea,
) -> (r: (i32, i32))
    requires
        fits_i32(bx + width),
        fits_i32(by + height),
        bx + width > area.right ==> fits_i32(pt_x - width) && fits_i32(pt_x - width - 16),
        fit_right(pt_x as int, width as int, bx as int, area) < area.left ==> fits_i32(pt_x + 16),
        by + height > area.bottom ==> fits_i32(pt_y - height) && fits_i32(pt_y - height - 24),
        fit_bottom(pt_y as int, height as int, by as int, area) < area.top ==> fits_i32(pt_y + 24),
    ensures
        (r.0 as int, r.1 as int) == fit_spec(
            pt_x as int,
            pt_y as int,
            width as int,
            height as int,
            bx as int,
            by as int,
            area,
        ),
{
    let mut x = bx;
    let mut y = by;
    if x + width > area.right {
        x = pt_x - width - 16;
    }
    if x < area.left {
        x = pt_x + 16;
    }
    if y + height > area.bottom {
        y = pt_y - height - 24;
    }
    if y < area.top {
        y = pt_y + 24;
    }
    (x, y)
}

/// The fitted bubble never starts above the work area's top or left of its
/// left edge when the side below or right of the cursor lies inside it, and a
/// bubble that already lies inside the work area stays where it is.
pub proof fn law_fit_keeps_inside(
    pt_x: int,
    pt_y: int,
    width: int,
    height: int,
    bx: int,
    by: int,
    a: WorkArea,
)
    ensures
        pt_y + 24 >= a.top ==> fit_spec(pt_x, pt_y, width, height, bx, by, a).1 >= a.top,
        pt_x + 16 >= a.left ==> fit_spec(pt_x, pt_y, width, height, bx, by, a).0 >= a.left,
        a.left <= bx && bx + width <= a.right ==> fit_spec(pt_x, pt_y, width, height, bx, by, a).0 == bx,
        a.top <= by && by + height <= a.bottom ==> fit_spec(pt_x, pt_y, width, height, bx, by, a).1 == by,
        by + height > a.bottom && pt_y - height - 24 >= a.top ==> fit_spec(pt_x, pt_y, width, height, bx, by, a).1
            == pt_y - height - 24,
        bx + width > a.right && pt_x - width - 16 >= a.left ==> fit_spec(pt_x, pt_y, width, height, bx, by, a).0
            == pt_x - width - 16,
{
}

/// The byte that lands at position `i` when red and blue trade places in
/// each group of four bytes.
pub open spec fn bgra_source(i: int) -> int {
    let base = i - i % 4;
    if i % 4 == 0 {
        base + 2
    } else if i % 4 == 2 {
        base
    } else {
        i
    }
}

/// RGBA pixels turned into BGRA pixels, or back.
pub open spec fn swizzled(src: Seq<u8>) -> Seq<u8> {
    Seq::new(src.len(), |i: int| src[bgra_source(i)])
}

/// Copies RGBA pixels into BGRA order, the order of a Windows bitmap.
pub fn rgba_to_bgra(src: &[u8]) -> (dst: Vec<u8>)
    requires
        src@.len() % 4 == 0,
    ensures
        dst@ == swizzled(src@),
{
    let mut dst: Vec<u8> = Vec::new();
    let mut i: usize = 0;
    while i < src.len()
        invariant
            i <= src@.len(),
            i % 4 == 0,
            src@.len() % 4 == 0,
            dst@.len() == i,
            forall|j: int| 0 <= j < i ==> #[trigger] dst@[j] == src@[bgra_source(j)],
        decreases src.len() - i,
    {
        dst.push(src[i + 2]);
        dst.push(src[i + 1]);
        dst.push(src[i]);
        dst.push(src[i + 3]);
        assert(bgra_source(i as int) == i + 2);
        assert(bgra_source(i + 1) == i + 1);
        assert(bgra_source(i + 2) == i as int);
        assert(bgra_source(i + 3) == i + 3);
        i = i + 4;
    }
    assert(dst@ =~= swizzled(src@));
    dst
}

/// Swapping red and blue twice gives the pixels back.
pub proof fn law_swizzle_twice_is_identity(src: Seq<u8>)
    requires
        src.len() % 4 == 0,
    ensures
        swizzled(swizzled(src)) == src,
{
    assert forall|i: int| 0 <= i < src.len() implies #[trigger] swizzled(swizzled(src))[i] == src[i] by {
        let j = bgra_source(i);
        assert(0 <= j < src.len());
        assert(bgra_source(j) == i);
    }
    assert(swizzled(swizzled(src)) =~= src);
}


/// A bubble that lies inside the work area stays where it is.
pub proof fn law_fit_keeps_bubble_inside(pt_x: int, pt_y: int, width: int, height: int, bx: int, by: int, a: WorkArea)
    requires
        a.left <= bx,
        bx + width <= a.right,
        a.top <= by,
        by + height <= a.bottom,
    ensures
        fit_spec(pt_x, pt_y, width, height, bx, by, a) == (bx, by),
{
}


/// How long the entrance animation of a repeat badge runs, in milliseconds.
pub const BADGE_ANIM_MS: u64 = 150;

/// Whether the bubble is drawn again on a timer tick or an update request.
/// An update request always draws; otherwise the frame may ask for it, and
/// while the bubble shows, so do a moving cursor and a badge still in its
/// entrance animation.
pub fn should_redraw(
    update_requested: bool,
    showing: bool,
    cursor_moved: bool,
    badge_age_ms: Option<u64>,
    frame_needs_redraw: bool,
) -> (r: bool)
    ensures
        r == (update_requested || frame_needs_redraw || (showing && (cursor_moved || (badge_age_ms
            matches Some(age) && age < BADGE_ANIM_MS)))),
{
    let mut redraw = frame_needs_redraw;
    if showing {
        if cursor_moved {
            redraw = true;
        }
        if let Some(age) = badge_age_ms {
            if age < BADGE_ANIM_MS {
                redraw = true;
            }
        }
    }
    update_requested || redraw
}

} // verus!
