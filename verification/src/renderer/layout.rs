//! Measures the row of key caps that makes up one bubble.

use vstd::prelude::*;
use vstd::string::*;
use crate::hook::texts;
use crate::text_util::text_is;

verus! {

/// Inner padding at each side of a row, in pixels.
pub const PADDING_X: u64 = 16;
/// Gap between two caps, in pixels.
pub const SPACING: u64 = 8;
/// Height of a row, which is also the least width of a key cap, in pixels.
pub const ROW_HEIGHT: u64 = 56;

/// One cap of the row.
pub struct LayoutNode {
    pub text: String,
    pub is_modifier: bool,
    pub is_multiplier: bool,
    pub width: u64,
    pub text_width: u64,
}

/// The caps of a row and the row's size, in pixels.
pub struct BubbleLayout {
    pub nodes: Vec<LayoutNode>,
    pub total_width: u64,
    pub total_height: u64,
}

/// A repeat badge starts with '×'.
pub open spec fn is_multiplier_label(k: Seq<char>) -> bool {
    k.len() > 0 && k[0] == '×'
}

/// Mouse buttons and wheel steps are drawn as a mouse icon.
pub open spec fn is_mouse_label(k: Seq<char>) -> bool {
    k == "LeftClick"@ || k == "RightClick"@ || k == "MiddleClick"@ || k == "ScrollUp"@ || k
        == "ScrollDown"@
}

/// A word of more than one character, other than a badge or a mouse icon,
/// is drawn as a modifier.
pub open spec fn is_modifier_label(k: Seq<char>) -> bool {
    !is_multiplier_label(k) && !is_mouse_label(k) && k.len() > 1
}

/// The estimated width of a label: a fixed icon for the mouse, 14 px per
/// character otherwise.
pub open spec fn text_width_of(k: Seq<char>) -> nat {
    if is_mouse_label(k) {
        24
    } else {
        14 * k.len()
    }
}

/// The width of a cap: a badge hugs its text, any other cap is at least as
/// wide as the row is high.
pub open spec fn node_width(k: Seq<char>) -> nat {
    if is_multiplier_label(k) {
        text_width_of(k) + 8
    } else if text_width_of(k) + 24 >= ROW_HEIGHT {
        text_width_of(k) + 24
    } else {
        ROW_HEIGHT as nat
    }
}

/// The sum of the widths of the caps for `keys`.
pub open spec fn widths_sum(keys: Seq<Seq<char>>) -> nat
    decreases keys.len(),
{
    if keys.len() == 0 {
        0
    } else {
        widths_sum(keys.drop_last()) + node_width(keys.last())
    }
}

/// The width of the row: the caps, the gaps between them and the padding.
pub open spec fn row_width(keys: Seq<Seq<char>>) -> nat {
    (widths_sum(keys) + (if keys.len() > 0 { SPACING * (keys.len() - 1) } else { 0 }) + 2
        * PADDING_X) as nat
}

/// A prefix of the caps is never wider than all of them.
proof fn lemma_widths_sum_prefix(keys: Seq<Seq<char>>, i: int)
    requires
        0 <= i <= keys.len(),
    ensures
        widths_sum(keys.take(i)) <= widths_sum(keys),
    decreases keys.len() - i,
{
    if i < keys.len() {
        lemma_widths_sum_prefix(keys, i + 1);
        assert(keys.take(i + 1).drop_last() =~= keys.take(i));
    } else {
        assert(keys.take(i) =~= keys);
    }
}

impl BubbleLayout {
    /// Lays out one cap per label of `keys`, left to right.
    pub fn build(keys: &[String]) -> (layout: Self)
        requires
            row_width(texts(keys@)) <= u64::MAX,
        ensures
            layout.nodes@.len() == keys@.len(),
            forall|i: int|
                0 <= i < keys@.len() ==> {
                    let k = #[trigger] keys@[i]@;
                    let n = layout.nodes@[i];
                    &&& n.text@ == k
                    &&& n.is_multiplier == is_multiplier_label(k)
                    &&& n.is_modifier == is_modifier_label(k)
                    &&& n.text_width == text_width_of(k)
                    &&& n.width == node_width(k)
                },
            layout.total_width == row_width(texts(keys@)),
            layout.total_height == ROW_HEIGHT,
    {
        let ghost ks = texts(keys@);
        let mut nodes: Vec<LayoutNode> = Vec::new();
        let mut total_width: u64 = 0;
        let mut i: usize = 0;
        while i < keys.len()
            invariant
                i <= keys@.len(),
                ks == texts(keys@),
                row_width(ks) <= u64::MAX,
                nodes@.len() == i,
                forall|j: int|
                    0 <= j < i ==> {
                        let k = #[trigger] keys@[j]@;
                        let n = nodes@[j];
                        &&& n.text@ == k
                        &&& n.is_multiplier == is_multiplier_label(k)
                        &&& n.is_modifier == is_modifier_label(k)
                        &&& n.text_width == text_width_of(k)
                        &&& n.width == node_width(k)
                    },
                total_width == widths_sum(ks.take(i as int)) + (if i > 0 { SPACING * (i - 1) } else { 0 }),
            decreases keys.len() - i,
        {
            let key = &keys[i];
            let ghost k = key@;
            proof {
                lemma_widths_sum_prefix(ks, i + 1);
                assert(ks.take(i + 1).drop_last() =~= ks.take(i as int));
                assert(ks.take(i + 1).last() == k);
            }
            let n = key.as_str().unicode_len();
            let is_multiplier = n > 0 && key.as_str().get_char(0) == '×';
            let is_mouse = text_is(key, "LeftClick") || text_is(key, "RightClick") || text_is(
                key,
                "MiddleClick",
            ) || text_is(key, "ScrollUp") || text_is(key, "ScrollDown");
            let is_modifier = !is_multiplier && !is_mouse && n > 1;
            let text_width: u64 = if is_mouse {
                24
            } else {
                14 * (n as u64)
            };
            let width: u64 = if is_multiplier {
                text_width + 8
            } else if text_width + 24 >= ROW_HEIGHT {
                text_width + 24
            } else {
                ROW_HEIGHT
            };
            nodes.push(LayoutNode { text: key.clone(), is_modifier, is_multiplier, width, text_width });
            if i > 0 {
                total_width = total_width + width + SPACING;
            } else {
                total_width = total_width + width;
            }
            i = i + 1;
        }
        assert(ks.take(keys@.len() as int) =~= ks);
        total_width = total_width + PADDING_X * 2;
        BubbleLayout { nodes, total_width, total_height: ROW_HEIGHT }
    }
}

/// The five mouse labels are drawn as the mouse icon: a 24 px icon on a
/// square cap, never as a modifier word or a badge.
pub proof fn law_mouse_labels_are_icons()
    ensures
        ({
            let labels = seq!["LeftClick"@, "RightClick"@, "MiddleClick"@, "ScrollUp"@, "ScrollDown"@];
            forall|i: int|
                0 <= i < 5 ==> {
                    let k = #[trigger] labels[i];
                    &&& text_width_of(k) == 24
                    &&& node_width(k) == ROW_HEIGHT
                    &&& !is_modifier_label(k)
                    &&& !is_multiplier_label(k)
                }
        }),
{
    reveal_strlit("LeftClick");
    reveal_strlit("RightClick");
    reveal_strlit("MiddleClick");
    reveal_strlit("ScrollUp");
    reveal_strlit("ScrollDown");
}

/// Every cap but a badge is at least as wide as the row is high, and a word
/// cap grows with its text: 14 px per character plus 24 px of margin.
pub proof fn law_cap_widths(k: Seq<char>)
    ensures
        !is_multiplier_label(k) ==> node_width(k) >= ROW_HEIGHT,
        !is_multiplier_label(k) && node_width(k) > ROW_HEIGHT ==> node_width(k) == text_width_of(k) + 24,
        is_multiplier_label(k) ==> node_width(k) == 14 * k.len() + 8,
        k.len() == 1 ==> !is_modifier_label(k),
{
    if is_multiplier_label(k) {
        reveal_strlit("LeftClick");
        reveal_strlit("RightClick");
        reveal_strlit("MiddleClick");
        reveal_strlit("ScrollUp");
        reveal_strlit("ScrollDown");
        assert(!is_mouse_label(k));
    }
}

} // verus!
