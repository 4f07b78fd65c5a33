//! Verified core of a keystroke and mouse on-screen display: the bubble's
//! lifecycle state machine, the key tracker that turns raw input events into
//! labels, the bubble layout and placement, and the settings model.

pub mod text_util;
pub mod state_machine;
pub mod hook;
pub mod json;
pub mod renderer;
pub mod overlay;
pub mod ripple_overlay;
pub mod platform;

use vstd::prelude::*;
use vstd::string::*;
use crate::hook::texts;
use crate::renderer::layout::is_multiplier_label;

verus! {

/// The labels on screen, and when a repeat badge first appeared among them
/// (in milliseconds on the caller's clock), so that the badge's entrance
/// animation plays once per chain of repeats.
pub struct CurrentText {
    pub keys: Vec<String>,
    pub multiplier_birth: Option<u64>,
}

impl CurrentText {
    /// No labels and no badge.
    pub fn new() -> (c: Self)
        ensures
            c.keys@.len() == 0,
            c.multiplier_birth is None,
    {
        CurrentText { keys: Vec::new(), multiplier_birth: None }
    }
}

/// Whether one of the labels is a repeat badge.
pub open spec fn has_multiplier(keys: Seq<Seq<char>>) -> bool {
    exists|i: int| 0 <= i < keys.len() && is_multiplier_label(#[trigger] keys[i])
}

/// The badge keeps the time it first appeared while it stays; a new badge
/// appears at `now_ms`; without a badge there is no time.
pub open spec fn next_birth(birth: Option<u64>, keys: Seq<Seq<char>>, now_ms: u64) -> Option<u64> {
    if has_multiplier(keys) {
        if birth is None {
            Some(now_ms)
        } else {
            birth
        }
    } else {
        None
    }
}

/// Shows `keys`, at `now_ms`.
pub fn set_current_text(current: &mut CurrentText, keys: Vec<String>, now_ms: u64)
    ensures
        final(current).keys@ == keys@,
        final(current).multiplier_birth == next_birth(old(current).multiplier_birth, texts(keys@), now_ms),
{
    let mut has = false;
    let mut i: usize = 0;
    while i < keys.len()
        invariant
            i <= keys@.len(),
            has == exists|j: int| 0 <= j < i && is_multiplier_label(#[trigger] texts(keys@)[j]),
        decreases keys.len() - i,
    {
        let k = keys[i].as_str();
        assert(texts(keys@)[i as int] == k@);
        if k.unicode_len() > 0 && k.get_char(0) == '×' {
            has = true;
        }
        i = i + 1;
    }
    if has {
        if current.multiplier_birth.is_none() {
            current.multiplier_birth = Some(now_ms);
        }
    } else {
        current.multiplier_birth = None;
    }
    current.keys = keys;
}


/// While a chain of repeats goes on, its badge keeps the time it first
/// appeared.
pub proof fn law_badge_birth_kept_through_chain(
    birth: Option<u64>,
    first: Seq<Seq<char>>,
    second: Seq<Seq<char>>,
    t1: u64,
    t2: u64,
)
    requires
        has_multiplier(first),
        has_multiplier(second),
        birth is None,
    ensures
        next_birth(next_birth(birth, first, t1), second, t2) == Some(t1),
{
}

} // verus!
