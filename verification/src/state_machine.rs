//! The bubble's lifecycle and its settings.
//!
//! Times are milliseconds on the caller's monotonic clock. The overall
//! opacity is held in millionths (850000 is 0.85); the other fractional
//! settings are held in thousandths: a scale of 1500 is 1.5, a radius of 8000
//! is 8 pixels.

use vstd::prelude::*;
use vstd::string::*;
use crate::json::{
    JsonNumber, JsonValue, lookup, spec_as_u64, spec_as_bool, spec_as_text, text_items, object_get,
    collect_text_items,
};
use crate::text_util::{text_is, str_is, parse_u8, parse_u8_spec};
use crate::hook::opt_text;

verus! {

/// Where the bubble is in its lifecycle; each phase records when it began.
#[derive(Clone, Copy, Debug, PartialEq, Eq, Structural)]
pub enum BubbleState {
    Idle,
    FadingIn { start: u64 },
    Visible { start: u64 },
    FadingOut { start: u64 },
}

/// The kind of input an event comes from, used to filter what is shown.
#[derive(Clone, Copy, Debug, PartialEq, Eq, Structural)]
pub enum EventCategory {
    Keyboard,
    Mouse,
    Scroll,
}

/// The colours and shape of the bubble.
#[derive(Clone, Debug)]
pub struct CustomStyle {
    pub bg_color: String,
    pub bg_opacity_milli: i128,
    pub text_color: String,
    pub border_color: String,
    pub border_width_milli: i128,
    pub radius_milli: i128,
    pub shadow_color: String,
}

/// A custom style as plain values.
pub struct StyleView {
    pub bg_color: Seq<char>,
    pub bg_opacity_milli: i128,
    pub text_color: Seq<char>,
    pub border_color: Seq<char>,
    pub border_width_milli: i128,
    pub radius_milli: i128,
    pub shadow_color: Seq<char>,
}

impl View for CustomStyle {
    type V = StyleView;

    open spec fn view(&self) -> StyleView {
        StyleView {
            bg_color: self.bg_color@,
            bg_opacity_milli: self.bg_opacity_milli,
            text_color: self.text_color@,
            border_color: self.border_color@,
            border_width_milli: self.border_width_milli,
            radius_milli: self.radius_milli,
            shadow_color: self.shadow_color@,
        }
    }
}

/// Black at 70 % opacity, white text, no border, 8 px corners.
pub open spec fn default_style() -> StyleView {
    StyleView {
        bg_color: "#000000"@,
        bg_opacity_milli: 700,
        text_color: "#ffffff"@,
        border_color: "#000000"@,
        border_width_milli: 0,
        radius_milli: 8000,
        shadow_color: "#000000"@,
    }
}

pub open spec fn deep_space_style() -> StyleView {
    StyleView {
        bg_color: "#101418"@,
        bg_opacity_milli: 850,
        text_color: "#e8eaed"@,
        border_color: "#2e3a46"@,
        border_width_milli: 1000,
        radius_milli: 12000,
        shadow_color: "#000000"@,
    }
}

pub open spec fn cream_white_style() -> StyleView {
    StyleView {
        bg_color: "#fdf6ec"@,
        bg_opacity_milli: 950,
        text_color: "#3d3229"@,
        border_color: "#e8d5b7"@,
        border_width_milli: 1000,
        radius_milli: 12000,
        shadow_color: "#8a7a63"@,
    }
}

pub open spec fn neon_blue_style() -> StyleView {
    StyleView {
        bg_color: "#0a1a2f"@,
        bg_opacity_milli: 900,
        text_color: "#7df9ff"@,
        border_color: "#00d4ff"@,
        border_width_milli: 1500,
        radius_milli: 10000,
        shadow_color: "#001f33"@,
    }
}

fn make_style(
    bg_color: &str,
    bg_opacity_milli: i128,
    text_color: &str,
    border_color: &str,
    border_width_milli: i128,
    radius_milli: i128,
    shadow_color: &str,
) -> (s: CustomStyle)
    ensures
        s@ == (StyleView {
            bg_color: bg_color@,
            bg_opacity_milli,
            text_color: text_color@,
            border_color: border_color@,
            border_width_milli,
            radius_milli,
            shadow_color: shadow_color@,
        }),
{
    CustomStyle {
        bg_color: String::from_str(bg_color),
        bg_opacity_milli,
        text_color: String::from_str(text_color),
        border_color: String::from_str(border_color),
        border_width_milli,
        radius_milli,
        shadow_color: String::from_str(shadow_color),
    }
}

impl CustomStyle {
    pub fn new() -> (s: Self)
        ensures
            s@ == default_style(),
    {
        make_style("#000000", 700, "#ffffff", "#000000", 0, 8000, "#000000")
    }
}

impl Default for CustomStyle {
    fn default() -> (s: Self)
        ensures
            s@ == default_style(),
    {
        Self::new()
    }
}

impl CustomStyle {
    /// The custom style that `v` holds, if it holds a whole one.
    pub fn from_json(v: &JsonValue) -> (r: Option<CustomStyle>)
        ensures
            style_opt(r) == style_of(*v),
    {
        match v {
            JsonValue::Object(entries) => build_style(
                read_text(entries, "bg_color"),
                read_measure(entries, "bg_opacity"),
                read_text(entries, "text_color"),
                read_text(entries, "border_color"),
                read_measure(entries, "border_width"),
                read_measure(entries, "radius"),
                read_text(entries, "shadow_color"),
            ),
            JsonValue::Array(items) => {
                if items.len() == 7 {
                    build_style(
                        text_value(&items[0]),
                        measure(&items[1]),
                        text_value(&items[2]),
                        text_value(&items[3]),
                        measure(&items[4]),
                        measure(&items[5]),
                        text_value(&items[6]),
                    )
                } else {
                    None
                }
            },
            _ => None,
        }
    }
}

fn build_style(
    bg_color: Option<String>,
    bg_opacity: Option<i128>,
    text_color: Option<String>,
    border_color: Option<String>,
    border_width: Option<i128>,
    radius: Option<i128>,
    shadow_color: Option<String>,
) -> (r: Option<CustomStyle>)
    ensures
        style_opt(r) == style_of_fields(
            opt_text(bg_color),
            bg_opacity,
            opt_text(text_color),
            opt_text(border_color),
            border_width,
            radius,
            opt_text(shadow_color),
        ),
{
    match (bg_color, bg_opacity, text_color, border_color, border_width, radius, shadow_color) {
        (Some(a), Some(b), Some(c), Some(d), Some(e), Some(f), Some(g)) => Some(
            CustomStyle {
                bg_color: a,
                bg_opacity_milli: b,
                text_color: c,
                border_color: d,
                border_width_milli: e,
                radius_milli: f,
                shadow_color: g,
            },
        ),
        _ => None,
    }
}

fn number_to_milli(n: JsonNumber) -> (r: i128)
    ensures
        r == number_milli(n),
{
    match n {
        JsonNumber::PosInt(u) => (u as i128) * 1000,
        JsonNumber::NegInt(i) => (i as i128) * 1000,
        JsonNumber::Float(t) => t as i128,
    }
}

fn measure(v: &JsonValue) -> (r: Option<i128>)
    ensures
        r == measure_of(*v),
{
    match v {
        JsonValue::Number(n) => Some(number_to_milli(*n)),
        _ => None,
    }
}

fn text_value(v: &JsonValue) -> (r: Option<String>)
    ensures
        opt_text(r) == spec_as_text(*v),
{
    match v {
        JsonValue::String(s) => Some(s.clone()),
        _ => None,
    }
}

fn read_measure(obj: &Vec<(String, JsonValue)>, key: &str) -> (r: Option<i128>)
    ensures
        r == member_measure(obj@, key@),
{
    match object_get(obj, key) {
        Some(v) => measure(v),
        None => None,
    }
}

/// How opaque the bubble is before the overall opacity applies.
#[derive(Clone, Copy, Debug, PartialEq, Eq, Structural)]
pub enum AlphaLevel {
    /// Fully transparent.
    Hidden,
    /// Fully opaque.
    Full,
    /// Fading in: ease-out-cubic of `elapsed_ms / duration_ms`.
    Rising { elapsed_ms: u64, duration_ms: u64 },
    /// Fading out: one minus ease-out-cubic of `elapsed_ms / duration_ms`.
    Falling { elapsed_ms: u64, duration_ms: u64 },
}

/// The vertical offset of the bubble.
#[derive(Clone, Copy, Debug, PartialEq, Eq, Structural)]
pub enum OffsetY {
    /// No offset.
    Rest,
    /// Sliding up into place after a key stroke: 16 px times one minus
    /// ease-out-cubic of `elapsed_ms` over the slide time.
    SlideIn { elapsed_ms: u64 },
    /// Drifting up while fading out: minus 10 px times ease-out-cubic of
    /// `elapsed_ms / duration_ms`.
    SlideOut { elapsed_ms: u64, duration_ms: u64 },
}

/// The scale of the bubble.
#[derive(Clone, Copy, Debug, PartialEq, Eq, Structural)]
pub enum ScaleLevel {
    /// Natural size.
    Rest,
    /// Springing back after a key stroke: 0.85 plus 0.15 times ease-out-back of
    /// `elapsed_ms` over the bounce time.
    Bounce { elapsed_ms: u64 },
}

/// The alpha of a frame: the lifecycle's alpha level times the overall
/// opacity, which is in millionths.
#[derive(Clone, Copy, Debug, PartialEq, Eq, Structural)]
pub struct FrameAlpha {
    pub level: AlphaLevel,
    pub opacity_ppm: u32,
}

/// Everything about one animation frame: each dimension names its curve and
/// where on the curve the frame is.
#[derive(Clone, Copy, Debug, PartialEq, Eq, Structural)]
pub struct AnimFrame {
    pub alpha: FrameAlpha,
    pub offset_y: OffsetY,
    pub scale: ScaleLevel,
    pub needs_redraw: bool,
}

/// How long the slide-up after a key stroke lasts.
pub const SLIDE_MS: u64 = 160;

/// How long the bounce after a key stroke lasts.
pub const BOUNCE_MS: u64 = 180;

/// The bubble's lifecycle and every setting that shapes it.
pub struct StateMachine {
    pub state: BubbleState,
    pub visible_duration_ms: u64,
    pub fade_duration_ms: u64,
    pub fade_in_duration_ms: u64,
    pub quadrant: u8,
    pub bubble_style: String,
    pub anim_style: String,
    pub exclude_apps: Vec<String>,
    pub custom_style: CustomStyle,
    pub last_strike_ms: u64,
    pub enabled: bool,
    pub show_keyboard: bool,
    pub show_mouse: bool,
    pub show_scroll: bool,
    pub only_shortcuts: bool,
    pub merge_repeats: bool,
    pub opacity_ppm: u32,
    pub theme: String,
    pub scale_milli: u32,
}

/// A state machine as plain values.
pub struct MachineView {
    pub state: BubbleState,
    pub visible_duration_ms: u64,
    pub fade_duration_ms: u64,
    pub fade_in_duration_ms: u64,
    pub quadrant: u8,
    pub bubble_style: Seq<char>,
    pub anim_style: Seq<char>,
    pub exclude_apps: Seq<Seq<char>>,
    pub custom_style: StyleView,
    pub last_strike_ms: u64,
    pub enabled: bool,
    pub show_keyboard: bool,
    pub show_mouse: bool,
    pub show_scroll: bool,
    pub only_shortcuts: bool,
    pub merge_repeats: bool,
    pub opacity_ppm: u32,
    pub theme: Seq<char>,
    pub scale_milli: u32,
}

impl View for StateMachine {
    type V = MachineView;

    open spec fn view(&self) -> MachineView {
        MachineView {
            state: self.state,
            visible_duration_ms: self.visible_duration_ms,
            fade_duration_ms: self.fade_duration_ms,
            fade_in_duration_ms: self.fade_in_duration_ms,
            quadrant: self.quadrant,
            bubble_style: self.bubble_style@,
            anim_style: self.anim_style@,
            exclude_apps: self.exclude_apps@.map_values(|s: String| s@),
            custom_style: self.custom_style@,
            last_strike_ms: self.last_strike_ms,
            enabled: self.enabled,
            show_keyboard: self.show_keyboard,
            show_mouse: self.show_mouse,
            show_scroll: self.show_scroll,
            only_shortcuts: self.only_shortcuts,
            merge_repeats: self.merge_repeats,
            opacity_ppm: self.opacity_ppm,
            theme: self.theme@,
            scale_milli: self.scale_milli,
        }
    }
}

/// The settings of a fresh machine: idle, shown for 1200 ms, faded out over
/// 280 ms and in over 120 ms, bottom right, default shape, bounce animation,
/// every category shown, repeats merged, 85 % opacity, dark theme, scale 1,
/// made at `now` with its last stroke ten seconds earlier (at time 0 when
/// the clock has not yet run that long).
pub open spec fn default_machine(now: u64) -> MachineView {
    MachineView {
        state: BubbleState::Idle,
        visible_duration_ms: 1200,
        fade_duration_ms: 280,
        fade_in_duration_ms: 120,
        quadrant: 3,
        bubble_style: "default"@,
        anim_style: "bounce"@,
        exclude_apps: Seq::empty(),
        custom_style: default_style(),
        last_strike_ms: if now >= 10_000 {
            (now - 10_000) as u64
        } else {
            0
        },
        enabled: true,
        show_keyboard: true,
        show_mouse: true,
        show_scroll: true,
        only_shortcuts: false,
        merge_repeats: true,
        opacity_ppm: 850_000,
        theme: "dark"@,
        scale_milli: 1000,
    }
}

/// Whether an event of `category` is shown.
pub open spec fn shows(m: MachineView, category: EventCategory, is_shortcut: bool) -> bool {
    m.enabled && match category {
        EventCategory::Keyboard => m.show_keyboard && (!m.only_shortcuts || is_shortcut),
        EventCategory::Mouse => m.show_mouse,
        EventCategory::Scroll => m.show_scroll,
    }
}

/// The time from `start` to `now`, zero when `now` is earlier.
pub open spec fn elapsed(start: u64, now: u64) -> u64 {
    if now >= start {
        (now - start) as u64
    } else {
        0
    }
}

/// The state after a key stroke at `now`: a hidden bubble starts fading in,
/// any other is shown in full again.
pub open spec fn struck(m: MachineView, now: u64) -> MachineView {
    MachineView {
        last_strike_ms: now,
        state: if m.state is Idle {
            BubbleState::FadingIn { start: now }
        } else {
            BubbleState::Visible { start: now }
        },
        ..m
    }
}

/// The lifecycle step at `now`: the next state, the alpha, and whether the
/// step needs a redraw.
pub open spec fn advance(m: MachineView, now: u64) -> (BubbleState, AlphaLevel, bool) {
    match m.state {
        BubbleState::Idle => (BubbleState::Idle, AlphaLevel::Hidden, false),
        BubbleState::FadingIn { start } => if elapsed(start, now) >= m.fade_in_duration_ms {
            (BubbleState::Visible { start: now }, AlphaLevel::Full, true)
        } else {
            (
                m.state,
                if m.anim_style == "instant"@ {
                    AlphaLevel::Full
                } else {
                    AlphaLevel::Rising {
                        elapsed_ms: elapsed(start, now),
                        duration_ms: m.fade_in_duration_ms,
                    }
                },
                true,
            )
        },
        BubbleState::Visible { start } => if elapsed(start, now) >= m.visible_duration_ms {
            (BubbleState::FadingOut { start: now }, AlphaLevel::Full, true)
        } else {
            (m.state, AlphaLevel::Full, false)
        },
        BubbleState::FadingOut { start } => if elapsed(start, now) >= m.fade_duration_ms {
            (BubbleState::Idle, AlphaLevel::Hidden, true)
        } else {
            (
                m.state,
                AlphaLevel::Falling {
                    elapsed_ms: elapsed(start, now),
                    duration_ms: m.fade_duration_ms,
                },
                true,
            )
        },
    }
}

/// The vertical offset at `now` once the lifecycle step has led to `next`.
pub open spec fn offset_at(m: MachineView, next: BubbleState, now: u64) -> OffsetY {
    if m.anim_style == "slide_up"@ {
        if elapsed(m.last_strike_ms, now) < SLIDE_MS {
            OffsetY::SlideIn { elapsed_ms: elapsed(m.last_strike_ms, now) }
        } else {
            match next {
                BubbleState::FadingOut { start } => OffsetY::SlideOut {
                    elapsed_ms: elapsed(start, now),
                    duration_ms: m.fade_duration_ms,
                },
                _ => OffsetY::Rest,
            }
        }
    } else {
        OffsetY::Rest
    }
}

/// The scale at `now`.
pub open spec fn scale_at(m: MachineView, now: u64) -> ScaleLevel {
    if m.anim_style == "bounce"@ && elapsed(m.last_strike_ms, now) < BOUNCE_MS {
        ScaleLevel::Bounce { elapsed_ms: elapsed(m.last_strike_ms, now) }
    } else {
        ScaleLevel::Rest
    }
}

/// One frame at `now`: the state after it and the frame to draw. An idle
/// bubble stays idle and draws nothing.
pub open spec fn frame_at(m: MachineView, now: u64) -> (BubbleState, AnimFrame) {
    if m.state is Idle {
        (
            BubbleState::Idle,
            AnimFrame {
                alpha: FrameAlpha { level: AlphaLevel::Hidden, opacity_ppm: m.opacity_ppm },
                offset_y: OffsetY::Rest,
                scale: ScaleLevel::Rest,
                needs_redraw: false,
            },
        )
    } else {
        let (next, alpha, redraw) = advance(m, now);
        let offset_y = offset_at(m, next, now);
        let scale = scale_at(m, now);
        (
            next,
            AnimFrame {
                alpha: FrameAlpha { level: alpha, opacity_ppm: m.opacity_ppm },
                offset_y,
                scale,
                needs_redraw: redraw || !(offset_y is Rest) || !(scale is Rest),
            },
        )
    }
}

/// The machine after applying the preset named `preset`. The teaching
/// presets set how long the bubble stays, its opacity, shape and scale; the
/// colour presets replace the custom style alone; any other name changes
/// nothing.
pub open spec fn with_preset(m: MachineView, preset: Seq<char>) -> MachineView {
    if preset == "classroom"@ {
        MachineView {
            visible_duration_ms: 2000,
            opacity_ppm: 1_000_000,
            bubble_style: "3d_key"@,
            scale_milli: 1500,
            ..m
        }
    } else if preset == "recording"@ {
        MachineView {
            visible_duration_ms: 1500,
            opacity_ppm: 850_000,
            bubble_style: "default"@,
            scale_milli: 1000,
            ..m
        }
    } else if preset == "streaming"@ {
        MachineView {
            visible_duration_ms: 800,
            opacity_ppm: 600_000,
            bubble_style: "retro_terminal"@,
            scale_milli: 800,
            ..m
        }
    } else if preset == "deep_space"@ {
        MachineView { custom_style: deep_space_style(), ..m }
    } else if preset == "cream_white"@ {
        MachineView { custom_style: cream_white_style(), ..m }
    } else if preset == "neon_blue"@ {
        MachineView { custom_style: neon_blue_style(), ..m }
    } else {
        m
    }
}

/// An opacity in millionths, kept between 400000 and 1000000.
pub open spec fn clamp_opacity(v: int) -> u32 {
    if v < 400_000 {
        400_000
    } else if v > 1_000_000 {
        1_000_000
    } else {
        v as u32
    }
}

/// The opacity, in millionths, that a percentage stands for. A fractional
/// percentage is held in thousandths, so its opacity is exact in millionths.
pub open spec fn opacity_of_percent(n: JsonNumber) -> u32 {
    match n {
        JsonNumber::PosInt(p) => clamp_opacity(p * 10_000),
        JsonNumber::NegInt(p) => clamp_opacity(p * 10_000),
        JsonNumber::Float(t) => clamp_opacity(t * 10),
    }
}

pub open spec fn keep_or<T>(o: Option<T>, d: T) -> T {
    match o {
        Some(x) => x,
        None => d,
    }
}

pub open spec fn u64_setting(e: Seq<(String, JsonValue)>, key: Seq<char>) -> Option<u64> {
    match lookup(e, key) {
        Some(v) => spec_as_u64(v),
        None => None,
    }
}

pub open spec fn bool_setting(e: Seq<(String, JsonValue)>, key: Seq<char>) -> Option<bool> {
    match lookup(e, key) {
        Some(v) => spec_as_bool(v),
        None => None,
    }
}

pub open spec fn text_setting(e: Seq<(String, JsonValue)>, key: Seq<char>) -> Option<Seq<char>> {
    match lookup(e, key) {
        Some(v) => spec_as_text(v),
        None => None,
    }
}

pub open spec fn opacity_setting(e: Seq<(String, JsonValue)>) -> Option<u32> {
    match lookup(e, "opacity"@) {
        Some(JsonValue::Number(n)) => Some(opacity_of_percent(n)),
        _ => None,
    }
}

/// A quadrant given as the text of a number from 0 to 3.
pub open spec fn quadrant_setting(e: Seq<(String, JsonValue)>) -> Option<u8> {
    match text_setting(e, "quadrant"@) {
        Some(s) => match parse_u8_spec(s) {
            Some(q) => if q <= 3 {
                Some(q)
            } else {
                None
            },
            None => None,
        },
        None => None,
    }
}

pub open spec fn apps_setting(e: Seq<(String, JsonValue)>) -> Option<Seq<Seq<char>>> {
    match lookup(e, "excludeApps"@) {
        Some(JsonValue::Array(items)) => Some(text_items(items@)),
        _ => None,
    }
}

/// A JSON number in thousandths.
pub open spec fn number_milli(n: JsonNumber) -> i128 {
    match n {
        JsonNumber::PosInt(u) => (u * 1000) as i128,
        JsonNumber::NegInt(i) => (i * 1000) as i128,
        JsonNumber::Float(t) => t as i128,
    }
}

/// A JSON value read as a style measure: a number, in thousandths.
pub open spec fn measure_of(v: JsonValue) -> Option<i128> {
    match v {
        JsonValue::Number(n) => Some(number_milli(n)),
        _ => None,
    }
}

pub open spec fn member_measure(e: Seq<(String, JsonValue)>, key: Seq<char>) -> Option<i128> {
    match lookup(e, key) {
        Some(v) => measure_of(v),
        None => None,
    }
}

/// The style made of seven read fields, where every one of them was read.
pub open spec fn style_of_fields(
    bg_color: Option<Seq<char>>,
    bg_opacity: Option<i128>,
    text_color: Option<Seq<char>>,
    border_color: Option<Seq<char>>,
    border_width: Option<i128>,
    radius: Option<i128>,
    shadow_color: Option<Seq<char>>,
) -> Option<StyleView> {
    if bg_color is Some && bg_opacity is Some && text_color is Some && border_color is Some
        && border_width is Some && radius is Some && shadow_color is Some {
        Some(
            StyleView {
                bg_color: bg_color->0,
                bg_opacity_milli: bg_opacity->0,
                text_color: text_color->0,
                border_color: border_color->0,
                border_width_milli: border_width->0,
                radius_milli: radius->0,
                shadow_color: shadow_color->0,
            },
        )
    } else {
        None
    }
}

/// The custom style that `v` holds: an object with the four colours as texts
/// and the opacity, border width and radius as numbers (other members are
/// ignored), or an array of exactly these seven items in the order of the
/// style's fields. Every field is required.
pub open spec fn style_of(v: JsonValue) -> Option<StyleView> {
    match v {
        JsonValue::Object(entries) => {
            let e = entries@;
            style_of_fields(
                text_setting(e, "bg_color"@),
                member_measure(e, "bg_opacity"@),
                text_setting(e, "text_color"@),
                text_setting(e, "border_color"@),
                member_measure(e, "border_width"@),
                member_measure(e, "radius"@),
                text_setting(e, "shadow_color"@),
            )
        },
        JsonValue::Array(items) => {
            let s = items@;
            if s.len() == 7 {
                style_of_fields(
                    spec_as_text(s[0]),
                    measure_of(s[1]),
                    spec_as_text(s[2]),
                    spec_as_text(s[3]),
                    measure_of(s[4]),
                    measure_of(s[5]),
                    spec_as_text(s[6]),
                )
            } else {
                None
            }
        },
        _ => None,
    }
}

/// The custom style held by the member `customStyle`, if it holds one.
pub open spec fn style_setting(e: Seq<(String, JsonValue)>) -> Option<StyleView> {
    match lookup(e, "customStyle"@) {
        Some(v) => style_of(v),
        None => None,
    }
}

/// The machine after restoring persisted settings from `value`. Only an
/// object is read; each setting that is present with the expected kind
/// replaces the current one, and everything else is kept. The custom style
/// is replaced only where the member `customStyle` holds a whole one.
pub open spec fn with_persisted(m: MachineView, value: JsonValue) -> MachineView {
    match value {
        JsonValue::Object(entries) => {
            let e = entries@;
            MachineView {
                visible_duration_ms: keep_or(u64_setting(e, "fadeDelay"@), m.visible_duration_ms),
                fade_in_duration_ms: keep_or(u64_setting(e, "fadeInDuration"@), m.fade_in_duration_ms),
                opacity_ppm: keep_or(opacity_setting(e), m.opacity_ppm),
                quadrant: keep_or(quadrant_setting(e), m.quadrant),
                bubble_style: keep_or(text_setting(e, "bubbleStyle"@), m.bubble_style),
                anim_style: keep_or(text_setting(e, "animStyle"@), m.anim_style),
                enabled: keep_or(bool_setting(e, "enabled"@), m.enabled),
                show_keyboard: keep_or(bool_setting(e, "showKeyboard"@), m.show_keyboard),
                show_mouse: keep_or(bool_setting(e, "showMouse"@), m.show_mouse),
                show_scroll: keep_or(bool_setting(e, "showScroll"@), m.show_scroll),
                only_shortcuts: keep_or(bool_setting(e, "onlyShortcuts"@), m.only_shortcuts),
                merge_repeats: keep_or(bool_setting(e, "mergeRepeats"@), m.merge_repeats),
                exclude_apps: keep_or(apps_setting(e), m.exclude_apps),
                custom_style: keep_or(style_setting(e), m.custom_style),
                ..m
            }
        },
        _ => m,
    }
}

pub open spec fn style_opt(o: Option<CustomStyle>) -> Option<StyleView> {
    match o {
        Some(s) => Some(s@),
        None => None,
    }
}

/// The opacity, in millionths, that a JSON number read as a percentage
/// stands for.
fn opacity_from_percent(n: JsonNumber) -> (r: u32)
    ensures
        r == opacity_of_percent(n),
{
    match n {
        JsonNumber::PosInt(p) => if p <= 40 {
            400_000
        } else if p >= 100 {
            1_000_000
        } else {
            (p * 10_000) as u32
        },
        JsonNumber::NegInt(p) => if p <= 40 {
            400_000
        } else if p >= 100 {
            1_000_000
        } else {
            (p * 10_000) as u32
        },
        JsonNumber::Float(t) => if t <= 40_000 {
            400_000
        } else if t >= 100_000 {
            1_000_000
        } else {
            (t * 10) as u32
        },
    }
}

impl StateMachine {
    /// A fresh machine made at `now_ms`.
    pub fn new(now_ms: u64) -> (sm: Self)
        ensures
            sm@ == default_machine(now_ms),
    {
        let sm = StateMachine {
            state: BubbleState::Idle,
            visible_duration_ms: 1200,
            fade_duration_ms: 280,
            fade_in_duration_ms: 120,
            quadrant: 3,
            bubble_style: String::from_str("default"),
            anim_style: String::from_str("bounce"),
            exclude_apps: Vec::new(),
            custom_style: CustomStyle::new(),
            last_strike_ms: now_ms.saturating_sub(10_000),
            enabled: true,
            show_keyboard: true,
            show_mouse: true,
            show_scroll: true,
            only_shortcuts: false,
            merge_repeats: true,
            opacity_ppm: 850_000,
            theme: String::from_str("dark"),
            scale_milli: 1000,
        };
        assert(sm.exclude_apps@.map_values(|s: String| s@) =~= Seq::<Seq<char>>::empty());
        sm
    }

    /// Whether an event of `category` is shown, counting it as no shortcut.
    pub fn should_show_event(&self, category: EventCategory) -> (r: bool)
        ensures
            r == shows(self@, category, false),
    {
        self.should_show_event_detailed(category, false)
    }

    /// Whether an event of `category` is shown: nothing is while the display is
    /// paused; each category can be switched off; and in shortcut-only mode a
    /// keyboard event is shown only when it is part of a shortcut.
    pub fn should_show_event_detailed(&self, category: EventCategory, is_shortcut: bool) -> (r: bool)
        ensures
            r == shows(self@, category, is_shortcut),
    {
        if !self.enabled {
            return false;
        }
        match category {
            EventCategory::Keyboard => {
                if !self.show_keyboard {
                    return false;
                }
                if self.only_shortcuts && !is_shortcut {
                    return false;
                }
                true
            },
            EventCategory::Mouse => self.show_mouse,
            EventCategory::Scroll => self.show_scroll,
        }
    }

    /// Records a key stroke at `now_ms`.
    pub fn on_key_press(&mut self, now_ms: u64)
        ensures
            final(self)@ == struck(old(self)@, now_ms),
    {
        self.last_strike_ms = now_ms;
        self.state = match self.state {
            BubbleState::Idle => BubbleState::FadingIn { start: now_ms },
            _ => BubbleState::Visible { start: now_ms },
        };
    }

    /// Advances the lifecycle to `now_ms` and returns the frame to draw.
    pub fn tick_frame(&mut self, now_ms: u64) -> (frame: AnimFrame)
        ensures
            (final(self).state, frame) == frame_at(old(self)@, now_ms),
            final(self)@ == (MachineView { state: final(self).state, ..old(self)@ }),
    {
        if let BubbleState::Idle = self.state {
            return AnimFrame {
                alpha: FrameAlpha { level: AlphaLevel::Hidden, opacity_ppm: self.opacity_ppm },
                offset_y: OffsetY::Rest,
                scale: ScaleLevel::Rest,
                needs_redraw: false,
            };
        }
        let strike_elapsed = if now_ms >= self.last_strike_ms {
            now_ms - self.last_strike_ms
        } else {
            0
        };
        let (raw_alpha, mut needs_redraw) = match self.state {
            BubbleState::Idle => (AlphaLevel::Hidden, false),
            BubbleState::FadingIn { start } => {
                let e = if now_ms >= start { now_ms - start } else { 0 };
                if e >= self.fade_in_duration_ms {
                    self.state = BubbleState::Visible { start: now_ms };
                    (AlphaLevel::Full, true)
                } else {
                    let alpha = if text_is(&self.anim_style, "instant") {
                        AlphaLevel::Full
                    } else {
                        AlphaLevel::Rising { elapsed_ms: e, duration_ms: self.fade_in_duration_ms }
                    };
                    (alpha, true)
                }
            },
            BubbleState::Visible { start } => {
                let e = if now_ms >= start { now_ms - start } else { 0 };
                if e >= self.visible_duration_ms {
                    self.state = BubbleState::FadingOut { start: now_ms };
                    (AlphaLevel::Full, true)
                } else {
                    (AlphaLevel::Full, false)
                }
            },
            BubbleState::FadingOut { start } => {
                let e = if now_ms >= start { now_ms - start } else { 0 };
                if e >= self.fade_duration_ms {
                    self.state = BubbleState::Idle;
                    (AlphaLevel::Hidden, true)
                } else {
                    (AlphaLevel::Falling { elapsed_ms: e, duration_ms: self.fade_duration_ms }, true)
                }
            },
        };

        let mut offset_y = OffsetY::Rest;
        if text_is(&self.anim_style, "slide_up") {
            if strike_elapsed < SLIDE_MS {
                offset_y = OffsetY::SlideIn { elapsed_ms: strike_elapsed };
                needs_redraw = true;
            } else if let BubbleState::FadingOut { start } = self.state {
                let e = if now_ms >= start { now_ms - start } else { 0 };
                offset_y = OffsetY::SlideOut { elapsed_ms: e, duration_ms: self.fade_duration_ms };
                needs_redraw = true;
            }
        }

        let mut scale = ScaleLevel::Rest;
        if text_is(&self.anim_style, "bounce") {
            if strike_elapsed < BOUNCE_MS {
                scale = ScaleLevel::Bounce { elapsed_ms: strike_elapsed };
                needs_redraw = true;
            }
        }

        AnimFrame {
            alpha: FrameAlpha { level: raw_alpha, opacity_ppm: self.opacity_ppm },
            offset_y,
            scale,
            needs_redraw,
        }
    }

    /// Advances the lifecycle to `now_ms` and returns the frame's alpha, the
    /// alpha level times the overall opacity, and whether it needs a redraw.
    pub fn tick(&mut self, now_ms: u64) -> (r: (FrameAlpha, bool))
        ensures
            final(self).state == frame_at(old(self)@, now_ms).0,
            r == (frame_at(old(self)@, now_ms).1.alpha, frame_at(old(self)@, now_ms).1.needs_redraw),
            final(self)@ == (MachineView { state: final(self).state, ..old(self)@ }),
    {
        let frame = self.tick_frame(now_ms);
        (frame.alpha, frame.needs_redraw)
    }

    /// Applies the preset named `preset`.
    pub fn apply_preset(&mut self, preset: &str)
        ensures
            final(self)@ == with_preset(old(self)@, preset@),
    {
        if str_is(preset, "classroom") {
            self.visible_duration_ms = 2000;
            self.opacity_ppm = 1_000_000;
            self.bubble_style = String::from_str("3d_key");
            self.scale_milli = 1500;
        } else if str_is(preset, "recording") {
            self.visible_duration_ms = 1500;
            self.opacity_ppm = 850_000;
            self.bubble_style = String::from_str("default");
            self.scale_milli = 1000;
        } else if str_is(preset, "streaming") {
            self.visible_duration_ms = 800;
            self.opacity_ppm = 600_000;
            self.bubble_style = String::from_str("retro_terminal");
            self.scale_milli = 800;
        } else if str_is(preset, "deep_space") {
            self.custom_style = make_style("#101418", 850, "#e8eaed", "#2e3a46", 1000, 12000, "#000000");
        } else if str_is(preset, "cream_white") {
            self.custom_style = make_style("#fdf6ec", 950, "#3d3229", "#e8d5b7", 1000, 12000, "#8a7a63");
        } else if str_is(preset, "neon_blue") {
            self.custom_style = make_style("#0a1a2f", 900, "#7df9ff", "#00d4ff", 1500, 10000, "#001f33");
        }
    }

    /// Puts every field back to its default, as a machine made at `now_ms`.
    pub fn reset_to_defaults(&mut self, now_ms: u64)
        ensures
            final(self)@ == default_machine(now_ms),
    {
        *self = Self::new(now_ms);
    }

    /// Sets the overall opacity, in millionths, kept between 400000 and
    /// 1000000.
    pub fn update_opacity(&mut self, opacity_ppm: i64)
        ensures
            final(self)@ == (MachineView { opacity_ppm: clamp_opacity(opacity_ppm as int), ..old(self)@ }),
    {
        self.opacity_ppm = if opacity_ppm < 400_000 {
            400_000
        } else if opacity_ppm > 1_000_000 {
            1_000_000
        } else {
            opacity_ppm as u32
        };
    }

    /// Restores settings from the persisted JSON `value`, field by field: a
    /// missing or ill-typed field keeps its current value, and so does a
    /// custom style that lacks a field. The lifecycle state is left alone.
    pub fn apply_persisted_settings(&mut self, value: &JsonValue)
        ensures
            final(self)@ == with_persisted(old(self)@, *value),
    {
        let obj = match value.as_object() {
            Some(obj) => obj,
            None => {
                return;
            },
        };
        let fade_delay = read_u64(obj, "fadeDelay");
        let fade_in = read_u64(obj, "fadeInDuration");
        let opacity = read_opacity(obj);
        let quadrant = read_quadrant(obj);
        let bubble_style = read_text(obj, "bubbleStyle");
        let anim_style = read_text(obj, "animStyle");
        let enabled = read_bool(obj, "enabled");
        let show_keyboard = read_bool(obj, "showKeyboard");
        let show_mouse = read_bool(obj, "showMouse");
        let show_scroll = read_bool(obj, "showScroll");
        let only_shortcuts = read_bool(obj, "onlyShortcuts");
        let merge_repeats = read_bool(obj, "mergeRepeats");
        let apps = read_apps(obj);
        let style = match object_get(obj, "customStyle") {
            Some(v) => CustomStyle::from_json(v),
            None => None,
        };

        self.visible_duration_ms = keep_or_exec(fade_delay, self.visible_duration_ms);
        self.fade_in_duration_ms = keep_or_exec(fade_in, self.fade_in_duration_ms);
        self.opacity_ppm = keep_or_exec(opacity, self.opacity_ppm);
        self.quadrant = keep_or_exec(quadrant, self.quadrant);
        replace_text(&mut self.bubble_style, bubble_style);
        replace_text(&mut self.anim_style, anim_style);
        self.enabled = keep_or_exec(enabled, self.enabled);
        self.show_keyboard = keep_or_exec(show_keyboard, self.show_keyboard);
        self.show_mouse = keep_or_exec(show_mouse, self.show_mouse);
        self.show_scroll = keep_or_exec(show_scroll, self.show_scroll);
        self.only_shortcuts = keep_or_exec(only_shortcuts, self.only_shortcuts);
        self.merge_repeats = keep_or_exec(merge_repeats, self.merge_repeats);
        replace_list(&mut self.exclude_apps, apps);
        replace_style(&mut self.custom_style, style);
    }
}

fn keep_or_exec<T: Copy>(o: Option<T>, d: T) -> (r: T)
    ensures
        r == keep_or(o, d),
{
    match o {
        Some(x) => x,
        None => d,
    }
}

fn replace_text(target: &mut String, new: Option<String>)
    ensures
        final(target)@ == keep_or(opt_text(new), old(target)@),
{
    if let Some(s) = new {
        *target = s;
    }
}

fn replace_list(target: &mut Vec<String>, new: Option<Vec<String>>)
    ensures
        final(target)@.map_values(|s: String| s@) == keep_or(
            match new {
                Some(list) => Some(list@.map_values(|s: String| s@)),
                None => None,
            },
            old(target)@.map_values(|s: String| s@),
        ),
{
    if let Some(list) = new {
        *target = list;
    }
}

fn replace_style(target: &mut CustomStyle, new: Option<CustomStyle>)
    ensures
        final(target)@ == keep_or(style_opt(new), old(target)@),
{
    if let Some(s) = new {
        *target = s;
    }
}

fn read_u64(obj: &Vec<(String, JsonValue)>, key: &str) -> (r: Option<u64>)
    ensures
        r == u64_setting(obj@, key@),
{
    match object_get(obj, key) {
        Some(v) => v.as_u64(),
        None => None,
    }
}

fn read_bool(obj: &Vec<(String, JsonValue)>, key: &str) -> (r: Option<bool>)
    ensures
        r == bool_setting(obj@, key@),
{
    match object_get(obj, key) {
        Some(v) => v.as_bool(),
        None => None,
    }
}

fn read_text(obj: &Vec<(String, JsonValue)>, key: &str) -> (r: Option<String>)
    ensures
        opt_text(r) == text_setting(obj@, key@),
{
    match object_get(obj, key) {
        Some(v) => match v.as_str() {
            Some(s) => Some(String::from_str(s)),
            None => None,
        },
        None => None,
    }
}

fn read_opacity(obj: &Vec<(String, JsonValue)>) -> (r: Option<u32>)
    ensures
        r == opacity_setting(obj@),
{
    match object_get(obj, "opacity") {
        Some(JsonValue::Number(n)) => Some(opacity_from_percent(*n)),
        _ => None,
    }
}

fn read_quadrant(obj: &Vec<(String, JsonValue)>) -> (r: Option<u8>)
    ensures
        r == quadrant_setting(obj@),
{
    match object_get(obj, "quadrant") {
        Some(v) => match v.as_str() {
            Some(s) => match parse_u8(s) {
                Some(q) => if q <= 3 {
                    Some(q)
                } else {
                    None
                },
                None => None,
            },
            None => None,
        },
        None => None,
    }
}

fn read_apps(obj: &Vec<(String, JsonValue)>) -> (r: Option<Vec<String>>)
    ensures
        match r {
            Some(list) => apps_setting(obj@) == Some(list@.map_values(|s: String| s@)),
            None => apps_setting(obj@) is None,
        },
{
    match object_get(obj, "excludeApps") {
        Some(v) => match v.as_array() {
            Some(items) => Some(collect_text_items(items)),
            None => None,
        },
        None => None,
    }
}

impl Default for StateMachine {
    /// A fresh machine made at time 0.
    fn default() -> (sm: Self)
        ensures
            sm@ == default_machine(0),
    {
        Self::new(0)
    }
}


/// The colour presets "deep_space", "cream_white" and "neon_blue" replace the
/// custom style alone: durations, shape, scale and every other setting stay,
/// and the new background is never the default black.
pub proof fn law_colour_presets_only_restyle(m: MachineView, preset: Seq<char>)
    requires
        preset == "deep_space"@ || preset == "cream_white"@ || preset == "neon_blue"@,
    ensures
        with_preset(m, preset) == (MachineView { custom_style: with_preset(m, preset).custom_style, ..m }),
        with_preset(m, preset).custom_style.bg_color != "#000000"@,
{
    reveal_strlit("deep_space");
    reveal_strlit("cream_white");
    reveal_strlit("neon_blue");
    reveal_strlit("classroom");
    reveal_strlit("recording");
    reveal_strlit("streaming");
    reveal_strlit("#000000");
    reveal_strlit("#101418");
    reveal_strlit("#fdf6ec");
    reveal_strlit("#0a1a2f");
    assert(preset != "classroom"@) by {
        assert(preset[1] != "classroom"@[1]);
    }
    assert(preset != "recording"@) by {
        assert(preset[0] != "recording"@[0]);
    }
    assert(preset != "streaming"@) by {
        assert(preset[0] != "streaming"@[0]);
    }
    if preset == "deep_space"@ {
        assert(deep_space_style().bg_color[1] != "#000000"@[1]);
    } else if preset == "cream_white"@ {
        assert(preset != "deep_space"@) by {
            assert(preset[0] != "deep_space"@[0]);
        }
        assert(cream_white_style().bg_color[1] != "#000000"@[1]);
    } else {
        assert(preset != "deep_space"@) by {
            assert(preset[0] != "deep_space"@[0]);
        }
        assert(preset != "cream_white"@) by {
            assert(preset[0] != "cream_white"@[0]);
        }
        assert(neon_blue_style().bg_color[2] != "#000000"@[2]);
    }
}

/// A name that is no preset changes nothing.
pub proof fn law_unknown_preset_changes_nothing(m: MachineView, preset: Seq<char>)
    requires
        preset != "classroom"@,
        preset != "recording"@,
        preset != "streaming"@,
        preset != "deep_space"@,
        preset != "cream_white"@,
        preset != "neon_blue"@,
    ensures
        with_preset(m, preset) == m,
{
}

/// Applying a preset a second time changes nothing more.
pub proof fn law_preset_idempotent(m: MachineView, preset: Seq<char>)
    ensures
        with_preset(with_preset(m, preset), preset) == with_preset(m, preset),
{
}

/// While the display is paused no event is shown, whatever its kind.
pub proof fn law_paused_shows_nothing(m: MachineView, category: EventCategory, is_shortcut: bool)
    requires
        !m.enabled,
    ensures
        !shows(m, category, is_shortcut),
{
}

/// In shortcut-only mode, with keyboard events on, a keyboard event is shown
/// exactly when it is part of a shortcut; mouse and wheel events are shown
/// regardless of the shortcut flag.
pub proof fn law_shortcut_only_mode(m: MachineView, is_shortcut: bool)
    requires
        m.enabled,
        m.show_keyboard,
        m.only_shortcuts,
    ensures
        shows(m, EventCategory::Keyboard, is_shortcut) == is_shortcut,
        shows(m, EventCategory::Mouse, is_shortcut) == shows(m, EventCategory::Mouse, !is_shortcut),
        shows(m, EventCategory::Scroll, is_shortcut) == shows(m, EventCategory::Scroll, !is_shortcut),
{
}

/// While the display runs, each kind of event follows its own switch: a
/// keyboard event is hidden when keyboard events are off, a mouse event
/// exactly follows the mouse switch and a wheel event the wheel switch; with
/// keyboard events on and shortcut-only mode off, every keyboard event shows.
pub proof fn law_each_category_has_its_switch(m: MachineView, is_shortcut: bool)
    requires
        m.enabled,
    ensures
        !m.show_keyboard ==> !shows(m, EventCategory::Keyboard, is_shortcut),
        m.show_keyboard && !m.only_shortcuts ==> shows(m, EventCategory::Keyboard, is_shortcut),
        shows(m, EventCategory::Mouse, is_shortcut) == m.show_mouse,
        shows(m, EventCategory::Scroll, is_shortcut) == m.show_scroll,
{
}

/// An idle bubble stays idle on every tick and asks for no redraw.
pub proof fn law_idle_is_stable(m: MachineView, now: u64)
    requires
        m.state is Idle,
    ensures
        frame_at(m, now).0 is Idle,
        frame_at(m, now).1.alpha.level is Hidden,
        !frame_at(m, now).1.needs_redraw,
{
}

/// The rank of a phase along the lifecycle FadingIn, Visible, FadingOut, Idle.
pub open spec fn phase_rank(s: BubbleState) -> int {
    match s {
        BubbleState::FadingIn { .. } => 0,
        BubbleState::Visible { .. } => 1,
        BubbleState::FadingOut { .. } => 2,
        BubbleState::Idle => 3,
    }
}

/// A tick either keeps the phase, start time included, or moves one phase on
/// towards idle, starting the new phase at the tick's time.
pub proof fn law_tick_moves_forward(m: MachineView, now: u64)
    ensures
        frame_at(m, now).0 == m.state || (phase_rank(frame_at(m, now).0) == phase_rank(m.state) + 1
            && (frame_at(m, now).0 is Idle || frame_at(m, now).0 == (BubbleState::Visible { start: now })
            || frame_at(m, now).0 == (BubbleState::FadingOut { start: now }))),
{
}

/// The bubble is drawn fully transparent exactly when the tick leaves it
/// idle.
pub proof fn law_hidden_iff_idle(m: MachineView, now: u64)
    ensures
        (frame_at(m, now).1.alpha.level is Hidden) == (frame_at(m, now).0 is Idle),
{
}

/// A key stroke on an idle bubble, followed by ticks that each come after
/// the current phase has run its course, brings the bubble in, shows it,
/// fades it out and leaves it idle again.
pub proof fn law_full_lifecycle(m: MachineView, t0: u64, t1: u64, t2: u64, t3: u64)
    requires
        m.state is Idle,
        t1 >= t0 + m.fade_in_duration_ms,
        t2 >= t1 + m.visible_duration_ms,
        t3 >= t2 + m.fade_duration_ms,
    ensures
        ({
            let m0 = struck(m, t0);
            let s1 = frame_at(m0, t1).0;
            let m1 = MachineView { state: s1, ..m0 };
            let s2 = frame_at(m1, t2).0;
            let m2 = MachineView { state: s2, ..m1 };
            let s3 = frame_at(m2, t3).0;
            &&& m0.state == (BubbleState::FadingIn { start: t0 })
            &&& s1 == (BubbleState::Visible { start: t1 })
            &&& s2 == (BubbleState::FadingOut { start: t2 })
            &&& s3 is Idle
        }),
{
}

/// A key stroke never leaves the bubble idle, and a stroke on a bubble that
/// is already on screen shows it in full at once.
pub proof fn law_stroke_shows_bubble(m: MachineView, now: u64)
    ensures
        !(struck(m, now).state is Idle),
        !(m.state is Idle) ==> struck(m, now).state == (BubbleState::Visible { start: now }),
{
}

/// Restoring the same persisted settings twice gives what restoring them
/// once gives.
pub proof fn law_persisted_idempotent(m: MachineView, value: JsonValue)
    ensures
        with_persisted(with_persisted(m, value), value) == with_persisted(m, value),
{
}

/// Restoring persisted settings never touches the lifecycle, the fade-out
/// time, the theme, the scale or the time of the last stroke; it keeps the
/// quadrant within 0 to 3 when it sets one, and the opacity between 40 % and
/// 100 % when it sets one.
pub proof fn law_persisted_keeps_lifecycle(m: MachineView, value: JsonValue)
    ensures
        with_persisted(m, value).state == m.state,
        with_persisted(m, value).fade_duration_ms == m.fade_duration_ms,
        with_persisted(m, value).theme == m.theme,
        with_persisted(m, value).scale_milli == m.scale_milli,
        with_persisted(m, value).last_strike_ms == m.last_strike_ms,
        with_persisted(m, value).quadrant == m.quadrant || with_persisted(m, value).quadrant <= 3,
        with_persisted(m, value).opacity_ppm == m.opacity_ppm || (400_000 <= with_persisted(m, value).opacity_ppm <= 1_000_000),
{
}

/// Anything but an object, and an object without members, changes nothing.
pub proof fn law_persisted_ignores_non_objects(m: MachineView, value: JsonValue)
    ensures
        !(value is Object) ==> with_persisted(m, value) == m,
        (value matches JsonValue::Object(entries) && entries@.len() == 0) ==> with_persisted(m, value) == m,
{
}

/// A frame that animates the scale or the offset is always redrawn. Right
/// after a stroke on a shown bubble, the bounce style plays its bounce and the
/// slide-up style its slide, measured from the stroke.
pub proof fn law_animated_frames_redraw(m: MachineView, now: u64)
    requires
        !(m.state is Idle),
    ensures
        !(frame_at(m, now).1.scale is Rest) ==> frame_at(m, now).1.needs_redraw,
        !(frame_at(m, now).1.offset_y is Rest) ==> frame_at(m, now).1.needs_redraw,
        m.anim_style == "bounce"@ && m.last_strike_ms <= now < m.last_strike_ms + BOUNCE_MS ==> {
            &&& frame_at(m, now).1.scale == (ScaleLevel::Bounce { elapsed_ms: (now - m.last_strike_ms) as u64 })
            &&& frame_at(m, now).1.needs_redraw
        },
        m.anim_style == "slide_up"@ && m.last_strike_ms <= now < m.last_strike_ms + SLIDE_MS ==> {
            &&& frame_at(m, now).1.offset_y == (OffsetY::SlideIn { elapsed_ms: (now - m.last_strike_ms) as u64 })
            &&& frame_at(m, now).1.needs_redraw
        },
        frame_at(m, now).1.alpha.opacity_ppm == m.opacity_ppm,
{
}

/// Each boolean setting is read from its own member: a member that holds a
/// boolean sets that setting to it, and without one the setting is kept.
pub proof fn law_persisted_switches_read_own_keys(m: MachineView, entries: Vec<(String, JsonValue)>)
    ensures
        ({
            let e = entries@;
            let r = with_persisted(m, JsonValue::Object(entries));
            &&& lookup(e, "enabled"@) matches Some(JsonValue::Bool(b)) ==> r.enabled == b
            &&& lookup(e, "showKeyboard"@) matches Some(JsonValue::Bool(b)) ==> r.show_keyboard == b
            &&& lookup(e, "showMouse"@) matches Some(JsonValue::Bool(b)) ==> r.show_mouse == b
            &&& lookup(e, "showScroll"@) matches Some(JsonValue::Bool(b)) ==> r.show_scroll == b
            &&& lookup(e, "onlyShortcuts"@) matches Some(JsonValue::Bool(b)) ==> r.only_shortcuts == b
            &&& lookup(e, "mergeRepeats"@) matches Some(JsonValue::Bool(b)) ==> r.merge_repeats == b
            &&& !(lookup(e, "enabled"@) matches Some(JsonValue::Bool(_))) ==> r.enabled == m.enabled
            &&& !(lookup(e, "showKeyboard"@) matches Some(JsonValue::Bool(_))) ==> r.show_keyboard == m.show_keyboard
            &&& !(lookup(e, "showMouse"@) matches Some(JsonValue::Bool(_))) ==> r.show_mouse == m.show_mouse
            &&& !(lookup(e, "showScroll"@) matches Some(JsonValue::Bool(_))) ==> r.show_scroll == m.show_scroll
            &&& !(lookup(e, "onlyShortcuts"@) matches Some(JsonValue::Bool(_))) ==> r.only_shortcuts == m.only_shortcuts
            &&& !(lookup(e, "mergeRepeats"@) matches Some(JsonValue::Bool(_))) ==> r.merge_repeats == m.merge_repeats
        }),
{
}

/// The durations, the shape and the animation style are read from their own
/// members: a whole number of milliseconds sets a duration, a text sets a
/// style, and without one the setting is kept. An opacity percentage from 40
/// to 100 sets the opacity to that many hundredths.
pub proof fn law_persisted_values_read_own_keys(m: MachineView, entries: Vec<(String, JsonValue)>)
    ensures
        ({
            let e = entries@;
            let r = with_persisted(m, JsonValue::Object(entries));
            &&& lookup(e, "fadeDelay"@) matches Some(JsonValue::Number(JsonNumber::PosInt(n))) ==> r.visible_duration_ms == n
            &&& lookup(e, "fadeInDuration"@) matches Some(JsonValue::Number(JsonNumber::PosInt(n))) ==> r.fade_in_duration_ms == n
            &&& lookup(e, "bubbleStyle"@) matches Some(JsonValue::String(s)) ==> r.bubble_style == s@
            &&& lookup(e, "animStyle"@) matches Some(JsonValue::String(s)) ==> r.anim_style == s@
            &&& lookup(e, "opacity"@) matches Some(JsonValue::Number(JsonNumber::PosInt(p))) ==> (40 <= p <= 100 ==> r.opacity_ppm == p * 10_000)
            &&& lookup(e, "fadeDelay"@) is None ==> r.visible_duration_ms == m.visible_duration_ms
            &&& lookup(e, "fadeInDuration"@) is None ==> r.fade_in_duration_ms == m.fade_in_duration_ms
            &&& lookup(e, "bubbleStyle"@) is None ==> r.bubble_style == m.bubble_style
            &&& lookup(e, "animStyle"@) is None ==> r.anim_style == m.anim_style
            &&& lookup(e, "opacity"@) is None ==> r.opacity_ppm == m.opacity_ppm
            &&& lookup(e, "customStyle"@) is None ==> r.custom_style == m.custom_style
            &&& lookup(e, "excludeApps"@) is None ==> r.exclude_apps == m.exclude_apps
            &&& lookup(e, "quadrant"@) is None ==> r.quadrant == m.quadrant
        }),
{
}

/// A custom style read from an object takes each field from the member of
/// the same name: the colours from its text, and the opacity, border width
/// and radius from its number, whole numbers counting a thousand
/// thousandths each.
pub proof fn law_style_fields_read_own_keys(entries: Vec<(String, JsonValue)>)
    ensures
        ({
            let e = entries@;
            style_of(JsonValue::Object(entries)) matches Some(sv) ==> {
                &&& lookup(e, "bg_color"@) matches Some(JsonValue::String(t)) && sv.bg_color == t@
                &&& lookup(e, "text_color"@) matches Some(JsonValue::String(t)) && sv.text_color == t@
                &&& lookup(e, "border_color"@) matches Some(JsonValue::String(t)) && sv.border_color == t@
                &&& lookup(e, "shadow_color"@) matches Some(JsonValue::String(t)) && sv.shadow_color == t@
                &&& lookup(e, "bg_opacity"@) matches Some(JsonValue::Number(n))
                &&& lookup(e, "border_width"@) matches Some(JsonValue::Number(n))
                &&& lookup(e, "radius"@) matches Some(JsonValue::Number(n))
                &&& (lookup(e, "radius"@) matches Some(JsonValue::Number(JsonNumber::PosInt(u))) ==> sv.radius_milli == u * 1000)
                &&& (lookup(e, "border_width"@) matches Some(JsonValue::Number(JsonNumber::PosInt(u))) ==> sv.border_width_milli == u * 1000)
                &&& (lookup(e, "bg_opacity"@) matches Some(JsonValue::Number(JsonNumber::Float(f))) ==> sv.bg_opacity_milli == f)
            }
        }),
{
}

} // verus!
