//! Turns raw keyboard and mouse events into the labels that the bubble shows:
//! tracks held modifiers, merges quick repeats of one key into a "×N" badge
//! and forgets stuck modifiers after a long pause.

use vstd::prelude::*;
use vstd::string::*;
use crate::state_machine::EventCategory;
use crate::text_util::{decimal_string, decimal_text};

verus! {

/// A key, named by its physical position on a QWERTY keyboard.
#[derive(Clone, Copy, Debug, PartialEq, Eq, Structural)]
pub enum Key {
    Alt,
    AltGr,
    Backspace,
    CapsLock,
    ControlLeft,
    ControlRight,
    Delete,
    DownArrow,
    End,
    Escape,
    F1,
    F10,
    F11,
    F12,
    F2,
    F3,
    F4,
    F5,
    F6,
    F7,
    F8,
    F9,
    Home,
    LeftArrow,
    MetaLeft,
    MetaRight,
    PageDown,
    PageUp,
    Return,
    RightArrow,
    ShiftLeft,
    ShiftRight,
    Space,
    Tab,
    UpArrow,
    PrintScreen,
    ScrollLock,
    Pause,
    NumLock,
    BackQuote,
    Num1,
    Num2,
    Num3,
    Num4,
    Num5,
    Num6,
    Num7,
    Num8,
    Num9,
    Num0,
    Minus,
    Equal,
    KeyQ,
    KeyW,
    KeyE,
    KeyR,
    KeyT,
    KeyY,
    KeyU,
    KeyI,
    KeyO,
    KeyP,
    LeftBracket,
    RightBracket,
    KeyA,
    KeyS,
    KeyD,
    KeyF,
    KeyG,
    KeyH,
    KeyJ,
    KeyK,
    KeyL,
    SemiColon,
    Quote,
    BackSlash,
    IntlBackslash,
    KeyZ,
    KeyX,
    KeyC,
    KeyV,
    KeyB,
    KeyN,
    KeyM,
    Comma,
    Dot,
    Slash,
    Insert,
    KpReturn,
    KpMinus,
    KpPlus,
    KpMultiply,
    KpDivide,
    Kp0,
    Kp1,
    Kp2,
    Kp3,
    Kp4,
    Kp5,
    Kp6,
    Kp7,
    Kp8,
    Kp9,
    KpDelete,
    Function,
    Unknown(u32),
}

/// A mouse button.
#[derive(Clone, Copy, Debug, PartialEq, Eq, Structural)]
pub enum Button {
    Left,
    Right,
    Middle,
    Unknown(u8),
}

/// An input event as the global hook reports it. Pointer moves carry no
/// coordinates here: the tracker never reads them.
#[derive(Clone, Copy, Debug, PartialEq, Eq, Structural)]
pub enum EventType {
    KeyPress(Key),
    KeyRelease(Key),
    ButtonPress(Button),
    ButtonRelease(Button),
    MouseMove,
    Wheel { delta_x: i64, delta_y: i64 },
}

/// What one event shows: the labels of the bubble, from the modifiers to the
/// main key and its repeat badge.
#[derive(Debug, Clone, PartialEq)]
pub struct ParsedInput {
    pub keys: Vec<String>,
    pub is_mouse: bool,
    pub is_shortcut: bool,
    pub category: EventCategory,
}

/// The label that the bubble shows for a key.
pub open spec fn key_label(key: Key) -> Seq<char> {
    match key {
        Key::Alt => "Alt"@,
        Key::AltGr => "AltGr"@,
        Key::Backspace => "Backspace"@,
        Key::CapsLock => "Caps"@,
        Key::ControlLeft => "ControlLeft"@,
        Key::ControlRight => "ControlRight"@,
        Key::Delete => "Del"@,
        Key::DownArrow => "↓"@,
        Key::End => "End"@,
        Key::Escape => "Esc"@,
        Key::F1 => "F1"@,
        Key::F10 => "F10"@,
        Key::F11 => "F11"@,
        Key::F12 => "F12"@,
        Key::F2 => "F2"@,
        Key::F3 => "F3"@,
        Key::F4 => "F4"@,
        Key::F5 => "F5"@,
        Key::F6 => "F6"@,
        Key::F7 => "F7"@,
        Key::F8 => "F8"@,
        Key::F9 => "F9"@,
        Key::Home => "Home"@,
        Key::LeftArrow => "←"@,
        Key::MetaLeft => "MetaLeft"@,
        Key::MetaRight => "MetaRight"@,
        Key::PageDown => "PageDown"@,
        Key::PageUp => "PageUp"@,
        Key::Return => "Enter"@,
        Key::RightArrow => "→"@,
        Key::ShiftLeft => "ShiftLeft"@,
        Key::ShiftRight => "ShiftRight"@,
        Key::Space => "Space"@,
        Key::Tab => "Tab"@,
        Key::UpArrow => "↑"@,
        Key::PrintScreen => "PrtScn"@,
        Key::ScrollLock => "ScrollLock"@,
        Key::Pause => "Pause"@,
        Key::NumLock => "NumLock"@,
        Key::BackQuote => "`"@,
        Key::Num1 => "1"@,
        Key::Num2 => "2"@,
        Key::Num3 => "3"@,
        Key::Num4 => "4"@,
        Key::Num5 => "5"@,
        Key::Num6 => "6"@,
        Key::Num7 => "7"@,
        Key::Num8 => "8"@,
        Key::Num9 => "9"@,
        Key::Num0 => "0"@,
        Key::Minus => "-"@,
        Key::Equal => "="@,
        Key::KeyQ => "Q"@,
        Key::KeyW => "W"@,
        Key::KeyE => "E"@,
        Key::KeyR => "R"@,
        Key::KeyT => "T"@,
        Key::KeyY => "Y"@,
        Key::KeyU => "U"@,
        Key::KeyI => "I"@,
        Key::KeyO => "O"@,
        Key::KeyP => "P"@,
        Key::LeftBracket => "["@,
        Key::RightBracket => "]"@,
        Key::KeyA => "A"@,
        Key::KeyS => "S"@,
        Key::KeyD => "D"@,
        Key::KeyF => "F"@,
        Key::KeyG => "G"@,
        Key::KeyH => "H"@,
        Key::KeyJ => "J"@,
        Key::KeyK => "K"@,
        Key::KeyL => "L"@,
        Key::SemiColon => ";"@,
        Key::Quote => "'"@,
        Key::BackSlash => "\\"@,
        Key::IntlBackslash => "IntlBackslash"@,
        Key::KeyZ => "Z"@,
        Key::KeyX => "X"@,
        Key::KeyC => "C"@,
        Key::KeyV => "V"@,
        Key::KeyB => "B"@,
        Key::KeyN => "N"@,
        Key::KeyM => "M"@,
        Key::Comma => ","@,
        Key::Dot => "."@,
        Key::Slash => "/"@,
        Key::Insert => "Insert"@,
        Key::KpReturn => "KpReturn"@,
        Key::KpMinus => "-"@,
        Key::KpPlus => "+"@,
        Key::KpMultiply => "*"@,
        Key::KpDivide => "/"@,
        Key::Kp0 => "0"@,
        Key::Kp1 => "1"@,
        Key::Kp2 => "2"@,
        Key::Kp3 => "3"@,
        Key::Kp4 => "4"@,
        Key::Kp5 => "5"@,
        Key::Kp6 => "6"@,
        Key::Kp7 => "7"@,
        Key::Kp8 => "8"@,
        Key::Kp9 => "9"@,
        Key::KpDelete => "KpDelete"@,
        Key::Function => "Function"@,
        Key::Unknown(code) => "Unknown("@ + decimal_text(code as nat) + ")"@,
    }
}

/// Returns the label that the bubble shows for `key`.
pub fn key_to_string(key: Key) -> (s: String)
    ensures
        s@ == key_label(key),
{
    match key {
        Key::Alt => String::from_str("Alt"),
        Key::AltGr => String::from_str("AltGr"),
        Key::Backspace => String::from_str("Backspace"),
        Key::CapsLock => String::from_str("Caps"),
        Key::ControlLeft => String::from_str("ControlLeft"),
        Key::ControlRight => String::from_str("ControlRight"),
        Key::Delete => String::from_str("Del"),
        Key::DownArrow => String::from_str("↓"),
        Key::End => String::from_str("End"),
        Key::Escape => String::from_str("Esc"),
        Key::F1 => String::from_str("F1"),
        Key::F10 => String::from_str("F10"),
        Key::F11 => String::from_str("F11"),
        Key::F12 => String::from_str("F12"),
        Key::F2 => String::from_str("F2"),
        Key::F3 => String::from_str("F3"),
        Key::F4 => String::from_str("F4"),
        Key::F5 => String::from_str("F5"),
        Key::F6 => String::from_str("F6"),
        Key::F7 => String::from_str("F7"),
        Key::F8 => String::from_str("F8"),
        Key::F9 => String::from_str("F9"),
        Key::Home => String::from_str("Home"),
        Key::LeftArrow => String::from_str("←"),
        Key::MetaLeft => String::from_str("MetaLeft"),
        Key::MetaRight => String::from_str("MetaRight"),
        Key::PageDown => String::from_str("PageDown"),
        Key::PageUp => String::from_str("PageUp"),
        Key::Return => String::from_str("Enter"),
        Key::RightArrow => String::from_str("→"),
        Key::ShiftLeft => String::from_str("ShiftLeft"),
        Key::ShiftRight => String::from_str("ShiftRight"),
        Key::Space => String::from_str("Space"),
        Key::Tab => String::from_str("Tab"),
        Key::UpArrow => String::from_str("↑"),
        Key::PrintScreen => String::from_str("PrtScn"),
        Key::ScrollLock => String::from_str("ScrollLock"),
        Key::Pause => String::from_str("Pause"),
        Key::NumLock => String::from_str("NumLock"),
        Key::BackQuote => String::from_str("`"),
        Key::Num1 => String::from_str("1"),
        Key::Num2 => String::from_str("2"),
        Key::Num3 => String::from_str("3"),
        Key::Num4 => String::from_str("4"),
        Key::Num5 => String::from_str("5"),
        Key::Num6 => String::from_str("6"),
        Key::Num7 => String::from_str("7"),
        Key::Num8 => String::from_str("8"),
        Key::Num9 => String::from_str("9"),
        Key::Num0 => String::from_str("0"),
        Key::Minus => String::from_str("-"),
        Key::Equal => String::from_str("="),
        Key::KeyQ => String::from_str("Q"),
        Key::KeyW => String::from_str("W"),
        Key::KeyE => String::from_str("E"),
        Key::KeyR => String::from_str("R"),
        Key::KeyT => String::from_str("T"),
        Key::KeyY => String::from_str("Y"),
        Key::KeyU => String::from_str("U"),
        Key::KeyI => String::from_str("I"),
        Key::KeyO => String::from_str("O"),
        Key::KeyP => String::from_str("P"),
        Key::LeftBracket => String::from_str("["),
        Key::RightBracket => String::from_str("]"),
        Key::KeyA => String::from_str("A"),
        Key::KeyS => String::from_str("S"),
        Key::KeyD => String::from_str("D"),
        Key::KeyF => String::from_str("F"),
        Key::KeyG => String::from_str("G"),
        Key::KeyH => String::from_str("H"),
        Key::KeyJ => String::from_str("J"),
        Key::KeyK => String::from_str("K"),
        Key::KeyL => String::from_str("L"),
        Key::SemiColon => String::from_str(";"),
        Key::Quote => String::from_str("'"),
        Key::BackSlash => String::from_str("\\"),
        Key::IntlBackslash => String::from_str("IntlBackslash"),
        Key::KeyZ => String::from_str("Z"),
        Key::KeyX => String::from_str("X"),
        Key::KeyC => String::from_str("C"),
        Key::KeyV => String::from_str("V"),
        Key::KeyB => String::from_str("B"),
        Key::KeyN => String::from_str("N"),
        Key::KeyM => String::from_str("M"),
        Key::Comma => String::from_str(","),
        Key::Dot => String::from_str("."),
        Key::Slash => String::from_str("/"),
        Key::Insert => String::from_str("Insert"),
        Key::KpReturn => String::from_str("KpReturn"),
        Key::KpMinus => String::from_str("-"),
        Key::KpPlus => String::from_str("+"),
        Key::KpMultiply => String::from_str("*"),
        Key::KpDivide => String::from_str("/"),
        Key::Kp0 => String::from_str("0"),
        Key::Kp1 => String::from_str("1"),
        Key::Kp2 => String::from_str("2"),
        Key::Kp3 => String::from_str("3"),
        Key::Kp4 => String::from_str("4"),
        Key::Kp5 => String::from_str("5"),
        Key::Kp6 => String::from_str("6"),
        Key::Kp7 => String::from_str("7"),
        Key::Kp8 => String::from_str("8"),
        Key::Kp9 => String::from_str("9"),
        Key::KpDelete => String::from_str("KpDelete"),
        Key::Function => String::from_str("Function"),
        Key::Unknown(code) => {
            let s = String::from_str("Unknown(");
            let s = s.concat(decimal_string(code).as_str());
            s.concat(")")
        },
    }
}

/// The label of a mouse button, for the three buttons that the bubble shows.
pub open spec fn button_label(button: Button) -> Option<Seq<char>> {
    match button {
        Button::Left => Some("LeftClick"@),
        Button::Right => Some("RightClick"@),
        Button::Middle => Some("MiddleClick"@),
        Button::Unknown(_) => None,
    }
}

/// The label of a vertical wheel step; a purely horizontal step has none.
pub open spec fn wheel_label(delta_y: i64) -> Option<Seq<char>> {
    if delta_y == 0 {
        None
    } else if delta_y > 0 {
        Some("ScrollUp"@)
    } else {
        Some("ScrollDown"@)
    }
}

/// Whether `key` is one of the modifiers Ctrl, Shift, Alt (AltGr) or Win (Meta).
pub open spec fn is_modifier_key(key: Key) -> bool {
    match key {
        Key::ControlLeft | Key::ControlRight | Key::ShiftLeft | Key::ShiftRight | Key::Alt
        | Key::AltGr | Key::MetaLeft | Key::MetaRight => true,
        _ => false,
    }
}

/// The badge shown after a key pressed `n` times in a row.
pub open spec fn multiplier_text(n: nat) -> Seq<char> {
    "×"@ + decimal_text(n)
}

/// The tracker as plain values.
pub struct TrackerView {
    pub ctrl: bool,
    pub shift: bool,
    pub alt: bool,
    pub win: bool,
    pub last_main_key: Option<Seq<char>>,
    pub repeat_count: u32,
    pub last_press_ms: u64,
}

/// A parsed input as plain values.
pub struct ParsedView {
    pub keys: Seq<Seq<char>>,
    pub is_mouse: bool,
    pub is_shortcut: bool,
    pub category: EventCategory,
}

/// The characters of each string of a sequence.
pub open spec fn texts(v: Seq<String>) -> Seq<Seq<char>> {
    v.map_values(|s: String| s@)
}

pub open spec fn opt_text(o: Option<String>) -> Option<Seq<char>> {
    match o {
        Some(s) => Some(s@),
        None => None,
    }
}

pub open spec fn opt_str(o: Option<&str>) -> Option<Seq<char>> {
    match o {
        Some(s) => Some(s@),
        None => None,
    }
}

impl View for ParsedInput {
    type V = ParsedView;

    open spec fn view(&self) -> ParsedView {
        ParsedView {
            keys: texts(self.keys@),
            is_mouse: self.is_mouse,
            is_shortcut: self.is_shortcut,
            category: self.category,
        }
    }
}

pub open spec fn parsed_opt(o: Option<ParsedInput>) -> Option<ParsedView> {
    match o {
        Some(p) => Some(p@),
        None => None,
    }
}

/// Whether any modifier is held.
pub open spec fn holds_modifier(t: TrackerView) -> bool {
    t.ctrl || t.shift || t.alt || t.win
}

/// The tracker with the modifier that `key` belongs to set to `pressed`.
pub open spec fn with_modifier(t: TrackerView, key: Key, pressed: bool) -> TrackerView {
    match key {
        Key::ControlLeft | Key::ControlRight => TrackerView { ctrl: pressed, ..t },
        Key::ShiftLeft | Key::ShiftRight => TrackerView { shift: pressed, ..t },
        Key::Alt | Key::AltGr => TrackerView { alt: pressed, ..t },
        Key::MetaLeft | Key::MetaRight => TrackerView { win: pressed, ..t },
        _ => t,
    }
}

/// The labels shown for the held modifiers, in the order Ctrl, Win, Alt, Shift,
/// then the main key and, from the second press in a row on, its repeat badge.
pub open spec fn formatted(t: TrackerView, main_key: Option<Seq<char>>) -> Seq<Seq<char>> {
    let mods = (if t.ctrl { seq!["Ctrl"@] } else { Seq::empty() })
        + (if t.win { seq!["Win"@] } else { Seq::empty() })
        + (if t.alt { seq!["Alt"@] } else { Seq::empty() })
        + (if t.shift { seq!["Shift"@] } else { Seq::empty() });
    match main_key {
        None => mods,
        Some(k) => if t.repeat_count > 1 {
            mods.push(k).push(multiplier_text(t.repeat_count as nat))
        } else {
            mods.push(k)
        },
    }
}

/// More than five seconds have passed since the last counted press.
pub open spec fn timed_out(t: TrackerView, now_ms: u64) -> bool {
    now_ms > t.last_press_ms + 5000
}

/// After a long pause every modifier counts as released and the repeat chain
/// is broken, so that a release that the system swallowed cannot leave a
/// modifier stuck.
pub open spec fn after_idle(t: TrackerView, now_ms: u64) -> TrackerView {
    if timed_out(t, now_ms) {
        TrackerView { ctrl: false, shift: false, alt: false, win: false, last_main_key: None, ..t }
    } else {
        t
    }
}

/// A press of `label` continues the chain: the same label as the last main
/// key, less than 500 ms after the last counted press.
pub open spec fn repeats(t: TrackerView, label: Seq<char>, now_ms: u64) -> bool {
    t.last_main_key == Some(label) && now_ms < t.last_press_ms + 500
}

/// The tracker after a press of a main key or button with the label `label`.
pub open spec fn after_main_press(t: TrackerView, label: Seq<char>, now_ms: u64) -> TrackerView {
    if repeats(t, label, now_ms) {
        TrackerView { repeat_count: (t.repeat_count + 1) as u32, last_press_ms: now_ms, ..t }
    } else {
        TrackerView { last_main_key: Some(label), repeat_count: 1, last_press_ms: now_ms, ..t }
    }
}

/// What a press of a main label shows, given the tracker before the press.
pub open spec fn main_press(
    t: TrackerView,
    label: Seq<char>,
    now_ms: u64,
    is_mouse: bool,
    category: EventCategory,
) -> (TrackerView, Option<ParsedView>) {
    let t1 = after_main_press(t, label, now_ms);
    (
        t1,
        Some(
            ParsedView {
                keys: formatted(t1, Some(label)),
                is_mouse,
                is_shortcut: holds_modifier(t),
                category,
            },
        ),
    )
}

/// One event on the tracker `t` at time `now_ms`: the tracker after it, and
/// what the bubble shows for it, if anything.
pub open spec fn step(t: TrackerView, event: EventType, now_ms: u64) -> (TrackerView, Option<ParsedView>) {
    let t0 = after_idle(t, now_ms);
    match event {
        EventType::KeyPress(key) => if is_modifier_key(key) {
            let t1 = TrackerView { last_press_ms: now_ms, ..with_modifier(t0, key, true) };
            (
                t1,
                Some(
                    ParsedView {
                        keys: formatted(t1, None),
                        is_mouse: false,
                        is_shortcut: true,
                        category: EventCategory::Keyboard,
                    },
                ),
            )
        } else {
            main_press(t0, key_label(key), now_ms, false, EventCategory::Keyboard)
        },
        EventType::KeyRelease(key) => if is_modifier_key(key) {
            (TrackerView { last_main_key: None, ..with_modifier(t0, key, false) }, None)
        } else {
            (t0, None)
        },
        EventType::ButtonPress(button) => match button_label(button) {
            Some(label) => main_press(t0, label, now_ms, true, EventCategory::Mouse),
            None => (t0, None),
        },
        EventType::Wheel { delta_x: _, delta_y } => match wheel_label(delta_y) {
            Some(label) => main_press(t0, label, now_ms, true, EventCategory::Scroll),
            None => (t0, None),
        },
        _ => (t0, None),
    }
}

/// Whether `event` at `now_ms` raises the repeat count.
pub open spec fn increments_repeat(t: TrackerView, event: EventType, now_ms: u64) -> bool {
    let t0 = after_idle(t, now_ms);
    match event {
        EventType::KeyPress(key) => !is_modifier_key(key) && repeats(t0, key_label(key), now_ms),
        EventType::ButtonPress(button) => match button_label(button) {
            Some(label) => repeats(t0, label, now_ms),
            None => false,
        },
        EventType::Wheel { delta_x: _, delta_y } => match wheel_label(delta_y) {
            Some(label) => repeats(t0, label, now_ms),
            None => false,
        },
        _ => false,
    }
}

/// The modifier state and repeat memory behind the global hook. Times are
/// milliseconds on the caller's monotonic clock.
pub struct KeyTracker {
    pub ctrl: bool,
    pub shift: bool,
    pub alt: bool,
    pub win: bool,
    pub last_main_key: Option<String>,
    pub repeat_count: u32,
    pub last_press_ms: u64,
}

impl View for KeyTracker {
    type V = TrackerView;

    open spec fn view(&self) -> TrackerView {
        TrackerView {
            ctrl: self.ctrl,
            shift: self.shift,
            alt: self.alt,
            win: self.win,
            last_main_key: opt_text(self.last_main_key),
            repeat_count: self.repeat_count,
            last_press_ms: self.last_press_ms,
        }
    }
}

impl KeyTracker {
    /// A tracker with no modifier held, no main key and a repeat count of one,
    /// made at `now_ms`, which counts as the time of the last press.
    pub fn new(now_ms: u64) -> (t: Self)
        ensures
            t@ == (TrackerView {
                ctrl: false,
                shift: false,
                alt: false,
                win: false,
                last_main_key: None,
                repeat_count: 1,
                last_press_ms: now_ms,
            }),
    {
        KeyTracker {
            ctrl: false,
            shift: false,
            alt: false,
            win: false,
            last_main_key: None,
            repeat_count: 1,
            last_press_ms: now_ms,
        }
    }

    pub fn has_modifier(&self) -> (r: bool)
        ensures
            r == holds_modifier(self@),
    {
        self.ctrl || self.shift || self.alt || self.win
    }

    pub fn is_modifier(&self, key: Key) -> (r: bool)
        ensures
            r == is_modifier_key(key),
    {
        match key {
            Key::ControlLeft | Key::ControlRight | Key::ShiftLeft | Key::ShiftRight | Key::Alt
            | Key::AltGr | Key::MetaLeft | Key::MetaRight => true,
            _ => false,
        }
    }

    pub fn set_modifier(&mut self, key: Key, pressed: bool)
        ensures
            final(self)@ == with_modifier(old(self)@, key, pressed),
    {
        match key {
            Key::ControlLeft | Key::ControlRight => self.ctrl = pressed,
            Key::ShiftLeft | Key::ShiftRight => self.shift = pressed,
            Key::Alt | Key::AltGr => self.alt = pressed,
            Key::MetaLeft | Key::MetaRight => self.win = pressed,
            _ => {},
        }
    }

    /// The labels of the held modifiers, then `main_key` and its repeat badge.
    pub fn format_current(&self, main_key: Option<&str>) -> (parts: Vec<String>)
        ensures
            texts(parts@) == formatted(self@, opt_str(main_key)),
    {
        let mut parts: Vec<String> = Vec::new();
        let ghost mut expected: Seq<Seq<char>> = Seq::empty();
        if self.ctrl {
            parts.push(String::from_str("Ctrl"));
            proof { expected = expected + seq!["Ctrl"@]; }
        }
        if self.win {
            parts.push(String::from_str("Win"));
            proof { expected = expected + seq!["Win"@]; }
        }
        if self.alt {
            parts.push(String::from_str("Alt"));
            proof { expected = expected + seq!["Alt"@]; }
        }
        if self.shift {
            parts.push(String::from_str("Shift"));
            proof { expected = expected + seq!["Shift"@]; }
        }
        assert(texts(parts@) =~= expected);
        if let Some(mk) = main_key {
            parts.push(String::from_str(mk));
            proof { expected = expected.push(mk@); }
            assert(texts(parts@) =~= expected);
            if self.repeat_count > 1 {
                let badge = String::from_str("×").concat(decimal_string(self.repeat_count).as_str());
                parts.push(badge);
                proof { expected = expected.push(multiplier_text(self.repeat_count as nat)); }
                assert(texts(parts@) =~= expected);
            }
        }
        parts
    }

    /// Whether feeding `event_type`, seen at `now_ms`, would raise the repeat
    /// count.
    pub fn raises_repeat(&self, event_type: &EventType, now_ms: u64) -> (r: bool)
        ensures
            r == increments_repeat(self@, *event_type, now_ms),
    {
        if now_ms >= self.last_press_ms && now_ms - self.last_press_ms > 5000 {
            return false;
        }
        let label = match event_type {
            EventType::KeyPress(key) => {
                if self.is_modifier(*key) {
                    return false;
                }
                key_to_string(*key)
            },
            EventType::ButtonPress(button) => match button {
                Button::Left => String::from_str("LeftClick"),
                Button::Right => String::from_str("RightClick"),
                Button::Middle => String::from_str("MiddleClick"),
                Button::Unknown(_) => {
                    return false;
                },
            },
            EventType::Wheel { delta_x: _, delta_y } => {
                if *delta_y == 0 {
                    return false;
                }
                if *delta_y > 0 {
                    String::from_str("ScrollUp")
                } else {
                    String::from_str("ScrollDown")
                }
            },
            _ => {
                return false;
            },
        };
        match &self.last_main_key {
            Some(last) => *last == label && (now_ms < self.last_press_ms || now_ms - self.last_press_ms < 500),
            None => false,
        }
    }

    /// Counts a press of a main key or button with the label `label`.
    fn note_main_press(&mut self, label: &String, now_ms: u64)
        requires
            repeats(old(self)@, label@, now_ms) ==> old(self).repeat_count < u32::MAX,
        ensures
            final(self)@ == after_main_press(old(self)@, label@, now_ms),
    {
        let mut same = false;
        if let Some(last) = &self.last_main_key {
            if *last == *label && (now_ms < self.last_press_ms || now_ms - self.last_press_ms < 500) {
                same = true;
            }
        }
        if same {
            self.repeat_count = self.repeat_count + 1;
        } else {
            self.last_main_key = Some(label.clone());
            self.repeat_count = 1;
        }
        self.last_press_ms = now_ms;
    }

    /// Counts the press of `label` and returns what the bubble shows for it.
    fn main_press(&mut self, label: String, now_ms: u64, is_mouse: bool, category: EventCategory) -> (r: Option<ParsedInput>)
        requires
            repeats(old(self)@, label@, now_ms) ==> old(self).repeat_count < u32::MAX,
        ensures
            (final(self)@, parsed_opt(r)) == main_press(old(self)@, label@, now_ms, is_mouse, category),
    {
        let is_shortcut = self.has_modifier();
        self.note_main_press(&label, now_ms);
        let keys = self.format_current(Some(label.as_str()));
        Some(ParsedInput { keys, is_mouse, is_shortcut, category })
    }

    /// Feeds one event, seen at `now_ms`, to the tracker and returns what the
    /// bubble shows for it, if anything.
    pub fn update(&mut self, event_type: &EventType, now_ms: u64) -> (r: Option<ParsedInput>)
        requires
            increments_repeat(old(self)@, *event_type, now_ms) ==> old(self).repeat_count < u32::MAX,
        ensures
            (final(self)@, parsed_opt(r)) == step(old(self)@, *event_type, now_ms),
    {
        if now_ms >= self.last_press_ms && now_ms - self.last_press_ms > 5000 {
            self.ctrl = false;
            self.shift = false;
            self.alt = false;
            self.win = false;
            self.last_main_key = None;
        }
        assert(self@ == after_idle(old(self)@, now_ms));
        match event_type {
            EventType::KeyPress(key) => {
                if self.is_modifier(*key) {
                    self.set_modifier(*key, true);
                    self.last_press_ms = now_ms;
                    let keys = self.format_current(None);
                    return Some(
                        ParsedInput {
                            keys,
                            is_mouse: false,
                            is_shortcut: true,
                            category: EventCategory::Keyboard,
                        },
                    );
                }
                let key_str = key_to_string(*key);
                self.main_press(key_str, now_ms, false, EventCategory::Keyboard)
            },
            EventType::KeyRelease(key) => {
                if self.is_modifier(*key) {
                    self.set_modifier(*key, false);
                    self.last_main_key = None;
                }
                None
            },
            EventType::ButtonPress(button) => {
                let btn_str = match button {
                    Button::Left => String::from_str("LeftClick"),
                    Button::Right => String::from_str("RightClick"),
                    Button::Middle => String::from_str("MiddleClick"),
                    Button::Unknown(_) => {
                        return None;
                    },
                };
                self.main_press(btn_str, now_ms, true, EventCategory::Mouse)
            },
            EventType::Wheel { delta_x: _, delta_y } => {
                if *delta_y == 0 {
                    return None;
                }
                let btn_str = if *delta_y > 0 {
                    String::from_str("ScrollUp")
                } else {
                    String::from_str("ScrollDown")
                };
                self.main_press(btn_str, now_ms, true, EventCategory::Scroll)
            },
            _ => None,
        }
    }
}


/// Pressing a modifier is always a shortcut and shows only the held
/// modifiers, without a main key.
pub proof fn law_modifier_press_is_shortcut(t: TrackerView, key: Key, now_ms: u64)
    requires
        is_modifier_key(key),
    ensures
        step(t, EventType::KeyPress(key), now_ms).1 matches Some(p) && p.is_shortcut
            && p.category == EventCategory::Keyboard && !p.is_mouse,
        step(t, EventType::KeyPress(key), now_ms).1 matches Some(p) && p.keys == formatted(
            step(t, EventType::KeyPress(key), now_ms).0,
            None,
        ),
{
}

/// A key that is no modifier is a shortcut exactly when a modifier is held
/// (after forgetting modifiers held across a long pause).
pub proof fn law_key_shortcut_iff_modifier_held(t: TrackerView, key: Key, now_ms: u64)
    requires
        !is_modifier_key(key),
    ensures
        step(t, EventType::KeyPress(key), now_ms).1 matches Some(p) && p.is_shortcut == holds_modifier(
            after_idle(t, now_ms),
        ),
{
}

/// Pressing the same key again within 500 ms raises the count by one, and
/// the bubble then ends with the key and a badge for the new count.
pub proof fn law_quick_repeat_counts_up(t: TrackerView, key: Key, now_ms: u64)
    requires
        !is_modifier_key(key),
        !timed_out(t, now_ms),
        t.last_main_key == Some(key_label(key)),
        now_ms < t.last_press_ms + 500,
        1 <= t.repeat_count < u32::MAX,
    ensures
        step(t, EventType::KeyPress(key), now_ms).0.repeat_count == t.repeat_count + 1,
        step(t, EventType::KeyPress(key), now_ms).1 matches Some(p) && p.keys.len() >= 2
            && p.keys[p.keys.len() - 2] == key_label(key) && p.keys.last() == multiplier_text(
            (t.repeat_count + 1) as nat,
        ),
{
    let t1 = step(t, EventType::KeyPress(key), now_ms).0;
    let keys = formatted(t1, Some(key_label(key)));
    assert(t1.repeat_count > 1);
    let mods = (if t1.ctrl { seq!["Ctrl"@] } else { Seq::empty() })
        + (if t1.win { seq!["Win"@] } else { Seq::empty() })
        + (if t1.alt { seq!["Alt"@] } else { Seq::empty() })
        + (if t1.shift { seq!["Shift"@] } else { Seq::empty() });
    assert(keys == mods.push(key_label(key)).push(multiplier_text(t1.repeat_count as nat)));
}

/// A press of a different key, or of the same key after 500 ms or more,
/// starts a new chain: the count is one and no badge is shown.
pub proof fn law_new_chain_has_no_badge(t: TrackerView, key: Key, now_ms: u64)
    requires
        !is_modifier_key(key),
        !repeats(after_idle(t, now_ms), key_label(key), now_ms),
    ensures
        step(t, EventType::KeyPress(key), now_ms).0.repeat_count == 1,
        step(t, EventType::KeyPress(key), now_ms).0.last_main_key == Some(key_label(key)),
        step(t, EventType::KeyPress(key), now_ms).1 matches Some(p) && p.keys.last() == key_label(key),
{
}

/// Releasing a modifier breaks the chain: the next press of any key counts
/// one.
pub proof fn law_modifier_release_breaks_chain(t: TrackerView, released: Key, pressed: Key, t1: u64, t2: u64)
    requires
        is_modifier_key(released),
        !is_modifier_key(pressed),
    ensures
        step(step(t, EventType::KeyRelease(released), t1).0, EventType::KeyPress(pressed), t2).0.repeat_count
            == 1,
{
}

/// Releases and pointer moves never show anything.
pub proof fn law_releases_show_nothing(t: TrackerView, key: Key, button: Button, now_ms: u64)
    ensures
        step(t, EventType::KeyRelease(key), now_ms).1 is None,
        step(t, EventType::ButtonRelease(button), now_ms).1 is None,
        step(t, EventType::MouseMove, now_ms).1 is None,
{
}

/// After more than five seconds without a counted press, no modifier
/// counts as held: a key pressed then is no shortcut.
pub proof fn law_long_pause_releases_modifiers(t: TrackerView, key: Key, now_ms: u64)
    requires
        timed_out(t, now_ms),
        !is_modifier_key(key),
    ensures
        step(t, EventType::KeyPress(key), now_ms).1 matches Some(p) && !p.is_shortcut,
        !holds_modifier(step(t, EventType::KeyPress(key), now_ms).0),
{
}

/// The repeat count never drops to zero.
pub proof fn law_repeat_count_positive(t: TrackerView, event: EventType, now_ms: u64)
    requires
        t.repeat_count >= 1,
        increments_repeat(t, event, now_ms) ==> t.repeat_count < u32::MAX,
    ensures
        step(t, event, now_ms).0.repeat_count >= 1,
{
}

/// A key press that is no modifier is a keyboard event, never a mouse one,
/// whatever the tracker holds.
pub proof fn law_key_press_is_keyboard(t: TrackerView, key: Key, now_ms: u64)
    requires
        !is_modifier_key(key),
    ensures
        step(t, EventType::KeyPress(key), now_ms).1 matches Some(p) && p.category == EventCategory::Keyboard
            && !p.is_mouse,
{
}

/// A press of the left, right or middle button is a mouse event; a press of
/// any other button shows nothing. Without a chain to continue, its last
/// label names the button.
pub proof fn law_button_press_is_mouse(t: TrackerView, now_ms: u64, code: u8)
    ensures
        step(t, EventType::ButtonPress(Button::Left), now_ms).1 matches Some(p) && p.category
            == EventCategory::Mouse && p.is_mouse,
        step(t, EventType::ButtonPress(Button::Right), now_ms).1 matches Some(p) && p.category
            == EventCategory::Mouse && p.is_mouse,
        step(t, EventType::ButtonPress(Button::Middle), now_ms).1 matches Some(p) && p.category
            == EventCategory::Mouse && p.is_mouse,
        step(t, EventType::ButtonPress(Button::Unknown(code)), now_ms).1 is None,
        t.last_main_key is None ==> (step(t, EventType::ButtonPress(Button::Left), now_ms).1 matches Some(p)
            && p.keys.last() == "LeftClick"@),
        t.last_main_key is None ==> (step(t, EventType::ButtonPress(Button::Right), now_ms).1 matches Some(p)
            && p.keys.last() == "RightClick"@),
        t.last_main_key is None ==> (step(t, EventType::ButtonPress(Button::Middle), now_ms).1 matches Some(p)
            && p.keys.last() == "MiddleClick"@),
{
}

/// A vertical wheel step is a scroll event drawn as the mouse; a purely
/// horizontal step shows nothing. Without a chain to continue, its last
/// label is ScrollUp for a step up and ScrollDown for a step down.
pub proof fn law_wheel_is_scroll(t: TrackerView, delta_x: i64, delta_y: i64, now_ms: u64)
    ensures
        delta_y != 0 ==> (step(t, EventType::Wheel { delta_x, delta_y }, now_ms).1 matches Some(p)
            && p.category == EventCategory::Scroll && p.is_mouse),
        delta_y == 0 ==> step(t, EventType::Wheel { delta_x, delta_y }, now_ms).1 is None,
        t.last_main_key is None && delta_y > 0 ==> (step(t, EventType::Wheel { delta_x, delta_y }, now_ms).1 matches Some(p)
            && p.keys.last() == "ScrollUp"@),
        t.last_main_key is None && delta_y < 0 ==> (step(t, EventType::Wheel { delta_x, delta_y }, now_ms).1 matches Some(p)
            && p.keys.last() == "ScrollDown"@),
{
}

} // verus!
