use osd_bubble::overlay::{anchor_bubble, fit_to_work_area, rgba_to_bgra, WorkArea};
use osd_bubble::platform::{matches_excluded_app, LinuxBackend, MacosBackend, WindowsBackend};
use osd_bubble::renderer::layout::BubbleLayout;
use osd_bubble::renderer::parse_hex_rgb;
use osd_bubble::ripple_overlay::{ripple_color, ripple_max_radius};
use osd_bubble::hook::Button;
use osd_bubble::text_util::parse_u8;
use osd_bubble::renderer::canvas_size;
use osd_bubble::overlay::should_redraw;
use osd_bubble::hook::{key_to_string, Key};
use osd_bubble::{set_current_text, CurrentText};

fn strings(v: &[&str]) -> Vec<String> {
    v.iter().map(|s| s.to_string()).collect()
}

#[test]
fn layout_of_a_shortcut_with_badge() {
    let layout = BubbleLayout::build(&strings(&["Ctrl", "C", "×2"]));
    assert_eq!(layout.nodes.len(), 3);
    // "Ctrl": 4 chars * 14 = 56, + 24 = 80
    assert_eq!(layout.nodes[0].text_width, 56);
    assert_eq!(layout.nodes[0].width, 80);
    assert!(layout.nodes[0].is_modifier);
    // "C": 14 + 24 = 38, raised to the row height 56
    assert_eq!(layout.nodes[1].width, 56);
    assert!(!layout.nodes[1].is_modifier);
    // "×2": 2 chars * 14 = 28, + 8
    assert!(layout.nodes[2].is_multiplier);
    assert!(!layout.nodes[2].is_modifier);
    assert_eq!(layout.nodes[2].width, 36);
    // 80 + 56 + 36 + 2 gaps of 8 + 2 * 16 padding
    assert_eq!(layout.total_width, 80 + 56 + 36 + 16 + 32);
    assert_eq!(layout.total_height, 56);
}

#[test]
fn layout_of_mouse_and_empty_rows() {
    let layout = BubbleLayout::build(&strings(&["LeftClick"]));
    assert_eq!(layout.nodes[0].text_width, 24);
    assert_eq!(layout.nodes[0].width, 56);
    assert!(!layout.nodes[0].is_modifier);
    assert_eq!(layout.total_width, 56 + 32);
    let empty = BubbleLayout::build(&[]);
    assert!(empty.nodes.is_empty());
    assert_eq!(empty.total_width, 32);
}

#[test]
fn hex_colours() {
    assert_eq!(parse_hex_rgb(b"#112233"), Some((0x11, 0x22, 0x33)));
    assert_eq!(parse_hex_rgb(b"##7DF9FF"), Some((0x7d, 0xf9, 0xff)));
    assert_eq!(parse_hex_rgb(b"#+1zz+f"), Some((1, 0, 15)));
    assert_eq!(parse_hex_rgb(b"#123"), Some((0, 0, 0)));
    // "é" is two bytes; a cut at byte 2 splits it
    assert_eq!(parse_hex_rgb("#aé12345".as_bytes()), None);
    assert_eq!(parse_hex_rgb("#éé1234".as_bytes()), Some((0, 0, 0x12)));
}

#[test]
fn bubble_anchor_per_quadrant() {
    assert_eq!(anchor_bubble(500, 400, 100, 50, 0), (500 - 100 - 16, 400 - 50 - 24));
    assert_eq!(anchor_bubble(500, 400, 100, 50, 1), (516, 400 - 50 - 24));
    assert_eq!(anchor_bubble(500, 400, 100, 50, 2), (500 - 100 - 16, 424));
    assert_eq!(anchor_bubble(500, 400, 100, 50, 3), (516, 424));
}

#[test]
fn bubble_flips_inside_work_area() {
    let area = WorkArea { left: 0, top: 0, right: 1920, bottom: 1040 };
    // inside: unchanged
    assert_eq!(fit_to_work_area(500, 400, 100, 50, 516, 424, area), (516, 424));
    // past the right edge and the bottom: flips left and up
    assert_eq!(fit_to_work_area(1900, 1030, 100, 50, 1916, 1054, area), (1784, 956));
    // past the left edge: flips right
    assert_eq!(fit_to_work_area(10, 400, 100, 50, -106, 424, area), (26, 424));
}

#[test]
fn rgba_swaps_red_and_blue() {
    let src = [1u8, 2, 3, 4, 10, 20, 30, 40];
    let out = rgba_to_bgra(&src);
    assert_eq!(out, vec![3, 2, 1, 4, 30, 20, 10, 40]);
    assert_eq!(rgba_to_bgra(&out), src.to_vec());
}

#[test]
fn ripple_choices() {
    assert_eq!(ripple_color(Button::Left), (0, 212, 255, 255));
    assert_eq!(ripple_color(Button::Right), (255, 152, 0, 255));
    assert_eq!(ripple_color(Button::Middle), (16, 185, 129, 255));
    assert_eq!(ripple_color(Button::Unknown(9)), (0, 212, 255, 255));
    assert_eq!(ripple_max_radius("small"), 20);
    assert_eq!(ripple_max_radius("large"), 40);
    assert_eq!(ripple_max_radius("medium"), 30);
}

#[test]
fn excluded_apps_ignore_case() {
    let apps = strings(&["csgo.exe", "Game.EXE"]);
    assert!(matches_excluded_app("CSGO.exe", &apps));
    assert!(matches_excluded_app("game.exe", &apps));
    assert!(!matches_excluded_app("notepad.exe", &apps));
    assert!(!matches_excluded_app("csgo.exe", &[]));
}

#[test]
fn decimal_and_u8_text() {
    assert_eq!(key_to_string(Key::Unknown(0)), "Unknown(0)");
    assert_eq!(key_to_string(Key::Unknown(4096)), "Unknown(4096)");
    assert_eq!(parse_u8("3"), Some(3));
    assert_eq!(parse_u8("+3"), Some(3));
    assert_eq!(parse_u8("003"), Some(3));
    assert_eq!(parse_u8("255"), Some(255));
    assert_eq!(parse_u8("256"), None);
    assert_eq!(parse_u8("-1"), None);
    assert_eq!(parse_u8(""), None);
    assert_eq!(parse_u8("+"), None);
    assert_eq!(parse_u8("1a"), None);
}

#[test]
fn badge_birth_follows_the_chain() {
    let mut current = CurrentText::new();
    set_current_text(&mut current, strings(&["A"]), 100);
    assert_eq!(current.multiplier_birth, None);
    set_current_text(&mut current, strings(&["A", "×2"]), 200);
    assert_eq!(current.multiplier_birth, Some(200));
    set_current_text(&mut current, strings(&["A", "×3"]), 300);
    assert_eq!(current.multiplier_birth, Some(200));
    assert_eq!(current.keys, strings(&["A", "×3"]));
    set_current_text(&mut current, strings(&["B"]), 400);
    assert_eq!(current.multiplier_birth, None);
}

#[test]
fn backends_construct() {
    let _l = LinuxBackend::new();
    let _m = MacosBackend::new();
    let _w = WindowsBackend::new();
}

#[test]
fn canvas_for_a_history_stack() {
    let rows = vec![
        BubbleLayout::build(&strings(&["Ctrl", "C"])),
        BubbleLayout::build(&strings(&["A"])),
    ];
    // widest row 80 + 56 + 8 + 32 = 176; two rows of 56 with one gap of 8
    assert_eq!(canvas_size(&rows, "default"), (176 + 24, 56 + 56 + 8 + 24));
    assert_eq!(canvas_size(&rows, "3d_key"), (176, 120));
    assert_eq!(canvas_size(&[], "cartoon"), (0, 0));
}

#[test]
fn redraw_decisions() {
    assert!(should_redraw(true, false, false, None, false));
    assert!(should_redraw(false, false, false, None, true));
    assert!(should_redraw(false, true, true, None, false));
    assert!(!should_redraw(false, false, true, None, false));
    assert!(should_redraw(false, true, false, Some(149), false));
    assert!(!should_redraw(false, true, false, Some(150), false));
    assert!(!should_redraw(false, true, false, None, false));
}

#[test]
fn long_repeat_badge() {
    let mut tracker = osd_bubble::hook::KeyTracker::new(0);
    tracker.repeat_count = 12;
    assert_eq!(tracker.format_current(Some("Space")), vec!["Space", "×12"]);
}
