use mezeporta::launcher::ui_sfx_name;
use mezeporta::launcher::UiPrefs;
use mezeporta::window::style_window_plan;
use mezeporta::window::{
    ps4_enforce_aspect, WindowRect, WMSZ_BOTTOMRIGHT, WMSZ_RIGHT, WMSZ_TOP, WMSZ_TOPLEFT,
};

fn rect(left: i32, top: i32, right: i32, bottom: i32) -> WindowRect {
    WindowRect { left, top, right, bottom }
}

#[test]
fn dragging_a_side_sets_the_height_from_the_width() {
    let mut r = rect(0, 0, 1600, 1000);
    ps4_enforce_aspect(&mut r, WMSZ_RIGHT, 16, 9);
    assert_eq!(r, rect(0, 0, 1600, 900));
}

#[test]
fn dragging_the_top_sets_the_width_from_the_height_rounding_half_up() {
    let mut r = rect(0, 0, 1600, 1000);
    ps4_enforce_aspect(&mut r, WMSZ_TOP, 16, 9);
    // 1000 * 16 / 9 = 1777.8, rounded to 1778; the right edge moves.
    assert_eq!(r, rect(0, 0, 1778, 1000));
}

#[test]
fn corners_follow_the_dominant_dimension() {
    // Taller than 16:9: the height decides, and the left edge moves.
    let mut r = rect(0, 0, 1600, 1000);
    ps4_enforce_aspect(&mut r, WMSZ_TOPLEFT, 16, 9);
    assert_eq!(r, rect(-178, 0, 1600, 1000));
    // Wider than 16:9: the width decides, and the bottom edge moves.
    let mut r = rect(10, 20, 2010, 1020);
    ps4_enforce_aspect(&mut r, WMSZ_BOTTOMRIGHT, 16, 9);
    assert_eq!(r, rect(10, 20, 2010, 1145));
}

#[test]
fn empty_rectangles_and_zero_terms() {
    let mut r = rect(5, 5, 5, 100);
    ps4_enforce_aspect(&mut r, WMSZ_RIGHT, 16, 9);
    assert_eq!(r, rect(5, 5, 5, 100));
    // A ratio term below one counts as one.
    let mut r = rect(0, 0, 300, 100);
    ps4_enforce_aspect(&mut r, WMSZ_RIGHT, 0, -4);
    assert_eq!(r, rect(0, 0, 300, 300));
}

#[test]
fn styles_choose_their_ratio_and_stored_size() {
    let mut ui = UiPrefs::default();
    ui.ps4_launcher_width = 1600;
    ui.ps4_launcher_height = 900;
    let p = style_window_plan(3, &ui);
    assert_eq!(p.style, 3);
    assert!(p.lock_aspect && p.reshape && p.resizable);
    assert_eq!((p.numerator, p.denominator), (16, 9));
    assert_eq!((p.size.width, p.size.height), (1600, 900));
    let p = style_window_plan(42, &ui);
    assert_eq!(p.style, 1);
    assert_eq!((p.numerator, p.denominator), (281, 150));
    assert_eq!((p.size.width, p.size.height), (1124, 600));
}

#[test]
fn resized_windows_stay_within_half_a_ratio_term() {
    for (w, h, edge) in [(1601, 1000, WMSZ_RIGHT), (1000, 777, WMSZ_TOP), (1234, 567, WMSZ_BOTTOMRIGHT)] {
        let mut r = rect(0, 0, w, h);
        ps4_enforce_aspect(&mut r, edge, 16, 9);
        let (w2, h2) = (r.right - r.left, r.bottom - r.top);
        let diff = w2 * 9 - h2 * 16;
        assert!(diff.abs() <= 8, "{} x {} gave {} x {}", w, h, w2, h2);
    }
}

#[test]
fn only_known_interface_sounds_are_played() {
    assert_eq!(ui_sfx_name(" hover "), Ok("hover".to_string()));
    assert_eq!(ui_sfx_name("login"), Ok("login".to_string()));
    assert_eq!(ui_sfx_name("../x"), Err("unsupported ui sfx '../x'".to_string()));
}
