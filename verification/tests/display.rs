use pong_core::geometry::Rect;
use pong_core::hud::{draw_score, draw_text_simple, get_digit_segments};
use pong_core::panel::{AnimationDirection, BrowserOption, Role, ThemeType, ViewMode};
use pong_core::rng::GameRng;

#[test]
fn digit_segments_match_the_seven_segment_table() {
    assert_eq!(get_digit_segments(0), [true, true, true, true, true, true, false]);
    assert_eq!(get_digit_segments(1), [false, true, true, false, false, false, false]);
    assert_eq!(get_digit_segments(2), [true, true, false, true, true, false, true]);
    assert_eq!(get_digit_segments(3), [true, true, true, true, false, false, true]);
    assert_eq!(get_digit_segments(4), [false, true, true, false, false, true, true]);
    assert_eq!(get_digit_segments(5), [true, false, true, true, false, true, true]);
    assert_eq!(get_digit_segments(6), [true, false, true, true, true, true, true]);
    assert_eq!(get_digit_segments(7), [true, true, true, false, false, false, false]);
    assert_eq!(get_digit_segments(8), [true, true, true, true, true, true, true]);
    assert_eq!(get_digit_segments(9), [true, true, true, true, false, true, true]);
    assert_eq!(get_digit_segments(12), [false, false, false, false, false, false, false]);
}

#[test]
fn score_digit_three_lights_the_right_segments() {
    let rects = draw_score(3, 256);
    let expected = vec![
        Rect { x: 241, y: 50, w: 30, h: 5 },
        Rect { x: 271, y: 55, w: 5, h: 25 },
        Rect { x: 271, y: 80, w: 5, h: 25 },
        Rect { x: 241, y: 105, w: 30, h: 5 },
        Rect { x: 241, y: 78, w: 30, h: 5 },
    ];
    assert_eq!(rects, expected);
}

#[test]
fn score_display_shows_the_last_decimal_digit() {
    assert_eq!(draw_score(13, 256), draw_score(3, 256));
    assert_eq!(draw_score(20, 768), draw_score(0, 768));
}

#[test]
fn score_digit_eight_lights_all_segments() {
    assert_eq!(draw_score(8, 256).len(), 7);
}

#[test]
fn text_placeholder_lays_one_box_per_character() {
    let rects = draw_text_simple("FPS: 60", 10, 10);
    assert_eq!(rects.len(), 7);
    for (i, r) in rects.iter().enumerate() {
        assert_eq!(*r, Rect { x: 10 + 8 * i as i64, y: 10, w: 6, h: 12 });
    }
    assert!(draw_text_simple("", 10, 10).is_empty());
}

#[test]
fn rng_is_reproducible_and_in_range() {
    let mut a = GameRng::new(7);
    let mut b = GameRng::new(7);
    for _ in 0..1000 {
        assert_eq!(a.next_u64(), b.next_u64());
        let v = a.next_in_range(10, 20);
        assert_eq!(v, b.next_in_range(10, 20));
        assert!(10 <= v && v < 20);
        assert_eq!(a.next_bool(), b.next_bool());
    }
}

#[test]
fn rng_draws_both_boolean_values() {
    let mut r = GameRng::new(1);
    let mut seen_true = false;
    let mut seen_false = false;
    for _ in 0..100 {
        if r.next_bool() {
            seen_true = true;
        } else {
            seen_false = true;
        }
    }
    assert!(seen_true);
    assert!(seen_false);
}

#[test]
fn rng_range_covers_negative_bounds() {
    let mut r = GameRng::new(2);
    for _ in 0..1000 {
        let v = r.next_in_range(-200, 200);
        assert!(-200 <= v && v < 200);
    }
}

#[test]
fn role_labels_are_stable() {
    assert_eq!(Role::Developer.label(), "Developer");
    assert_eq!(Role::Designer.label(), "Designer");
    assert_eq!(Role::Manager.label(), "Manager");
    assert_eq!(Role::Tester.label(), "Tester");
}

#[test]
fn browser_option_labels_are_stable() {
    assert_eq!(BrowserOption::OptionA.label(), "Option A");
    assert_eq!(BrowserOption::OptionB.label(), "Option B");
    assert_eq!(BrowserOption::OptionC.label(), "Option C");
}

#[test]
fn theme_labels_are_stable() {
    assert_eq!(ThemeType::Light.label(), "Light");
    assert_eq!(ThemeType::TokyoNightStorm.label(), "Tokyo Night Storm");
    assert_eq!(ThemeType::CatppuccinMocha.label(), "Catppuccin Mocha");
    assert_eq!(ThemeType::Ferra.label(), "Ferra");
}

#[test]
fn panel_options_compare_by_variant() {
    assert_eq!(ViewMode::Chart, ViewMode::Chart);
    assert_ne!(ViewMode::Form, ViewMode::Summary);
    assert_eq!(AnimationDirection::FadeIn, AnimationDirection::FadeIn);
    assert_ne!(AnimationDirection::FadeOut, AnimationDirection::Hold);
}
