use smas_launcher::geometry::first_hit;
use smas_launcher::geometry::game_box_rect;
use smas_launcher::geometry::hit_test;
use smas_launcher::geometry::Rect;
use smas_launcher::ui::centered_rect;
use smas_launcher::ui::ColorRgb;
use smas_launcher::ui::UIButton;

#[test]
fn game_boxes_use_fixed_layout() {
    assert_eq!(game_box_rect(0), Some(Rect { x: 30, y: 143, w: 267, h: 400 }));
    assert_eq!(game_box_rect(1), Some(Rect { x: 357, y: 143, w: 267, h: 400 }));
    assert_eq!(game_box_rect(2), Some(Rect { x: 684, y: 143, w: 267, h: 400 }));
    assert_eq!(game_box_rect(3), None);
    assert_eq!(game_box_rect(100), None);
}

#[test]
fn rect_edges_are_half_open() {
    let r = Rect { x: 10, y: 20, w: 30, h: 40 };
    assert!(r.contains_point(10, 20));
    assert!(r.contains_point(39, 59));
    assert!(!r.contains_point(40, 20));
    assert!(!r.contains_point(10, 60));
    assert!(!r.contains_point(9, 20));
}

#[test]
fn overlapping_regions_resolve_to_lowest_index() {
    // a malformed layout where box 1 swallows box 0 entirely
    let rects = vec![
        Rect { x: 0, y: 0, w: 100, h: 100 },
        Rect { x: 0, y: 0, w: 200, h: 200 },
    ];
    assert_eq!(first_hit(&rects, 50, 50), Some(0));
    assert_eq!(first_hit(&rects, 150, 150), Some(1));
    assert_eq!(first_hit(&rects, 300, 300), None);
}

#[test]
fn hit_test_finds_the_hovered_box() {
    assert_eq!(hit_test(40, 150, 3), Some(0));
    assert_eq!(hit_test(400, 200, 3), Some(1));
    assert_eq!(hit_test(700, 500, 3), Some(2));
    assert_eq!(hit_test(5, 5, 3), None);
}

#[test]
fn hit_test_sees_only_existing_entries() {
    assert_eq!(hit_test(400, 200, 1), None);
    assert_eq!(hit_test(40, 150, 0), None);
    // entries past the third slot are never hit-testable
    assert_eq!(hit_test(40, 150, 100), Some(0));
}

#[test]
fn centered_rect_centers_text() {
    let outer = Rect { x: 10, y: 20, w: 100, h: 50 };
    let r = centered_rect(outer, 40, 10);
    assert_eq!(r, Rect { x: 40, y: 40, w: 40, h: 10 });
}

#[test]
fn centered_rect_handles_oversized_content() {
    let outer = Rect { x: 10, y: 20, w: 30, h: 50 };
    let r = centered_rect(outer, 40, 10);
    assert_eq!(r, Rect { x: 5, y: 40, w: 40, h: 10 });
}

#[test]
fn button_colors_follow_pointer() {
    let b = UIButton::new(0, 0, 100, 40, "Options");
    assert_eq!(b.label, "Options");
    assert_eq!(b.fill_color(200, 200, false), ColorRgb { r: 100, g: 100, b: 150 });
    assert_eq!(b.fill_color(50, 20, false), ColorRgb { r: 150, g: 150, b: 200 });
    assert_eq!(b.fill_color(50, 20, true), ColorRgb { r: 200, g: 200, b: 250 });
    // a press away from the button does not light it up
    assert_eq!(b.fill_color(200, 200, true), ColorRgb { r: 100, g: 100, b: 150 });
    assert!(b.is_hovered(0, 0));
    assert!(!b.is_hovered(100, 0));
}
