use smas_launcher::selection::SelectionState;
use smas_launcher::selection::BLEND_ONE;
use smas_launcher::ui::blend_channel;

#[test]
fn selection_clamps_at_both_ends() {
    let mut s = SelectionState::new();
    assert_eq!(s.selected, 0);
    s.move_selection(-1, 2);
    assert_eq!(s.selected, 0);
    s.move_selection(1, 2);
    assert_eq!(s.selected, 1);
    s.move_selection(1, 2);
    assert_eq!(s.selected, 1);
    s.move_selection(-1, 2);
    assert_eq!(s.selected, 0);
}

#[test]
fn selection_stays_put_on_empty_catalog() {
    let mut s = SelectionState::new();
    s.move_selection(1, 0);
    assert_eq!(s.selected, 0);
    s.move_selection(-1, 0);
    assert_eq!(s.selected, 0);
}

#[test]
fn selection_clamped_for_small_catalogs() {
    for count in 1..=3usize {
        let mut s = SelectionState::new();
        for delta in [1, 1, 1, -1, 1, -1, -1, -1, 1] {
            s.move_selection(delta, count);
            assert!(s.selected < count);
        }
    }
}

#[test]
fn first_blend_step_covers_fifteen_percent() {
    let mut s = SelectionState::new();
    s.update_blends(2);
    // entry 0 is selected: distance 10000, one step covers 1500
    assert_eq!(s.blend_of(0), 1500);
    assert_eq!(s.blend_of(1), 0);
}

#[test]
fn blends_converge_within_fifty_frames() {
    let mut s = SelectionState::new();
    for _ in 0..50 {
        s.update_blends(3);
    }
    assert_eq!(s.blend_of(0), BLEND_ONE);
    assert_eq!(s.blend_of(1), 0);
    assert_eq!(s.blend_of(2), 0);

    // change the selection; the old entry fades out, the new one fills in
    s.move_selection(1, 3);
    for _ in 0..50 {
        s.update_blends(3);
    }
    assert_eq!(s.blend_of(0), 0);
    assert_eq!(s.blend_of(1), BLEND_ONE);
    assert_eq!(s.blend_of(2), 0);
}

#[test]
fn blend_of_unknown_entry_is_gray() {
    let s = SelectionState::new();
    assert_eq!(s.blend_of(7), 0);
}

#[test]
fn blend_channel_interpolates_gray_to_full() {
    assert_eq!(blend_channel(0), 128);
    assert_eq!(blend_channel(BLEND_ONE), 255);
    assert_eq!(blend_channel(1500), 147);
    assert_eq!(blend_channel(5000), 191);
}
