use idle_annotator::annotator::{annotation_text, AnnotatorState, IDLE_THRESHOLD_MS};
use idle_annotator::geom::{DrawCommand, Point};

#[test]
fn start_state_is_hidden_at_origin() {
    let s = AnnotatorState::new(7);
    assert_eq!(s.position, Point { x: 0, y: 0 });
    assert_eq!(s.last_move_timestamp, 7);
    assert!(!s.annotation_visible);
    assert_eq!(s.draw_command(), None);
}

#[test]
fn first_move_records_position_and_stays_hidden() {
    let mut s = AnnotatorState::new(0);
    let moved = s.frame_update(Some(Point { x: 5, y: 5 }), 0);
    assert!(moved);
    assert_eq!(s.position, Point { x: 5, y: 5 });
    assert_eq!(s.last_move_timestamp, 0);
    assert!(!s.annotation_visible);
}

#[test]
fn idle_for_threshold_shows_annotation_at_offset() {
    let mut s = AnnotatorState::new(0);
    s.frame_update(Some(Point { x: 5, y: 5 }), 0);
    let d = s.frame(None, 250);
    assert!(s.annotation_visible);
    assert_eq!(d, Some(DrawCommand { x: 15, y: 15 }));
    assert_eq!(annotation_text(), "You are not moving the pointer");
}

#[test]
fn repeated_sample_registers_no_move_and_keeps_annotation() {
    let mut s = AnnotatorState::new(0);
    s.frame_update(Some(Point { x: 5, y: 5 }), 0);
    s.frame(None, 250);
    let moved = s.frame_update(Some(Point { x: 5, y: 5 }), 300);
    assert!(!moved);
    assert!(s.annotation_visible);
    assert_eq!(s.last_move_timestamp, 0);
    assert_eq!(s.position, Point { x: 5, y: 5 });
}

#[test]
fn any_move_hides_annotation_and_resets_timer() {
    let mut s = AnnotatorState::new(0);
    s.frame_update(Some(Point { x: 5, y: 5 }), 0);
    s.frame(None, 250);
    s.frame_update(Some(Point { x: 5, y: 5 }), 300);
    let moved = s.frame_update(Some(Point { x: 6, y: 5 }), 310);
    assert!(moved);
    assert!(!s.annotation_visible);
    assert_eq!(s.last_move_timestamp, 310);
    assert_eq!(s.position, Point { x: 6, y: 5 });
    assert_eq!(s.draw_command(), None);
}

#[test]
fn annotation_appears_exactly_at_the_threshold() {
    let mut s = AnnotatorState::new(100);
    let d = s.frame(None, 100 + IDLE_THRESHOLD_MS - 1);
    assert!(!s.annotation_visible);
    assert_eq!(d, None);
    let d = s.frame(None, 100 + IDLE_THRESHOLD_MS);
    assert!(s.annotation_visible);
    assert_eq!(d, Some(DrawCommand { x: 10, y: 10 }));
}

#[test]
fn missing_sample_leaves_state_unchanged_before_threshold() {
    let mut s = AnnotatorState::new(0);
    s.frame_update(Some(Point { x: -3, y: 9 }), 50);
    let before = s;
    let moved = s.frame_update(None, 120);
    assert!(!moved);
    assert_eq!(s, before);
}

#[test]
fn move_in_one_coordinate_only_still_counts() {
    let mut s = AnnotatorState::new(0);
    s.frame_update(Some(Point { x: 5, y: 5 }), 0);
    s.frame(None, 230);
    assert!(s.annotation_visible);
    let moved = s.frame_update(Some(Point { x: 5, y: 4 }), 240);
    assert!(moved);
    assert!(!s.annotation_visible);
    assert_eq!(s.last_move_timestamp, 240);
}

#[test]
fn annotation_needs_a_fresh_full_idle_period_after_a_move() {
    let mut s = AnnotatorState::new(0);
    s.frame(None, 200);
    assert!(s.annotation_visible);
    s.frame_update(Some(Point { x: 1, y: 1 }), 210);
    assert!(!s.annotation_visible);
    let d = s.frame(None, 409);
    assert!(!s.annotation_visible);
    assert_eq!(d, None);
    let d = s.frame(None, 410);
    assert_eq!(d, Some(DrawCommand { x: 11, y: 11 }));
}

#[test]
fn anchor_offsets_extreme_positions_without_wrapping() {
    let p = Point { x: i32::MAX, y: i32::MIN };
    let d = p.anchor();
    assert_eq!(d, DrawCommand { x: i32::MAX as i64 + 10, y: i32::MIN as i64 + 10 });
}
