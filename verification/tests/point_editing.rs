use angulito::session::{DragTarget, EditSession};

#[test]
fn a_new_frame_starts_a_fresh_session() {
    let mut s: EditSession<u8> = EditSession::new();
    assert!(s.show(1));
    assert!(!s.show(1));
    s.grab(0, 0, 5, Some([1, 2, 3]));
    assert!(s.show(2));
    assert_eq!(s.dragged_handle(), None);
    assert_eq!(s.display([7, 8, 9]), [7, 8, 9]);
}

#[test]
fn dragging_moves_only_the_grabbed_point_and_commits_on_release() {
    let mut s = EditSession::new();
    s.show(1);
    s.grab(0, 2, 11, Some([1, 2, 3]));
    assert_eq!(s.dragged_handle(), Some(2));
    assert_eq!(s.target(11), DragTarget::Handle(2));
    s.move_dragged(30);
    s.move_dragged(31);
    assert_eq!(s.display([1, 2, 3]), [1, 2, 31]);
    assert_eq!(s.release(11), Some([1, 2, 31]));
    assert_eq!(s.dragged_handle(), None);
    assert_eq!(s.release(11), None);
    assert_eq!(s.display([1, 2, 31]), [1, 2, 31]);
}

#[test]
fn other_pointers_neither_move_nor_end_the_drag() {
    let mut s = EditSession::new();
    s.show(1);
    s.grab(0, 0, 11, Some([1, 2, 3]));
    assert_eq!(s.target(12), DragTarget::OtherPointer);
    assert_eq!(s.release(12), None);
    assert_eq!(s.target(11), DragTarget::Handle(0));
}

#[test]
fn no_drag_leaves_moves_to_the_view() {
    let s: EditSession<u8> = EditSession::new();
    assert_eq!(s.target(3), DragTarget::NoDrag);
}

#[test]
fn right_click_does_not_grab() {
    let mut s = EditSession::new();
    s.show(1);
    s.grab(2, 1, 11, Some([1, 2, 3]));
    assert_eq!(s.dragged_handle(), None);
    assert_eq!(s.target(11), DragTarget::NoDrag);
}

#[test]
fn grabbing_a_vanished_frame_does_nothing() {
    let mut s: EditSession<u8> = EditSession::new();
    s.show(1);
    s.grab(0, 1, 11, None);
    assert_eq!(s.dragged_handle(), None);
}

#[test]
fn nudges_accumulate_and_commit_once() {
    let mut s = EditSession::new();
    s.show(1);
    let base = s.nudge_base(Some([1, 2, 3])).unwrap();
    assert_eq!(base, [1, 2, 3]);
    s.nudge([1, 3, 3]);
    let base = s.nudge_base(Some([1, 2, 3])).unwrap();
    assert_eq!(base, [1, 3, 3]);
    s.nudge([1, 4, 3]);
    assert_eq!(s.display([1, 2, 3]), [1, 4, 3]);
    assert_eq!(s.commit(), Some([1, 4, 3]));
    assert_eq!(s.commit(), None);
}

#[test]
fn keyboard_commit_waits_for_a_drag() {
    let mut s = EditSession::new();
    s.show(1);
    s.grab(0, 1, 11, Some([1, 2, 3]));
    s.move_dragged(9);
    assert_eq!(s.commit(), None);
    assert_eq!(s.release(11), Some([1, 9, 3]));
}

#[test]
fn nudge_base_is_gone_with_the_frame() {
    let s: EditSession<u8> = EditSession::new();
    assert_eq!(s.nudge_base(None), None);
}
