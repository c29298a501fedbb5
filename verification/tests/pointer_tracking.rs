use angulito::pointers::{Gesture, PointerSet};

#[test]
fn one_pointer_pans() {
    let mut set = PointerSet::new();
    set.press(0, 1, (10, 10));
    assert_eq!(set.move_to(1, (15, 12)), Some((10, 10)));
    assert_eq!(set.gesture(1), Gesture::Pan);
}

#[test]
fn two_pointers_pinch_about_the_other_one() {
    let mut set = PointerSet::new();
    set.press(0, 1, (0, 0));
    set.press(0, 2, (100, 0));
    assert_eq!(set.move_to(2, (120, 0)), Some((100, 0)));
    assert_eq!(set.gesture(2), Gesture::Pinch { other: (0, 0) });
    assert_eq!(set.move_to(1, (-5, 0)), Some((0, 0)));
    assert_eq!(set.gesture(1), Gesture::Pinch { other: (120, 0) });
}

#[test]
fn a_third_pointer_is_ignored() {
    let mut set = PointerSet::new();
    set.press(0, 1, 'a');
    set.press(0, 2, 'b');
    set.press(0, 3, 'c');
    assert_eq!(set.len(), 2);
    assert_eq!(set.move_to(3, 'd'), None);
}

#[test]
fn secondary_buttons_do_not_pan() {
    let mut set = PointerSet::new();
    assert!(!set.press(2, 1, 'a'));
    set.press(1, 2, 'b');
    assert_eq!(set.len(), 0);
    assert_eq!(set.move_to(1, 'c'), None);
    assert_eq!(set.gesture(1), Gesture::Idle);
}

#[test]
fn released_pointer_is_forgotten() {
    let mut set = PointerSet::new();
    set.press(0, 1, 'a');
    set.press(0, 2, 'b');
    set.release(1);
    assert_eq!(set.len(), 1);
    assert_eq!(set.move_to(1, 'x'), None);
    assert_eq!(set.move_to(2, 'c'), Some('b'));
    assert_eq!(set.gesture(2), Gesture::Pan);
    set.release(7);
    assert_eq!(set.len(), 1);
}

#[test]
fn clear_forgets_all_pointers() {
    let mut set = PointerSet::new();
    set.press(0, 1, 'a');
    set.press(0, 2, 'b');
    set.clear();
    assert_eq!(set.len(), 0);
    set.press(0, 3, 'c');
    assert_eq!(set.len(), 1);
}

#[test]
fn pointer_down_and_up_leaves_no_trace() {
    let mut set = PointerSet::new();
    set.press(0, 1, 'a');
    set.press(0, 2, 'b');
    set.release(2);
    assert_eq!(set.len(), 1);
    assert_eq!(set.move_to(1, 'c'), Some('a'));
    assert_eq!(set.gesture(1), Gesture::Pan);
}
