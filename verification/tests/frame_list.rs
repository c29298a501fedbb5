use angulito::frames::{add_frame, remove_frame};

#[test]
fn added_frame_becomes_selected() {
    let mut frames = vec!["a", "b"];
    let selected = add_frame(&mut frames, "c");
    assert_eq!(frames, vec!["a", "b", "c"]);
    assert_eq!(selected, Some(2));
}

#[test]
fn first_frame_added_to_empty_list_is_selected() {
    let mut frames: Vec<u32> = Vec::new();
    assert_eq!(add_frame(&mut frames, 7), Some(0));
}

#[test]
fn removing_an_earlier_frame_shifts_selection_down() {
    let mut frames = vec!["a", "b", "c"];
    let result = remove_frame(&mut frames, Some(2), 0);
    assert_eq!(result, Some(("a", Some(1))));
    assert_eq!(frames, vec!["b", "c"]);
    // The same frame is still selected.
    assert_eq!(frames[1], "c");
}

#[test]
fn removing_a_later_frame_keeps_selection() {
    let mut frames = vec!["a", "b", "c"];
    assert_eq!(remove_frame(&mut frames, Some(0), 2), Some(("c", Some(0))));
    assert_eq!(frames, vec!["a", "b"]);
}

#[test]
fn removing_the_selected_frame_selects_its_successor() {
    let mut frames = vec!["a", "b", "c"];
    assert_eq!(remove_frame(&mut frames, Some(1), 1), Some(("b", Some(1))));
    assert_eq!(frames[1], "c");
}

#[test]
fn removing_the_selected_last_frame_selects_the_new_last() {
    let mut frames = vec!["a", "b", "c"];
    assert_eq!(remove_frame(&mut frames, Some(2), 2), Some(("c", Some(1))));
}

#[test]
fn removing_the_only_frame_clears_selection() {
    let mut frames = vec!["a"];
    assert_eq!(remove_frame(&mut frames, Some(0), 0), Some(("a", None)));
    assert!(frames.is_empty());
}

#[test]
fn removing_with_nothing_selected_keeps_nothing_selected() {
    let mut frames = vec!["a", "b"];
    assert_eq!(remove_frame(&mut frames, None, 0), Some(("a", None)));
}

#[test]
fn stale_index_changes_nothing() {
    let mut frames = vec!["a", "b"];
    assert_eq!(remove_frame(&mut frames, Some(1), 2), None);
    assert_eq!(frames, vec!["a", "b"]);
    assert_eq!(remove_frame(&mut frames, Some(1), 99), None);
}
