//! The list of frames being measured and which of them is selected.
//!
//! A frame is whatever the caller stores per measured image; the list only
//! decides where it goes and which frame the selection names afterwards.
use vstd::prelude::*;

verus! {

/// The selection after the frame at position `removed` was taken out of the
/// list, which then holds `len_after` frames. A later frame moves up by one,
/// an earlier one keeps its position, and a removed selected frame hands the
/// selection to the frame now at its position, or to the last one, or to
/// nothing when the list became empty.
pub open spec fn selection_after_removal(
    selected: Option<usize>,
    removed: usize,
    len_after: nat,
) -> Option<usize> {
    match selected {
        None => None,
        Some(s) => if s > removed {
            Some((s - 1) as usize)
        } else if s == removed {
            if len_after > 0 {
                if removed <= len_after - 1 {
                    Some(removed)
                } else {
                    Some((len_after - 1) as usize)
                }
            } else {
                None
            }
        } else {
            Some(s)
        },
    }
}

/// Whether `selected` names a frame of a list of `len` frames, or nothing.
pub open spec fn selection_valid(selected: Option<usize>, len: nat) -> bool {
    match selected {
        None => true,
        Some(s) => s < len,
    }
}

/// Appends `frame` to the list and returns the selection that names it.
pub fn add_frame<T>(frames: &mut Vec<T>, frame: T) -> (selected: Option<usize>)
    ensures
        final(frames)@ == old(frames)@.push(frame),
        selected == Some(old(frames)@.len() as usize),
        final(frames)@[old(frames)@.len() as int] == frame,
{
    frames.push(frame);
    Some(frames.len() - 1)
}

/// Removes the frame at `index` and returns it with the new selection.
///
/// `index` may be stale, coming from a list that was shown before other
/// removals. Such an index past the end leaves the list alone and gives
/// `None`, so the selection stays as it was.
pub fn remove_frame<T>(frames: &mut Vec<T>, selected: Option<usize>, index: usize) -> (result:
    Option<(T, Option<usize>)>)
    ensures
        index >= old(frames)@.len() ==> result is None && final(frames)@ == old(frames)@,
        index < old(frames)@.len() ==> (result matches Some((removed, now_selected)) && removed
            == old(frames)@[index as int] && final(frames)@ == old(frames)@.remove(index as int)
            && now_selected == selection_after_removal(selected, index, final(frames)@.len())),
        selected is None ==> (result matches Some((_, now_selected)) ==> now_selected is None),
{
    if index >= frames.len() {
        return None;
    }
    let removed = frames.remove(index);
    let len = frames.len();
    let now_selected = match selected {
        None => None,
        Some(s) => if s > index {
            Some(s - 1)
        } else if s == index {
            if len > 0 {
                if index <= len - 1 {
                    Some(index)
                } else {
                    Some(len - 1)
                }
            } else {
                None
            }
        } else {
            Some(s)
        },
    };
    Some((removed, now_selected))
}

/// Removing a frame never leaves the selection pointing past the end of the
/// list: a selection that named a frame still names one, or nothing.
pub proof fn lemma_removal_keeps_selection_valid(
    selected: Option<usize>,
    removed: usize,
    len_before: nat,
)
    requires
        removed < len_before,
        selection_valid(selected, len_before),
    ensures
        selection_valid(selection_after_removal(selected, removed, (len_before - 1) as nat), (len_before
            - 1) as nat),
{
}

/// Removing a frame other than the selected one keeps that same frame
/// selected, at its possibly shifted position.
pub proof fn lemma_removal_keeps_other_frame_selected<T>(frames: Seq<T>, selected: usize, removed: usize)
    requires
        selected < frames.len(),
        removed < frames.len(),
        selected != removed,
    ensures
        selection_after_removal(Some(selected), removed, (frames.len() - 1) as nat) matches Some(now)
            && frames.remove(removed as int)[now as int] == frames[selected as int],
{
}

/// Removing the selected frame selects the frame that followed it, or the
/// one before it when it was the last, and nothing once the list is empty.
pub proof fn lemma_removing_selected_frame<T>(frames: Seq<T>, removed: usize)
    requires
        removed < frames.len(),
    ensures
        ({
            let now = selection_after_removal(Some(removed), removed, (frames.len() - 1) as nat);
            let rest = frames.remove(removed as int);
            &&& (removed + 1 < frames.len()) ==> now == Some(removed) && rest[removed as int]
                == frames[removed + 1]
            &&& (removed + 1 == frames.len() && frames.len() > 1) ==> now == Some((removed - 1) as usize)
                && rest[removed - 1] == frames[removed - 1]
            &&& frames.len() == 1 ==> now is None
        }),
{
}

/// Removing a frame while nothing is selected leaves nothing selected.
pub proof fn lemma_removal_without_selection(removed: usize, len_after: nat)
    ensures
        selection_after_removal(None, removed, len_after) is None,
{
}

} // verus!
