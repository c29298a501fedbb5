//! Editing the three points of the angle shown in the editor: dragging a
//! handle with a pointer and nudging it with the keyboard.
//!
//! Both work on a live copy of the points and hand it back once, when the
//! edit ends, so the frame itself changes only then. A point is whatever
//! the caller measures positions in.
use vstd::prelude::*;

verus! {

/// How a pointer's move relates to the drag in progress.
#[derive(PartialEq, Eq, Debug, Clone, Copy, Structural)]
pub enum DragTarget {
    /// No handle is being dragged; the move may pan or zoom the view.
    NoDrag,
    /// A handle is being dragged by another pointer; the move does nothing.
    OtherPointer,
    /// The move drags the point of this handle.
    Handle(usize),
}

/// The state of an editing session, as the contracts see it.
pub struct SessionModel<Q> {
    /// The frame the session belongs to.
    pub editing: Option<u64>,
    /// The handle being dragged and the pointer dragging it.
    pub dragging: Option<(usize, i32)>,
    /// The edited points not yet handed back.
    pub live: Option<Seq<Q>>,
}

impl<Q> SessionModel<Q> {
    /// After showing frame `frame`: another frame starts a fresh session,
    /// dropping a drag and edits that belonged to the previous one.
    pub open spec fn shown(self, frame: u64) -> Self {
        if self.editing == Some(frame) {
            self
        } else {
            SessionModel { editing: Some(frame), dragging: None, live: None }
        }
    }

    /// The points to display for a frame whose stored points are `stored`.
    pub open spec fn display(self, stored: Seq<Q>) -> Seq<Q> {
        match self.live {
            Some(l) => l,
            None => stored,
        }
    }

    /// After pointer `pointer` with button `button` went down on handle
    /// `handle` of a frame whose stored points are `stored` (`None` when the
    /// frame is gone). Only the primary button grabs.
    pub open spec fn grabbed(
        self,
        button: i16,
        handle: usize,
        pointer: i32,
        stored: Option<Seq<Q>>,
    ) -> Self {
        if button == 0 && stored is Some {
            SessionModel { editing: self.editing, dragging: Some((handle, pointer)), live: stored }
        } else {
            self
        }
    }

    /// What a move of pointer `pointer` does.
    pub open spec fn target(self, pointer: i32) -> DragTarget {
        match self.dragging {
            None => DragTarget::NoDrag,
            Some((h, p)) => if p == pointer {
                DragTarget::Handle(h)
            } else {
                DragTarget::OtherPointer
            },
        }
    }

    /// After the dragged point was moved to `to`.
    pub open spec fn moved(self, to: Q) -> Self {
        match (self.dragging, self.live) {
            (Some((h, _)), Some(l)) => if h < l.len() {
                SessionModel { editing: self.editing, dragging: self.dragging, live: Some(l.update(h as int, to)) }
            } else {
                self
            },
            _ => self,
        }
    }

    /// Whether pointer `pointer` is the one dragging.
    pub open spec fn drags(self, pointer: i32) -> bool {
        self.dragging matches Some((_, p)) && p == pointer
    }

    /// After pointer `pointer` went up: the drag it held ends.
    pub open spec fn released(self, pointer: i32) -> Self {
        if self.drags(pointer) {
            SessionModel { editing: self.editing, dragging: None, live: None }
        } else {
            self
        }
    }

    /// The points that pointer `pointer` going up hands back.
    pub open spec fn released_points(self, pointer: i32) -> Option<Seq<Q>> {
        if self.drags(pointer) {
            self.live
        } else {
            None
        }
    }

    /// After a keyboard edit ended. During a drag this waits for the drag.
    pub open spec fn committed(self) -> Self {
        if self.dragging is Some {
            self
        } else {
            SessionModel { editing: self.editing, dragging: None, live: None }
        }
    }

    /// The points that the end of a keyboard edit hands back.
    pub open spec fn committed_points(self) -> Option<Seq<Q>> {
        if self.dragging is Some {
            None
        } else {
            self.live
        }
    }

    /// The points a keyboard nudge starts from: the edit in progress, or the
    /// frame's stored points.
    pub open spec fn nudge_base(self, stored: Option<Seq<Q>>) -> Option<Seq<Q>> {
        match self.live {
            Some(l) => Some(l),
            None => stored,
        }
    }

    /// After a keyboard nudge left the points at `points`.
    pub open spec fn nudged(self, points: Seq<Q>) -> Self {
        SessionModel { editing: self.editing, dragging: self.dragging, live: Some(points) }
    }
}

/// The editing state of the angle editor.
pub struct EditSession<Q> {
    editing: Option<u64>,
    dragging: Option<(usize, i32)>,
    live: Option<[Q; 3]>,
}

/// The view of an optional set of three points.
pub open spec fn points_view<Q>(points: Option<[Q; 3]>) -> Option<Seq<Q>> {
    match points {
        Some(p) => Some(p@),
        None => None,
    }
}

impl<Q> EditSession<Q> {
    #[verifier::type_invariant]
    spec fn handle_in_range(self) -> bool {
        self.dragging matches Some((h, _)) ==> h < 3
    }
}

impl<Q> View for EditSession<Q> {
    type V = SessionModel<Q>;

    closed spec fn view(&self) -> SessionModel<Q> {
        SessionModel { editing: self.editing, dragging: self.dragging, live: points_view(self.live) }
    }
}

impl<Q: Copy> EditSession<Q> {
    /// A session that belongs to no frame yet.
    pub fn new() -> (s: Self)
        ensures
            s@ == (SessionModel::<Q> { editing: None, dragging: None, live: None }),
    {
        EditSession { editing: None, dragging: None, live: None }
    }

    /// Shows frame `frame`. Zoom, pan and drag state belong to one frame: the
    /// result says whether a new session began, in which case the caller
    /// resets the view and forgets the pointers too.
    pub fn show(&mut self, frame: u64) -> (fresh: bool)
        ensures
            final(self)@ == old(self)@.shown(frame),
            fresh == (old(self)@.editing != Some(frame)),
            final(self)@.editing == Some(frame),
            old(self)@.editing == Some(frame) ==> final(self)@ == old(self)@,
    {
        proof {
            use_type_invariant(&*self);
        }
        let same = match self.editing {
            Some(f) => f == frame,
            None => false,
        };
        if same {
            false
        } else {
            self.editing = Some(frame);
            self.dragging = None;
            self.live = None;
            true
        }
    }

    /// The frame the session belongs to.
    pub fn editing(&self) -> (frame: Option<u64>)
        ensures
            frame == self@.editing,
    {
        self.editing
    }

    /// The points to display for a frame whose stored points are `stored`.
    pub fn display(&self, stored: [Q; 3]) -> (points: [Q; 3])
        ensures
            points@ == self@.display(stored@),
    {
        match self.live {
            Some(l) => l,
            None => stored,
        }
    }

    /// The handle being dragged, if any.
    pub fn dragged_handle(&self) -> (handle: Option<usize>)
        ensures
            handle == match self@.dragging {
                Some((h, _)) => Some(h),
                None => None,
            },
            handle matches Some(h) ==> h < 3,
    {
        proof {
            use_type_invariant(self);
        }
        match self.dragging {
            Some((h, _)) => Some(h),
            None => None,
        }
    }

    /// Pointer `pointer` with button `button` went down on handle `handle`
    /// of a frame whose stored points are `stored` (`None` when the frame is
    /// gone). The drag works on a copy of the points from here on.
    /// The result says whether the handle was grabbed.
    pub fn grab(&mut self, button: i16, handle: usize, pointer: i32, stored: Option<[Q; 3]>) -> (grabbed: bool)
        requires
            handle < 3,
        ensures
            final(self)@ == old(self)@.grabbed(button, handle, pointer, points_view(stored)),
            grabbed == (button == 0 && stored is Some),
            final(self)@.editing == old(self)@.editing,
    {
        proof {
            use_type_invariant(&*self);
        }
        if button != 0 {
            return false;
        }
        if let Some(points) = stored {
            self.live = Some(points);
            self.dragging = Some((handle, pointer));
            true
        } else {
            false
        }
    }

    /// What a move of pointer `pointer` does.
    pub fn target(&self, pointer: i32) -> (t: DragTarget)
        ensures
            t == self@.target(pointer),
            t matches DragTarget::Handle(h) ==> h < 3,
    {
        proof {
            use_type_invariant(self);
        }
        match self.dragging {
            None => DragTarget::NoDrag,
            Some((h, p)) => if p == pointer {
                DragTarget::Handle(h)
            } else {
                DragTarget::OtherPointer
            },
        }
    }

    /// Moves the dragged point to `to` in the copy being edited.
    pub fn move_dragged(&mut self, to: Q)
        ensures
            final(self)@ == old(self)@.moved(to),
    {
        proof {
            use_type_invariant(&*self);
        }
        if let Some((h, _)) = self.dragging {
            if let Some(points) = self.live {
                let mut points = points;
                points[h] = to;
                self.live = Some(points);
            }
        }
    }

    /// Pointer `pointer` went up or was cancelled. When it was dragging, the
    /// drag ends and the dragged points come back to be stored in the frame.
    pub fn release(&mut self, pointer: i32) -> (points: Option<[Q; 3]>)
        ensures
            final(self)@ == old(self)@.released(pointer),
            points_view(points) == old(self)@.released_points(pointer),
    {
        let drags = match self.dragging {
            Some((_, p)) => p == pointer,
            None => false,
        };
        if drags {
            self.dragging = None;
            let points = self.live;
            self.live = None;
            points
        } else {
            None
        }
    }

    /// The points a keyboard nudge starts from, given the frame's stored
    /// points (`None` when the frame is gone).
    pub fn nudge_base(&self, stored: Option<[Q; 3]>) -> (points: Option<[Q; 3]>)
        ensures
            points_view(points) == self@.nudge_base(points_view(stored)),
    {
        match self.live {
            Some(l) => Some(l),
            None => stored,
        }
    }

    /// Keeps the result of a keyboard nudge in the copy being edited, so a
    /// held key does not store every repeat in the frame.
    pub fn nudge(&mut self, points: [Q; 3])
        ensures
            final(self)@ == old(self)@.nudged(points@),
            final(self)@.editing == old(self)@.editing,
            final(self)@.dragging == old(self)@.dragging,
            final(self)@.live == Some(points@),
    {
        proof {
            use_type_invariant(&*self);
        }
        self.live = Some(points);
    }

    /// A keyboard edit ended (key released or focus lost). The nudged
    /// points come back to be stored in the frame, unless a pointer drag is
    /// in progress, whose own end stores them.
    pub fn commit(&mut self) -> (points: Option<[Q; 3]>)
        ensures
            final(self)@ == old(self)@.committed(),
            points_view(points) == old(self)@.committed_points(),
    {
        if self.dragging.is_some() {
            return None;
        }
        let points = self.live;
        self.live = None;
        points
    }
}

/// A drag hands back exactly the points it moved, once: the grabbing
/// pointer going up returns the stored points with the dragged one moved,
/// and going up again returns nothing.
pub proof fn lemma_drag_commits_moved_points<Q>(
    m: SessionModel<Q>,
    handle: usize,
    pointer: i32,
    stored: Seq<Q>,
    to: Q,
)
    requires
        handle < 3,
        stored.len() == 3,
    ensures
        ({
            let dragged = m.grabbed(0, handle, pointer, Some(stored)).moved(to);
            &&& dragged.target(pointer) == DragTarget::Handle(handle)
            &&& dragged.display(stored) == stored.update(handle as int, to)
            &&& dragged.released_points(pointer) == Some(stored.update(handle as int, to))
            &&& dragged.released(pointer).released_points(pointer) is None
            &&& dragged.released(pointer).display(stored) == stored
        }),
{
}

/// While a handle is dragged, other pointers leave the drag alone: their
/// moves do nothing and their release neither ends it nor hands back points.
pub proof fn lemma_other_pointers_leave_drag_alone<Q>(m: SessionModel<Q>, other: i32)
    requires
        m.dragging matches Some((_, p)) && p != other,
    ensures
        m.target(other) == DragTarget::OtherPointer,
        m.released(other) == m,
        m.released_points(other) is None,
{
}

/// The end of a keyboard edit during a drag stores nothing and leaves the
/// drag as it is.
pub proof fn lemma_commit_waits_for_drag<Q>(m: SessionModel<Q>)
    requires
        m.dragging is Some,
    ensures
        m.committed() == m,
        m.committed_points() is None,
{
}

/// Nudges accumulate on the edited copy and come back when the keyboard
/// edit ends, after which the frame's own points are shown again.
pub proof fn lemma_nudges_commit_last_points<Q>(m: SessionModel<Q>, first: Seq<Q>, second: Seq<Q>, stored: Seq<Q>)
    requires
        m.dragging is None,
    ensures
        m.nudged(first).nudge_base(Some(stored)) == Some(first),
        m.nudged(first).nudged(second).committed_points() == Some(second),
        m.nudged(first).nudged(second).committed().display(stored) == stored,
{
}

/// Showing another frame starts afresh: no drag and no pending edit carry
/// over, and showing the same frame again changes nothing.
pub proof fn lemma_new_frame_starts_fresh<Q>(m: SessionModel<Q>, frame: u64)
    ensures
        m.editing != Some(frame) ==> m.shown(frame).dragging is None && m.shown(frame).live is None,
        m.shown(frame).editing == Some(frame),
        m.shown(frame).shown(frame) == m.shown(frame),
{
}

/// Showing the frame the session already belongs to changes nothing: a
/// drag in progress and the edited copy of the points stay.
pub proof fn lemma_showing_same_frame_keeps_session<Q>(m: SessionModel<Q>, frame: u64)
    requires
        m.editing == Some(frame),
    ensures
        m.shown(frame) == m,
        m.shown(frame).dragging == m.dragging,
        m.shown(frame).live == m.live,
{
}

/// Grabbing a handle, with any button and whether or not the frame is
/// there, keeps the frame the session belongs to.
pub proof fn lemma_grab_keeps_frame<Q>(
    m: SessionModel<Q>,
    button: i16,
    handle: usize,
    pointer: i32,
    stored: Option<Seq<Q>>,
)
    ensures
        m.grabbed(button, handle, pointer, stored).editing == m.editing,
        m.editing is Some ==> m.grabbed(button, handle, pointer, stored).shown(frame_of(m))
            == m.grabbed(button, handle, pointer, stored),
{
}

/// The frame a session belongs to, or an arbitrary one when it has none.
pub open spec fn frame_of<Q>(m: SessionModel<Q>) -> u64 {
    match m.editing {
        Some(f) => f,
        None => 0,
    }
}

/// A keyboard nudge keeps the frame the session belongs to and the drag
/// state, and the nudged points are what is displayed and committed.
pub proof fn lemma_nudge_keeps_frame<Q>(m: SessionModel<Q>, points: Seq<Q>, stored: Seq<Q>)
    ensures
        m.nudged(points).editing == m.editing,
        m.nudged(points).dragging == m.dragging,
        m.nudged(points).display(stored) == points,
        m.editing is Some ==> m.nudged(points).shown(frame_of(m)) == m.nudged(points),
        m.dragging is None ==> m.nudged(points).committed_points() == Some(points),
{
}

} // verus!
