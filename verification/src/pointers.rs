//! The pointers held down on the editor's background, which pan the view
//! with one finger and pinch-zoom it with two.
//!
//! A position is whatever the caller measures pointers in; it is only
//! stored and handed back.
use vstd::prelude::*;

verus! {

/// What a pointer's move does to the view.
#[derive(PartialEq, Eq, Debug)]
pub enum Gesture<P> {
    /// Nothing: no pointer, or one that is not held.
    Idle,
    /// The only pointer down pans the view by its movement.
    Pan,
    /// Two pointers down zoom the view about their midpoint; `other` is the
    /// position of the pointer that did not move.
    Pinch { other: P },
}

/// The gesture that a move of pointer `id` makes, with `down` the
/// pointers down after the move was recorded.
pub open spec fn gesture_of<P>(down: Seq<(i32, P)>, id: i32) -> Gesture<P> {
    if down.len() == 1 {
        Gesture::Pan
    } else if down.len() == 2 {
        Gesture::Pinch { other: if down[0].0 == id { down[1].1 } else { down[0].1 } }
    } else {
        Gesture::Idle
    }
}

/// Position of the first entry of pointer `id` in `down`.
pub open spec fn position_of<P>(down: Seq<(i32, P)>, id: i32) -> Option<int>
    decreases down.len(),
{
    if down.len() == 0 {
        None
    } else if down[0].0 == id {
        Some(0)
    } else {
        match position_of(down.drop_first(), id) {
            Some(j) => Some(j + 1),
            None => None,
        }
    }
}

/// If the entries before `i` belong to other pointers, the first entry of
/// `id` is at `i` when that one is `id`'s, and after `i` otherwise.
proof fn lemma_position_of<P>(down: Seq<(i32, P)>, id: i32, i: int)
    requires
        0 <= i <= down.len(),
        forall|k: int| 0 <= k < i ==> down[k].0 != id,
    ensures
        i < down.len() && down[i].0 == id ==> position_of(down, id) == Some(i),
        i == down.len() ==> position_of(down, id) is None,
        position_of(down, id) matches Some(j) ==> i <= j < down.len() && down[j].0 == id,
    decreases down.len(),
{
    if down.len() > 0 && i > 0 {
        lemma_position_of(down.drop_first(), id, i - 1);
    } else if down.len() > 0 {
        lemma_position_of(down.drop_first(), id, 0);
    }
}

/// Whether `down` holds pointer `id`.
pub open spec fn holds<P>(down: Seq<(i32, P)>, id: i32) -> bool {
    exists|j: int| 0 <= j < down.len() && down[j].0 == id
}

/// The pointers that stay down once pointer `id` is lifted.
pub open spec fn without<P>(down: Seq<(i32, P)>, id: i32) -> Seq<(i32, P)> {
    down.filter(other_than::<P>(id))
}

/// Whether an entry belongs to a pointer other than `id`.
pub open spec fn other_than<P>(id: i32) -> spec_fn((i32, P)) -> bool {
    |e: (i32, P)| e.0 != id
}

/// Pointer ids with their last positions, in the order they went down. At
/// most two are down: pan needs one, pinch two.
pub struct PointerSet<P> {
    entries: Vec<(i32, P)>,
}

impl<P> PointerSet<P> {
    #[verifier::type_invariant]
    spec fn at_most_two(self) -> bool {
        self.entries@.len() <= 2
    }
}

impl<P: Copy> PointerSet<P> {
    /// The pointers down, oldest first.
    pub closed spec fn down(&self) -> Seq<(i32, P)> {
        self.entries@
    }

    /// No pointer down.
    pub fn new() -> (set: Self)
        ensures
            set.down() == Seq::<(i32, P)>::empty(),
    {
        PointerSet { entries: Vec::new() }
    }

    /// Forgets every pointer, as when another frame is shown.
    pub fn clear(&mut self)
        ensures
            final(self).down() == Seq::<(i32, P)>::empty(),
    {
        self.entries = Vec::new();
    }

    /// Number of pointers down.
    pub fn len(&self) -> (n: usize)
        ensures
            n == self.down().len(),
            n <= 2,
    {
        proof {
            use_type_invariant(self);
        }
        self.entries.len()
    }

    /// A pointer went down at `pos` with mouse button `button`. Only the
    /// primary button (0, which touch and pen contacts report too) is
    /// down: a right click opens the context menu, which swallows the
    /// release, and the stale pointer would then pan on mere hovering. A
    /// third pointer is ignored. The result says whether the button was the
    /// primary one.
    pub fn press(&mut self, button: i16, id: i32, pos: P) -> (primary: bool)
        ensures
            primary == (button == 0),
            final(self).down() == if button == 0 && old(self).down().len() < 2 {
                old(self).down().push((id, pos))
            } else {
                old(self).down()
            },
            final(self).down().len() <= 2,
    {
        proof {
            use_type_invariant(&*self);
        }
        if button == 0 && self.entries.len() < 2 {
            let mut entries = Vec::new();
            std::mem::swap(&mut entries, &mut self.entries);
            entries.push((id, pos));
            self.entries = entries;
        }
        button == 0
    }

    /// Pointer `id` moved to `pos`. Records the new position of the first
    /// down entry for that id and returns its previous position; an
    /// untracked pointer changes nothing and gives `None`.
    pub fn move_to(&mut self, id: i32, pos: P) -> (previous: Option<P>)
        ensures
            previous is None <==> !holds(old(self).down(), id),
            match position_of(old(self).down(), id) {
                Some(j) => previous == Some(old(self).down()[j].1) && final(self).down() == old(
                    self,
                ).down().update(j, (id, pos)),
                None => previous is None && final(self).down() == old(self).down(),
            },
            final(self).down().len() == old(self).down().len(),
    {
        proof {
            use_type_invariant(&*self);
        }
        let n = self.entries.len();
        let mut i: usize = 0;
        while i < n
            invariant
                i <= n,
                n == self.entries@.len(),
                n <= 2,
                self.entries@ == old(self).entries@,
                forall|k: int| 0 <= k < i ==> self.entries@[k].0 != id,
            decreases n - i,
        {
            let e = self.entries[i];
            if e.0 == id {
                proof {
                    lemma_position_of(self.entries@, id, i as int);
                }
                let mut entries = Vec::new();
                std::mem::swap(&mut entries, &mut self.entries);
                entries.set(i, (id, pos));
                self.entries = entries;
                return Some(e.1);
            }
            i = i + 1;
        }
        proof {
            lemma_position_of(self.entries@, id, n as int);
        }
        None
    }

    /// Pointer `id` went up or was cancelled: it stops being down.
    pub fn release(&mut self, id: i32)
        ensures
            final(self).down() == without(old(self).down(), id),
            !holds(final(self).down(), id),
            final(self).down().len() <= 2,
    {
        proof {
            use_type_invariant(&*self);
        }
        let ghost pred = other_than::<P>(id);
        let ghost before = self.entries@;
        let n = self.entries.len();
        let mut kept: Vec<(i32, P)> = Vec::new();
        let mut i: usize = 0;
        while i < n
            invariant
                i <= n,
                n == before.len(),
                n <= 2,
                before == self.entries@,
                pred == other_than::<P>(id),
                kept@ == before.take(i as int).filter(pred),
            decreases n - i,
        {
            let e = self.entries[i];
            if e.0 != id {
                kept.push(e);
            }
            assert(before.take(i + 1).drop_last() =~= before.take(i as int));
            assert(before.take(i + 1).last() == e);
            proof {
                reveal_with_fuel(Seq::<_>::filter, 1);
                assert(before.take(i + 1).filter(pred) == if pred(e) {
                    before.take(i as int).filter(pred).push(e)
                } else {
                    before.take(i as int).filter(pred)
                });
            }
            i = i + 1;
        }
        assert(before.take(n as int) =~= before);
        proof {
            broadcast use vstd::seq_lib::group_filter_ensures;
            before.lemma_filter_len(pred);
        }
        self.entries = kept;
        assert(!holds(self.entries@, id)) by {
            if holds(self.entries@, id) {
                let j = choose|j: int| 0 <= j < self.entries@.len() && self.entries@[j].0 == id;
                assert(pred(self.entries@[j]));
            }
        }
    }

    /// The gesture that the move of pointer `id` just recorded makes.
    pub fn gesture(&self, id: i32) -> (g: Gesture<P>)
        ensures
            g == gesture_of(self.down(), id),
    {
        let n = self.entries.len();
        if n == 1 {
            Gesture::Pan
        } else if n == 2 {
            let first = self.entries[0];
            let second = self.entries[1];
            if first.0 == id {
                Gesture::Pinch { other: second.1 }
            } else {
                Gesture::Pinch { other: first.1 }
            }
        } else {
            Gesture::Idle
        }
    }
}

/// Lifting every pointer but `id` leaves a list without `id` unchanged.
proof fn lemma_without_absent<P>(down: Seq<(i32, P)>, id: i32)
    requires
        !holds(down, id),
    ensures
        without(down, id) == down,
    decreases down.len(),
{
    reveal_with_fuel(Seq::<_>::filter, 1);
    if down.len() > 0 {
        assert(!holds(down.drop_last(), id)) by {
            if holds(down.drop_last(), id) {
                let j = choose|j: int| 0 <= j < down.drop_last().len() && down.drop_last()[j].0 == id;
                assert(down[j].0 == id);
            }
        }
        lemma_without_absent(down.drop_last(), id);
        assert(down.last().0 != id);
        assert(down.drop_last().push(down.last()) =~= down);
    }
}

/// A pointer that goes down and up again leaves no trace: lifting it
/// restores the pointers that were down before it.
pub proof fn lemma_press_then_release<P>(down: Seq<(i32, P)>, id: i32, pos: P)
    requires
        !holds(down, id),
    ensures
        without(down.push((id, pos)), id) == down,
{
    reveal_with_fuel(Seq::<_>::filter, 1);
    lemma_without_absent(down, id);
    assert(down.push((id, pos)).drop_last() =~= down);
}

} // verus!
