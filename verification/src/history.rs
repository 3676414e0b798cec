use vstd::prelude::*;

verus! {

/// An annotation as the history sees it: an identifier by which the application
/// finds the drawn shape, and the number of the annotation if it is a numbered
/// marker.
#[derive(Clone, Copy, Debug, PartialEq, Eq, Structural)]
pub struct AnnotationEntry {
    pub id: u64,
    pub marker: Option<u16>,
}

/// The abstract state of a history: the annotations shown, the stack of earlier
/// annotation lists (the last is undone first), the stack of undone lists (the
/// last is redone first), and the number that the next marker gets.
pub struct HistoryView {
    pub current: Seq<AnnotationEntry>,
    pub undo: Seq<Seq<AnnotationEntry>>,
    pub redo: Seq<Seq<AnnotationEntry>>,
    pub marker_counter: u16,
}

/// The annotations of an editing session with undo and redo.
pub struct History {
    annotations: Vec<AnnotationEntry>,
    undo_stack: Vec<Vec<AnnotationEntry>>,
    redo_stack: Vec<Vec<AnnotationEntry>>,
    marker_counter: u16,
}

/// The views of a stack of annotation lists.
pub open spec fn stack_view(s: Seq<Vec<AnnotationEntry>>) -> Seq<Seq<AnnotationEntry>> {
    s.map_values(|v: Vec<AnnotationEntry>| v@)
}

/// The largest marker number among the annotations, if any is a marker.
pub open spec fn max_marker(s: Seq<AnnotationEntry>) -> Option<u16>
    decreases s.len(),
{
    if s.len() == 0 {
        None
    } else {
        let rest = max_marker(s.drop_last());
        match s.last().marker {
            Some(n) => match rest {
                Some(m) => if n > m { Some(n) } else { Some(m) },
                None => Some(n),
            },
            None => rest,
        }
    }
}

/// The number after the largest marker number, or 1 where there is no marker.
pub open spec fn next_marker(s: Seq<AnnotationEntry>) -> int {
    match max_marker(s) {
        Some(m) => m + 1,
        None => 1,
    }
}

/// Whether the annotation is no marker or a marker numbered below `u16::MAX`.
pub open spec fn marker_bounded(e: AnnotationEntry) -> bool {
    match e.marker {
        Some(n) => n < u16::MAX,
        None => true,
    }
}

/// Whether the annotation is no marker or a marker numbered at most `m`.
pub open spec fn marker_at_most(e: AnnotationEntry, m: Option<u16>) -> bool {
    match e.marker {
        Some(n) => match m {
            Some(k) => n <= k,
            None => false,
        },
        None => true,
    }
}

/// Whether every marker number in the list is below `u16::MAX`.
pub open spec fn markers_bounded(s: Seq<AnnotationEntry>) -> bool {
    forall|i: int| 0 <= i < s.len() ==> marker_bounded(#[trigger] s[i])
}

/// Whether every list of a history has its markers below `u16::MAX`.
pub open spec fn view_bounded(h: HistoryView) -> bool {
    &&& markers_bounded(h.current)
    &&& forall|i: int| 0 <= i < h.undo.len() ==> markers_bounded(#[trigger] h.undo[i])
    &&& forall|i: int| 0 <= i < h.redo.len() ==> markers_bounded(#[trigger] h.redo[i])
}

/// Adding an annotation: the list shown is saved for undo, the redo stack is
/// emptied, and the annotation is appended.
pub open spec fn spec_commit(h: HistoryView, e: AnnotationEntry) -> HistoryView {
    HistoryView {
        current: h.current.push(e),
        undo: h.undo.push(h.current),
        redo: Seq::empty(),
        marker_counter: h.marker_counter,
    }
}

/// Undoing: the last saved list comes back, the list shown is saved for redo, and
/// the marker counter follows the largest marker shown. Nothing happens where
/// there is nothing to undo.
pub open spec fn spec_undo(h: HistoryView) -> HistoryView {
    if h.undo.len() == 0 {
        h
    } else {
        HistoryView {
            current: h.undo.last(),
            undo: h.undo.drop_last(),
            redo: h.redo.push(h.current),
            marker_counter: next_marker(h.undo.last()) as u16,
        }
    }
}

/// Redoing: the last undone list comes back, the list shown is saved for undo, and
/// the marker counter follows the largest marker shown. Nothing happens where
/// there is nothing to redo.
pub open spec fn spec_redo(h: HistoryView) -> HistoryView {
    if h.redo.len() == 0 {
        h
    } else {
        HistoryView {
            current: h.redo.last(),
            undo: h.undo.push(h.current),
            redo: h.redo.drop_last(),
            marker_counter: next_marker(h.redo.last()) as u16,
        }
    }
}

/// Giving the annotations shown new identifiers, in place and without a step to
/// undo, as when a crop moves every shape shown; markers keep their numbers.
pub open spec fn spec_relabel(h: HistoryView, ids: Seq<u64>) -> HistoryView {
    HistoryView {
        current: Seq::new(
            h.current.len(),
            |i: int| AnnotationEntry { id: ids[i], marker: h.current[i].marker },
        ),
        ..h
    }
}

/// Deleting the annotation at `index`, as a step that can be undone.
pub open spec fn spec_remove(h: HistoryView, index: int) -> HistoryView {
    HistoryView {
        current: h.current.remove(index),
        undo: h.undo.push(h.current),
        redo: Seq::empty(),
        marker_counter: h.marker_counter,
    }
}

/// Replacing the shape of the annotation at `index` by the one `id` names, as a
/// step that can be undone (a moved annotation keeps its marker number).
pub open spec fn spec_replace(h: HistoryView, index: int, id: u64) -> HistoryView {
    HistoryView {
        current: h.current.update(index, AnnotationEntry { id, marker: h.current[index].marker }),
        undo: h.undo.push(h.current),
        redo: Seq::empty(),
        marker_counter: h.marker_counter,
    }
}

impl View for History {
    type V = HistoryView;

    closed spec fn view(&self) -> HistoryView {
        HistoryView {
            current: self.annotations@,
            undo: stack_view(self.undo_stack@),
            redo: stack_view(self.redo_stack@),
            marker_counter: self.marker_counter,
        }
    }
}

proof fn lemma_max_marker_bound(s: Seq<AnnotationEntry>)
    requires
        markers_bounded(s),
    ensures
        max_marker(s) matches Some(m) ==> m < u16::MAX,
        forall|i: int| 0 <= i < s.len() ==> marker_at_most(#[trigger] s[i], max_marker(s)),
    decreases s.len(),
{
    if s.len() > 0 {
        let t = s.drop_last();
        assert forall|i: int| 0 <= i < t.len() implies marker_bounded(#[trigger] t[i]) by {
            assert(t[i] == s[i]);
        }
        lemma_max_marker_bound(t);
        assert forall|i: int| 0 <= i < s.len() implies marker_at_most(#[trigger] s[i], max_marker(s)) by {
            if i < s.len() - 1 {
                assert(s[i] == t[i]);
            }
        }
    }
}

impl History {
    /// Whether every list of the history has its markers below `u16::MAX`.
    pub open spec fn wf(&self) -> bool {
        view_bounded(self@)
    }

    /// An empty history; the first marker gets number 1.
    pub fn new() -> (h: Self)
        ensures
            h@.current.len() == 0,
            h@.undo.len() == 0,
            h@.redo.len() == 0,
            h@.marker_counter == 1,
            h.wf(),
    {
        History {
            annotations: Vec::new(),
            undo_stack: Vec::new(),
            redo_stack: Vec::new(),
            marker_counter: 1,
        }
    }

    /// The annotations shown.
    pub fn annotations(&self) -> (v: &Vec<AnnotationEntry>)
        ensures
            v@ == self@.current,
    {
        &self.annotations
    }

    /// The number that the next marker gets.
    pub fn marker_counter(&self) -> (n: u16)
        ensures
            n == self@.marker_counter,
    {
        self.marker_counter
    }

    /// Whether there is something to undo.
    pub fn can_undo(&self) -> (b: bool)
        ensures
            b == (self@.undo.len() > 0),
    {
        self.undo_stack.len() > 0
    }

    /// Whether there is something to redo.
    pub fn can_redo(&self) -> (b: bool)
        ensures
            b == (self@.redo.len() > 0),
    {
        self.redo_stack.len() > 0
    }

    fn snapshot(&self) -> (v: Vec<AnnotationEntry>)
        ensures
            v@ == self.annotations@,
    {
        let mut v: Vec<AnnotationEntry> = Vec::new();
        let n = self.annotations.len();
        let mut i: usize = 0;
        while i < n
            invariant
                n == self.annotations@.len(),
                i <= n,
                v@ == self.annotations@.take(i as int),
            decreases n - i,
        {
            v.push(self.annotations[i]);
            proof {
                assert(v@ =~= self.annotations@.take(i + 1));
            }
            i = i + 1;
        }
        assert(self.annotations@.take(n as int) =~= self.annotations@);
        v
    }

    /// Adds an annotation.
    pub fn commit(&mut self, entry: AnnotationEntry)
        requires
            old(self).wf(),
            entry.marker matches Some(n) ==> n < u16::MAX,
        ensures
            final(self)@ == spec_commit(old(self)@, entry),
            final(self).wf(),
    {
        let snap = self.snapshot();
        self.undo_stack.push(snap);
        self.redo_stack = Vec::new();
        self.annotations.push(entry);
        proof {
            assert(stack_view(self.undo_stack@) =~= stack_view(old(self).undo_stack@).push(
                old(self).annotations@,
            ));
            assert(stack_view(self.redo_stack@) =~= Seq::<Seq<AnnotationEntry>>::empty());
            let c = self.annotations@;
            assert forall|i: int| 0 <= i < c.len() implies marker_bounded(#[trigger] c[i]) by {
                if i < c.len() - 1 {
                    assert(c[i] == old(self).annotations@[i]);
                }
            }
            let u = self@.undo;
            assert forall|i: int| 0 <= i < u.len() implies markers_bounded(#[trigger] u[i]) by {
                if i < u.len() - 1 {
                    assert(u[i] == old(self)@.undo[i]);
                }
            }
        }
    }

    /// Adds a numbered marker: it takes the marker counter's number, and the
    /// counter moves to the next number.
    pub fn add_marker(&mut self, id: u64)
        requires
            old(self).wf(),
            old(self)@.marker_counter < u16::MAX,
        ensures
            final(self)@ == (HistoryView {
                marker_counter: (old(self)@.marker_counter + 1) as u16,
                ..spec_commit(old(self)@, AnnotationEntry { id, marker: Some(old(self)@.marker_counter) })
            }),
            final(self).wf(),
    {
        let number = self.marker_counter;
        self.marker_counter = number + 1;
        assert(self@.current == old(self)@.current && self@.undo == old(self)@.undo
            && self@.redo == old(self)@.redo);
        self.commit(AnnotationEntry { id, marker: Some(number) });
    }

    /// Sets the marker counter back to 1.
    pub fn reset_marker_counter(&mut self)
        ensures
            final(self)@ == (HistoryView { marker_counter: 1u16, ..old(self)@ }),
            final(self).wf() == old(self).wf(),
    {
        self.marker_counter = 1;
        assert(self@.current == old(self)@.current && self@.undo == old(self)@.undo
            && self@.redo == old(self)@.redo);
    }

    /// Sets the marker counter to the number after the largest marker shown, or
    /// to 1 where no marker is shown.
    pub fn sync_marker_counter(&mut self)
        requires
            old(self).wf(),
        ensures
            final(self)@ == (HistoryView { marker_counter: next_marker(old(self)@.current) as u16, ..old(self)@ }),
            final(self).wf(),
    {
        proof {
            lemma_max_marker_bound(self.annotations@);
        }
        let n = self.annotations.len();
        let mut best: Option<u16> = None;
        let mut i: usize = 0;
        while i < n
            invariant
                n == self.annotations@.len(),
                i <= n,
                markers_bounded(self.annotations@),
                best == max_marker(self.annotations@.take(i as int)),
            decreases n - i,
        {
            proof {
                assert(self.annotations@.take(i + 1).drop_last() =~= self.annotations@.take(i as int));
            }
            match self.annotations[i].marker {
                Some(m) => {
                    best = match best {
                        Some(b) => if m > b { Some(m) } else { Some(b) },
                        None => Some(m),
                    };
                },
                None => {},
            }
            i = i + 1;
        }
        proof {
            assert(self.annotations@.take(n as int) =~= self.annotations@);
        }
        self.marker_counter = match best {
            Some(m) => m + 1,
            None => 1,
        };
    }

    /// Gives the annotations shown new identifiers, one for each in order.
    pub fn relabel(&mut self, ids: &Vec<u64>)
        requires
            old(self).wf(),
            ids@.len() == old(self)@.current.len(),
        ensures
            final(self)@ == spec_relabel(old(self)@, ids@),
            final(self).wf(),
    {
        let n = self.annotations.len();
        let mut fresh: Vec<AnnotationEntry> = Vec::new();
        let mut i: usize = 0;
        while i < n
            invariant
                n == self.annotations@.len(),
                ids@.len() == n,
                i <= n,
                fresh@.len() == i,
                forall|j: int|
                    0 <= j < i ==> #[trigger] fresh@[j] == (AnnotationEntry {
                        id: ids@[j],
                        marker: self.annotations@[j].marker,
                    }),
            decreases n - i,
        {
            fresh.push(AnnotationEntry { id: ids[i], marker: self.annotations[i].marker });
            i = i + 1;
        }
        proof {
            let want = spec_relabel(old(self)@, ids@).current;
            assert(fresh@ =~= want);
            assert forall|j: int| 0 <= j < fresh@.len() implies marker_bounded(#[trigger] fresh@[j]) by {
                assert(marker_bounded(old(self)@.current[j]));
            }
        }
        self.annotations = fresh;
        assert(self@.undo == old(self)@.undo && self@.redo == old(self)@.redo);
    }

    /// Deletes the annotation at `index`.
    pub fn remove(&mut self, index: usize)
        requires
            old(self).wf(),
            index < old(self)@.current.len(),
        ensures
            final(self)@ == spec_remove(old(self)@, index as int),
            final(self).wf(),
    {
        let snap = self.snapshot();
        self.undo_stack.push(snap);
        self.redo_stack = Vec::new();
        self.annotations.remove(index);
        proof {
            assert(stack_view(self.undo_stack@) =~= stack_view(old(self).undo_stack@).push(
                old(self).annotations@,
            ));
            assert(stack_view(self.redo_stack@) =~= Seq::<Seq<AnnotationEntry>>::empty());
            let c = self.annotations@;
            assert forall|i: int| 0 <= i < c.len() implies marker_bounded(#[trigger] c[i]) by {
                if i < index {
                    assert(c[i] == old(self).annotations@[i]);
                } else {
                    assert(c[i] == old(self).annotations@[i + 1]);
                }
            }
            let u = self@.undo;
            assert forall|i: int| 0 <= i < u.len() implies markers_bounded(#[trigger] u[i]) by {
                if i < u.len() - 1 {
                    assert(u[i] == old(self)@.undo[i]);
                }
            }
        }
    }

    /// Replaces the shape of the annotation at `index` by the one `id` names.
    pub fn replace(&mut self, index: usize, id: u64)
        requires
            old(self).wf(),
            index < old(self)@.current.len(),
        ensures
            final(self)@ == spec_replace(old(self)@, index as int, id),
            final(self).wf(),
    {
        let snap = self.snapshot();
        self.undo_stack.push(snap);
        self.redo_stack = Vec::new();
        let marker = self.annotations[index].marker;
        self.annotations.set(index, AnnotationEntry { id, marker });
        proof {
            assert(stack_view(self.undo_stack@) =~= stack_view(old(self).undo_stack@).push(
                old(self).annotations@,
            ));
            assert(stack_view(self.redo_stack@) =~= Seq::<Seq<AnnotationEntry>>::empty());
            let c = self.annotations@;
            assert forall|i: int| 0 <= i < c.len() implies marker_bounded(#[trigger] c[i]) by {
                assert(marker_bounded(old(self).annotations@[i]));
            }
            let u = self@.undo;
            assert forall|i: int| 0 <= i < u.len() implies markers_bounded(#[trigger] u[i]) by {
                if i < u.len() - 1 {
                    assert(u[i] == old(self)@.undo[i]);
                }
            }
        }
    }

    /// Undoes the last change, if there is one.
    pub fn undo(&mut self)
        requires
            old(self).wf(),
        ensures
            final(self)@ == spec_undo(old(self)@),
            final(self).wf(),
    {
        if self.undo_stack.len() > 0 {
            let mut prev = self.undo_stack.pop().unwrap();
            std::mem::swap(&mut self.annotations, &mut prev);
            self.redo_stack.push(prev);
            proof {
                assert(stack_view(self.undo_stack@) =~= stack_view(old(self).undo_stack@).drop_last());
                assert(stack_view(self.redo_stack@) =~= stack_view(old(self).redo_stack@).push(
                    old(self).annotations@,
                ));
                assert(self.annotations@ == old(self)@.undo.last());
                let u = self@.undo;
                assert forall|i: int| 0 <= i < u.len() implies markers_bounded(#[trigger] u[i]) by {
                    assert(u[i] == old(self)@.undo[i]);
                }
                let r = self@.redo;
                assert forall|i: int| 0 <= i < r.len() implies markers_bounded(#[trigger] r[i]) by {
                    if i < r.len() - 1 {
                        assert(r[i] == old(self)@.redo[i]);
                    }
                }
                assert(markers_bounded(old(self)@.undo[old(self)@.undo.len() - 1]));
            }
            self.sync_marker_counter();
        }
    }

    /// Redoes the last undone change, if there is one.
    pub fn redo(&mut self)
        requires
            old(self).wf(),
        ensures
            final(self)@ == spec_redo(old(self)@),
            final(self).wf(),
    {
        if self.redo_stack.len() > 0 {
            let mut next = self.redo_stack.pop().unwrap();
            std::mem::swap(&mut self.annotations, &mut next);
            self.undo_stack.push(next);
            proof {
                assert(stack_view(self.redo_stack@) =~= stack_view(old(self).redo_stack@).drop_last());
                assert(stack_view(self.undo_stack@) =~= stack_view(old(self).undo_stack@).push(
                    old(self).annotations@,
                ));
                assert(self.annotations@ == old(self)@.redo.last());
                let r = self@.redo;
                assert forall|i: int| 0 <= i < r.len() implies markers_bounded(#[trigger] r[i]) by {
                    assert(r[i] == old(self)@.redo[i]);
                }
                let u = self@.undo;
                assert forall|i: int| 0 <= i < u.len() implies markers_bounded(#[trigger] u[i]) by {
                    if i < u.len() - 1 {
                        assert(u[i] == old(self)@.undo[i]);
                    }
                }
                assert(markers_bounded(old(self)@.redo[old(self)@.redo.len() - 1]));
            }
            self.sync_marker_counter();
        }
    }
}

/// Whether every marker shown is numbered below the marker counter, so that the
/// next marker gets a number not shown yet.
pub open spec fn markers_below_counter(h: HistoryView) -> bool {
    forall|i: int|
        0 <= i < h.current.len() ==> match (#[trigger] h.current[i]).marker {
            Some(n) => n < h.marker_counter,
            None => true,
        }
}

/// Undoing right after adding an annotation brings back the annotations shown and
/// the undo stack from before, and the added annotation can be redone.
pub proof fn law_undo_reverts_commit(h: HistoryView, e: AnnotationEntry)
    ensures
        spec_undo(spec_commit(h, e)).current == h.current,
        spec_undo(spec_commit(h, e)).undo == h.undo,
        spec_undo(spec_commit(h, e)).redo == seq![h.current.push(e)],
{
    let c = spec_commit(h, e);
    assert(c.undo.drop_last() =~= h.undo);
    assert(Seq::<Seq<AnnotationEntry>>::empty().push(c.current) =~= seq![h.current.push(e)]);
}

/// Redoing right after undoing brings back the annotations shown, the undo stack
/// and the redo stack.
pub proof fn law_redo_reverts_undo(h: HistoryView)
    requires
        h.undo.len() > 0,
    ensures
        spec_redo(spec_undo(h)).current == h.current,
        spec_redo(spec_undo(h)).undo == h.undo,
        spec_redo(spec_undo(h)).redo == h.redo,
{
    let u = spec_undo(h);
    assert(u.redo.drop_last() =~= h.redo);
    assert(u.undo.push(u.current) =~= h.undo);
}

/// Undoing right after redoing brings back the annotations shown, the undo stack
/// and the redo stack.
pub proof fn law_undo_reverts_redo(h: HistoryView)
    requires
        h.redo.len() > 0,
    ensures
        spec_undo(spec_redo(h)).current == h.current,
        spec_undo(spec_redo(h)).undo == h.undo,
        spec_undo(spec_redo(h)).redo == h.redo,
{
    let r = spec_redo(h);
    assert(r.undo.drop_last() =~= h.undo);
    assert(r.redo.push(r.current) =~= h.redo);
}

/// A new change (an added, deleted or replaced annotation) leaves nothing to
/// redo, so redoing right after it changes nothing.
pub proof fn law_change_clears_redo(h: HistoryView, e: AnnotationEntry, index: int, id: u64)
    ensures
        spec_commit(h, e).redo.len() == 0,
        spec_redo(spec_commit(h, e)) == spec_commit(h, e),
        spec_remove(h, index).redo.len() == 0,
        spec_redo(spec_remove(h, index)) == spec_remove(h, index),
        spec_replace(h, index, id).redo.len() == 0,
        spec_redo(spec_replace(h, index, id)) == spec_replace(h, index, id),
{
}

/// Undo with nothing to undo, and redo with nothing to redo, change nothing.
pub proof fn law_empty_stacks_change_nothing(h: HistoryView)
    ensures
        h.undo.len() == 0 ==> spec_undo(h) == h,
        h.redo.len() == 0 ==> spec_redo(h) == h,
{
}

/// Undo and redo move lists between the two stacks and the list shown: the
/// number of lists held stays the same.
pub proof fn law_undo_redo_keep_lists(h: HistoryView)
    ensures
        spec_undo(h).undo.len() + spec_undo(h).redo.len() == h.undo.len() + h.redo.len(),
        spec_redo(h).undo.len() + spec_redo(h).redo.len() == h.undo.len() + h.redo.len(),
{
}

/// After an undo or a redo that changed the list shown, every marker shown is
/// numbered below the marker counter.
pub proof fn law_markers_below_counter_after_undo_redo(h: HistoryView)
    requires
        view_bounded(h),
    ensures
        h.undo.len() > 0 ==> markers_below_counter(spec_undo(h)),
        h.redo.len() > 0 ==> markers_below_counter(spec_redo(h)),
{
    if h.undo.len() > 0 {
        let s = h.undo.last();
        assert(markers_bounded(h.undo[h.undo.len() - 1]));
        lemma_max_marker_bound(s);
        let u = spec_undo(h);
        assert forall|i: int| 0 <= i < u.current.len() implies match (#[trigger] u.current[i]).marker {
            Some(n) => n < u.marker_counter,
            None => true,
        } by {
            assert(marker_at_most(s[i], max_marker(s)));
        }
    }
    if h.redo.len() > 0 {
        let s = h.redo.last();
        assert(markers_bounded(h.redo[h.redo.len() - 1]));
        lemma_max_marker_bound(s);
        let r = spec_redo(h);
        assert forall|i: int| 0 <= i < r.current.len() implies match (#[trigger] r.current[i]).marker {
            Some(n) => n < r.marker_counter,
            None => true,
        } by {
            assert(marker_at_most(s[i], max_marker(s)));
        }
    }
}

/// Giving the annotations new identifiers keeps their number, their markers and
/// both stacks.
pub proof fn law_relabel_keeps_markers(h: HistoryView, ids: Seq<u64>)
    requires
        ids.len() == h.current.len(),
    ensures
        spec_relabel(h, ids).current.len() == h.current.len(),
        forall|i: int|
            0 <= i < h.current.len() ==> (#[trigger] spec_relabel(h, ids).current[i]).marker
                == h.current[i].marker,
        spec_relabel(h, ids).undo == h.undo,
        spec_relabel(h, ids).redo == h.redo,
        spec_relabel(h, ids).marker_counter == h.marker_counter,
{
}

/// Only placing a marker, the marker key, undo and redo move the marker counter:
/// adding an annotation, deleting one, moving one and giving the annotations new
/// identifiers leave it where it was, so the next marker still gets the next
/// number.
pub proof fn law_changes_keep_marker_counter(
    h: HistoryView,
    e: AnnotationEntry,
    index: int,
    id: u64,
    ids: Seq<u64>,
)
    ensures
        spec_commit(h, e).marker_counter == h.marker_counter,
        spec_remove(h, index).marker_counter == h.marker_counter,
        spec_replace(h, index, id).marker_counter == h.marker_counter,
        spec_relabel(h, ids).marker_counter == h.marker_counter,
{
}

/// Adding an annotation appends it to the annotations shown, keeps the others in
/// place, saves the list shown as the last step to undo and leaves nothing to
/// redo.
pub proof fn law_commit_appends(h: HistoryView, e: AnnotationEntry)
    ensures
        spec_commit(h, e).current.len() == h.current.len() + 1,
        spec_commit(h, e).current[h.current.len() as int] == e,
        forall|i: int|
            0 <= i < h.current.len() ==> #[trigger] spec_commit(h, e).current[i] == h.current[i],
        spec_commit(h, e).undo.len() == h.undo.len() + 1,
        spec_commit(h, e).undo.last() == h.current,
        forall|i: int| 0 <= i < h.undo.len() ==> #[trigger] spec_commit(h, e).undo[i] == h.undo[i],
        spec_commit(h, e).redo.len() == 0,
{
}

/// Deleting the annotation at `index` takes out exactly that annotation: those
/// before it stay, those after it move down by one; the list before is saved to
/// undo and nothing is left to redo.
pub proof fn law_remove_takes_out_one(h: HistoryView, index: int)
    requires
        0 <= index < h.current.len(),
    ensures
        spec_remove(h, index).current.len() == h.current.len() - 1,
        forall|i: int|
            0 <= i < index ==> #[trigger] spec_remove(h, index).current[i] == h.current[i],
        forall|i: int|
            index <= i < h.current.len() - 1 ==> #[trigger] spec_remove(h, index).current[i]
                == h.current[i + 1],
        spec_remove(h, index).undo.last() == h.current,
        spec_remove(h, index).undo.len() == h.undo.len() + 1,
        spec_remove(h, index).redo.len() == 0,
{
}

/// Markers are numbered in a row: a marker placed takes the counter's number and
/// the counter moves on by one; with other annotations added or deleted in
/// between, the next marker takes the number after it.
pub proof fn law_markers_number_in_a_row(
    h: HistoryView,
    m1: u64,
    e: AnnotationEntry,
    index: int,
    m2: u64,
)
    requires
        h.marker_counter + 2 <= u16::MAX,
    ensures
        ({
            let h1 = HistoryView {
                marker_counter: (h.marker_counter + 1) as u16,
                ..spec_commit(h, AnnotationEntry { id: m1, marker: Some(h.marker_counter) })
            };
            let h2 = spec_remove(spec_commit(h1, e), index);
            let h3 = HistoryView {
                marker_counter: (h2.marker_counter + 1) as u16,
                ..spec_commit(h2, AnnotationEntry { id: m2, marker: Some(h2.marker_counter) })
            };
            &&& h1.current.last().marker == Some(h.marker_counter)
            &&& h3.current.last().marker == Some((h.marker_counter + 1) as u16)
            &&& h3.marker_counter == h.marker_counter + 2
        }),
{
}

} // verus!
