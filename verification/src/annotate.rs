//! The annotation model shared by the editor and the renderer: the tools,
//! the layer of annotations drawn over a capture, and the editor's undo and
//! redo history. The annotation shapes themselves carry floating-point
//! geometry, so they stay with the caller: the layer and the history are
//! generic over them.

use vstd::prelude::*;

verus! {

/// The annotation tool currently selected.
#[derive(Debug, Clone, Copy, PartialEq, Eq, Structural)]
pub enum AnnotationTool {
    Arrow,
    Rectangle,
    Highlight,
    Blur,
    Text,
    Pen,
    Emoji,
}

/// Collection of annotations on a single screenshot, in drawing order.
#[derive(Debug)]
pub struct AnnotationLayer<A> {
    pub annotations: Vec<A>,
}

impl<A> AnnotationLayer<A> {
    /// An empty layer.
    pub fn new() -> (r: Self)
        ensures
            r.annotations@ == Seq::<A>::empty(),
    {
        AnnotationLayer { annotations: Vec::new() }
    }

    /// Draw an annotation on top of the others.
    pub fn add(&mut self, annotation: A)
        ensures
            final(self).annotations@ == old(self).annotations@.push(annotation),
    {
        self.annotations.push(annotation);
    }

    /// Take the topmost annotation off, if any.
    pub fn undo(&mut self) -> (r: Option<A>)
        ensures
            old(self).annotations@.len() == 0 ==> r.is_none() && final(self).annotations@ == old(self).annotations@,
            old(self).annotations@.len() > 0 ==> r == Some(old(self).annotations@.last())
                && final(self).annotations@ == old(self).annotations@.drop_last(),
    {
        self.annotations.pop()
    }

    /// Remove every annotation.
    pub fn clear(&mut self)
        ensures
            final(self).annotations@ == Seq::<A>::empty(),
    {
        self.annotations.clear();
    }

    /// Whether the layer has no annotation.
    pub fn is_empty(&self) -> (r: bool)
        ensures
            r == (self.annotations@.len() == 0),
    {
        self.annotations.len() == 0
    }
}

/// Undoing an addition gives back what was added and leaves the layer as
/// it was before.
pub proof fn lemma_add_then_undo<A>(before: Seq<A>, a: A)
    ensures
        before.push(a).len() > 0,
        before.push(a).last() == a,
        before.push(a).drop_last() == before,
{
    assert(before.push(a).drop_last() =~= before);
}

/// A change to the annotations that can be undone. The offsets of a move
/// are of the caller's coordinate type.
#[derive(Debug)]
pub enum EditAction<A, D> {
    /// An annotation was appended to the layer.
    Add(A),
    /// The annotation at `index` was moved by `(dx, dy)`.
    Move { index: usize, dx: D, dy: D },
}

/// A move that the caller must apply to the annotation at `index`.
#[derive(Debug)]
pub struct MoveRequest<D> {
    pub index: usize,
    pub dx: D,
    pub dy: D,
    /// Whether the move is to be applied backwards (an undo).
    pub reverse: bool,
}

/// The editor's annotations with their undo and redo history.
#[derive(Debug)]
pub struct EditHistory<A, D> {
    pub layer: AnnotationLayer<A>,
    pub undo_stack: Vec<EditAction<A, D>>,
    pub redo_stack: Vec<EditAction<A, D>>,
}

/// What the layer looks like after applying `action` forwards: an addition
/// appends some copy of its annotation.
pub open spec fn redone_layer<A: Clone, D>(layer: Seq<A>, new_layer: Seq<A>, action: EditAction<A, D>) -> bool {
    match action {
        EditAction::Add(a) => new_layer.len() == layer.len() + 1 && new_layer.drop_last() == layer && cloned(a, new_layer.last()),
        EditAction::Move { .. } => new_layer == layer,
    }
}

/// What the layer looks like after applying `action` backwards: an
/// addition is removed again.
pub open spec fn undone_layer<A, D>(layer: Seq<A>, action: EditAction<A, D>) -> Seq<A> {
    match action {
        EditAction::Add(_) => if layer.len() > 0 { layer.drop_last() } else { layer },
        EditAction::Move { .. } => layer,
    }
}

/// The move, if any, that the caller applies for an action.
pub open spec fn move_of<A, D>(action: EditAction<A, D>, reverse: bool) -> Option<(usize, D, D, bool)> {
    match action {
        EditAction::Add(_) => None,
        EditAction::Move { index, dx, dy } => Some((index, dx, dy, reverse)),
    }
}

/// A move request as a tuple.
pub open spec fn request_view<D>(r: Option<MoveRequest<D>>) -> Option<(usize, D, D, bool)> {
    match r {
        Some(m) => Some((m.index, m.dx, m.dy, m.reverse)),
        None => None,
    }
}

impl<A: Clone, D: Copy> EditHistory<A, D> {
    /// An empty editor history.
    pub fn new() -> (r: Self)
        ensures
            r.layer.annotations@ == Seq::<A>::empty(),
            r.undo_stack@ == Seq::<EditAction<A, D>>::empty(),
            r.redo_stack@ == Seq::<EditAction<A, D>>::empty(),
    {
        EditHistory { layer: AnnotationLayer::new(), undo_stack: Vec::new(), redo_stack: Vec::new() }
    }

    /// A new annotation is drawn: it joins the layer and the undo history,
    /// and nothing is left to redo.
    pub fn record_add(&mut self, annotation: A)
        ensures
            final(self).layer.annotations@.len() == old(self).layer.annotations@.len() + 1,
            final(self).layer.annotations@.drop_last() == old(self).layer.annotations@,
            cloned(annotation, final(self).layer.annotations@.last()),
            final(self).undo_stack@ == old(self).undo_stack@.push(EditAction::Add(annotation)),
            final(self).redo_stack@ == Seq::<EditAction<A, D>>::empty(),
    {
        let copy = annotation.clone();
        self.layer.add(copy);
        assert(self.layer.annotations@.drop_last() =~= old(self).layer.annotations@);
        self.undo_stack.push(EditAction::Add(annotation));
        self.redo_stack.clear();
    }

    /// An annotation was dragged to a new place (the caller already moved
    /// it): the move joins the undo history and nothing is left to redo.
    pub fn record_move(&mut self, index: usize, dx: D, dy: D)
        ensures
            final(self).layer == old(self).layer,
            final(self).undo_stack@ == old(self).undo_stack@.push(EditAction::Move { index, dx, dy }),
            final(self).redo_stack@ == Seq::<EditAction<A, D>>::empty(),
    {
        self.undo_stack.push(EditAction::Move { index, dx, dy });
        self.redo_stack.clear();
    }

    /// Undo the latest change. An addition is taken off the layer; for a
    /// move, the caller gets the move to apply backwards.
    pub fn undo(&mut self) -> (r: Option<MoveRequest<D>>)
        ensures
            old(self).undo_stack@.len() == 0 ==> r.is_none()
                && final(self).layer.annotations@ == old(self).layer.annotations@
                && final(self).undo_stack@ == old(self).undo_stack@
                && final(self).redo_stack@ == old(self).redo_stack@,
            old(self).undo_stack@.len() > 0 ==> {
                let action = old(self).undo_stack@.last();
                &&& final(self).undo_stack@ == old(self).undo_stack@.drop_last()
                &&& final(self).redo_stack@ == old(self).redo_stack@.push(action)
                &&& final(self).layer.annotations@ == undone_layer(old(self).layer.annotations@, action)
                &&& request_view(r) == move_of(action, true)
            },
    {
        match self.undo_stack.pop() {
            None => None,
            Some(action) => {
                let r = match &action {
                    EditAction::Add(_) => {
                        let _ = self.layer.annotations.pop();
                        None
                    },
                    EditAction::Move { index, dx, dy } => Some(MoveRequest { index: *index, dx: *dx, dy: *dy, reverse: true }),
                };
                self.redo_stack.push(action);
                r
            },
        }
    }

    /// Redo the latest undone change. An addition puts a copy of its
    /// annotation back on the layer; for a move, the caller gets the move
    /// to apply again.
    pub fn redo(&mut self) -> (r: Option<MoveRequest<D>>)
        ensures
            old(self).redo_stack@.len() == 0 ==> r.is_none()
                && final(self).layer.annotations@ == old(self).layer.annotations@
                && final(self).undo_stack@ == old(self).undo_stack@
                && final(self).redo_stack@ == old(self).redo_stack@,
            old(self).redo_stack@.len() > 0 ==> {
                let action = old(self).redo_stack@.last();
                &&& final(self).redo_stack@ == old(self).redo_stack@.drop_last()
                &&& final(self).undo_stack@ == old(self).undo_stack@.push(action)
                &&& redone_layer(old(self).layer.annotations@, final(self).layer.annotations@, action)
                &&& request_view(r) == move_of(action, false)
            },
    {
        match self.redo_stack.pop() {
            None => None,
            Some(action) => {
                let r = match &action {
                    EditAction::Add(a) => {
                        let copy = a.clone();
                        self.layer.add(copy);
                        assert(self.layer.annotations@.drop_last() =~= old(self).layer.annotations@);
                        None
                    },
                    EditAction::Move { index, dx, dy } => Some(MoveRequest { index: *index, dx: *dx, dy: *dy, reverse: false }),
                };
                self.undo_stack.push(action);
                r
            },
        }
    }
}

/// Undo followed by redo brings back the history and, but for the copy
/// made of a re-added annotation, the layer.
pub proof fn lemma_undo_then_redo<A: Clone, D>(layer: Seq<A>, undo: Seq<EditAction<A, D>>, redo: Seq<EditAction<A, D>>, mid_layer: Seq<A>, new_layer: Seq<A>)
    requires
        undo.len() > 0,
        mid_layer == undone_layer(layer, undo.last()),
        redone_layer(mid_layer, new_layer, redo.push(undo.last()).last()),
        undo.last() is Add ==> layer.len() > 0,
    ensures
        undo.drop_last().push(redo.push(undo.last()).last()) == undo,
        redo.push(undo.last()).drop_last() == redo,
        undo.last() is Move ==> new_layer == layer,
        undo.last() is Add ==> new_layer.drop_last() == layer.drop_last() && new_layer.len() == layer.len(),
{
    assert(undo.drop_last().push(undo.last()) =~= undo);
    assert(redo.push(undo.last()).drop_last() =~= redo);
}

} // verus!
