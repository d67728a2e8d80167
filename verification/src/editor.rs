//! Boundary model of the line-editing widget an entry's prompt wraps.  The
//! real widget edits text, measures itself against the font, and renders its
//! contents; all the core depends on is the size the widget reports during
//! layout and the fact that keys and draw focus handed to it actually reach
//! it.  The model therefore carries a reported natural size (initially one
//! text cell of the shared font metrics, adjustable by the host as the edited
//! line grows), caches its last layout, and records every key delivered and
//! every focus flag observed.

use crate::boundary::{DirtySignal, FontMetrics, KeyEvent};
use crate::geom::Layout;
use vstd::prelude::*;

verus! {

pub struct LineEditor {
    /// Redraw signal handed over at construction, kept for the widget's use.
    pub dirty: DirtySignal,
    /// The size the widget currently reports for itself.
    pub natural: Layout,
    /// The size cached by the most recent relayout.
    pub last: Layout,
    /// Keys delivered to the widget, oldest first.
    pub keys: Vec<KeyEvent>,
    /// Focus flags observed by the widget, one per draw, oldest first.
    pub draws: Vec<bool>,
}

impl LineEditor {
    pub open spec fn wf(self) -> bool {
        &&& self.natural.bounded()
        &&& self.last.bounded()
    }

    /// A freshly constructed editor for the given signal and font.
    pub open spec fn is_fresh(self, dirty: DirtySignal, font: FontMetrics) -> bool {
        &&& self.dirty == dirty
        &&& self.natural == (Layout { width: font.cell_width, height: font.cell_height })
        &&& self.last == (Layout { width: 0, height: 0 })
        &&& self.keys@ == Seq::<KeyEvent>::empty()
        &&& self.draws@ == Seq::<bool>::empty()
    }

    /// One key delivered: recorded, nothing else moves.
    pub open spec fn key_step(pre: LineEditor, post: LineEditor, ev: KeyEvent) -> bool {
        &&& post.keys@ == pre.keys@.push(ev)
        &&& post.dirty == pre.dirty
        &&& post.natural == pre.natural
        &&& post.last == pre.last
        &&& post.draws == pre.draws
    }

    /// One draw: the focus flag is observed, nothing else moves.
    pub open spec fn draw_step(pre: LineEditor, post: LineEditor, focused: bool) -> bool {
        &&& post.draws@ == pre.draws@.push(focused)
        &&& post.dirty == pre.dirty
        &&& post.natural == pre.natural
        &&& post.last == pre.last
        &&& post.keys == pre.keys
    }

    /// One relayout: the natural size becomes the cached layout.
    pub open spec fn layout_step(pre: LineEditor, post: LineEditor) -> bool {
        &&& post.last == pre.natural
        &&& post.dirty == pre.dirty
        &&& post.natural == pre.natural
        &&& post.keys == pre.keys
        &&& post.draws == pre.draws
    }

    /// The widget starts out sized to one text cell of the shared font.
    pub fn new(dirty: DirtySignal, font: FontMetrics) -> (ed: LineEditor)
        requires
            font.valid(),
        ensures
            ed.wf(),
            ed.is_fresh(dirty, font),
    {
        LineEditor {
            dirty,
            natural: Layout { width: font.cell_width, height: font.cell_height },
            last: Layout::new(),
            keys: Vec::new(),
            draws: Vec::new(),
        }
    }

    /// Host-side hook: the widget's content changed and it now reports a
    /// different natural size.
    pub fn set_natural(&mut self, size: Layout)
        requires
            old(self).wf(),
            size.bounded(),
        ensures
            final(self).wf(),
            final(self).natural == size,
            final(self).dirty == old(self).dirty,
            final(self).last == old(self).last,
            final(self).keys == old(self).keys,
            final(self).draws == old(self).draws,
    {
        self.natural = size;
    }

    pub fn key(&mut self, ev: KeyEvent)
        ensures
            LineEditor::key_step(*old(self), *final(self), ev),
    {
        self.keys.push(ev);
    }

    pub fn draw(&mut self, focused: bool)
        ensures
            LineEditor::draw_step(*old(self), *final(self), focused),
    {
        self.draws.push(focused);
    }

    /// The widget tolerates any offered space, including transiently
    /// negative dimensions, and reports its natural size.
    pub fn relayout(&mut self, _avail: Layout) -> (r: Layout)
        requires
            old(self).wf(),
        ensures
            final(self).wf(),
            LineEditor::layout_step(*old(self), *final(self)),
            r == old(self).natural,
    {
        self.last = self.natural;
        self.last
    }

    pub fn get_layout(&self) -> (r: Layout)
        ensures
            r == self.last,
    {
        self.last
    }
}

} // verus!
