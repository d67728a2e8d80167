//! Boundary model of the embedded terminal session created when a prompt's
//! command line is submitted.  The real session runs the command and renders
//! a live terminal screen; the core depends only on the initial command it
//! was constructed with, the size it reports during layout, and the delivery
//! of keys and draw focus.  Session completion is signalled to the host,
//! which reacts by growing the log (`crate::log::Log::new_entry`).

use crate::boundary::{DirtySignal, FontMetrics, KeyEvent};
use crate::geom::Layout;
use vstd::prelude::*;

verus! {

pub struct TermSession {
    /// Redraw signal handed over at construction, kept for the session's use.
    pub dirty: DirtySignal,
    /// Font metrics handed over at construction, kept for the session's use.
    pub font: FontMetrics,
    /// The command line the session was started with.
    pub command: String,
    /// The size the session currently reports for itself.
    pub natural: Layout,
    /// The size cached by the most recent relayout.
    pub last: Layout,
    /// Keys delivered to the session, oldest first.
    pub keys: Vec<KeyEvent>,
    /// Focus flags observed by the session, one per draw, oldest first.
    pub draws: Vec<bool>,
}

impl TermSession {
    pub open spec fn wf(self) -> bool {
        &&& self.natural.bounded()
        &&& self.last.bounded()
    }

    /// A freshly constructed session for the given signal, font and command.
    pub open spec fn is_fresh(
        self,
        dirty: DirtySignal,
        font: FontMetrics,
        command: Seq<char>,
    ) -> bool {
        &&& self.dirty == dirty
        &&& self.font == font
        &&& self.command@ == command
        &&& self.natural == (Layout { width: font.cell_width, height: font.cell_height })
        &&& self.last == (Layout { width: 0, height: 0 })
        &&& self.keys@ == Seq::<KeyEvent>::empty()
        &&& self.draws@ == Seq::<bool>::empty()
    }

    /// One key delivered: recorded, nothing else moves.
    pub open spec fn key_step(pre: TermSession, post: TermSession, ev: KeyEvent) -> bool {
        &&& post.keys@ == pre.keys@.push(ev)
        &&& post.dirty == pre.dirty
        &&& post.font == pre.font
        &&& post.command == pre.command
        &&& post.natural == pre.natural
        &&& post.last == pre.last
        &&& post.draws == pre.draws
    }

    /// One draw: the focus flag is observed, nothing else moves.
    pub open spec fn draw_step(pre: TermSession, post: TermSession, focused: bool) -> bool {
        &&& post.draws@ == pre.draws@.push(focused)
        &&& post.dirty == pre.dirty
        &&& post.font == pre.font
        &&& post.command == pre.command
        &&& post.natural == pre.natural
        &&& post.last == pre.last
        &&& post.keys == pre.keys
    }

    /// One relayout: the natural size becomes the cached layout.
    pub open spec fn layout_step(pre: TermSession, post: TermSession) -> bool {
        &&& post.last == pre.natural
        &&& post.dirty == pre.dirty
        &&& post.font == pre.font
        &&& post.command == pre.command
        &&& post.natural == pre.natural
        &&& post.keys == pre.keys
        &&& post.draws == pre.draws
    }

    /// The session starts out sized to one text cell of the shared font.
    pub fn new(dirty: DirtySignal, font: FontMetrics, command: String) -> (t: TermSession)
        requires
            font.valid(),
        ensures
            t.wf(),
            t.is_fresh(dirty, font, command@),
    {
        TermSession {
            dirty,
            font,
            command,
            natural: Layout { width: font.cell_width, height: font.cell_height },
            last: Layout::new(),
            keys: Vec::new(),
            draws: Vec::new(),
        }
    }

    /// Host-side hook: the session's screen changed and it now reports a
    /// different natural size.
    pub fn set_natural(&mut self, size: Layout)
        requires
            old(self).wf(),
            size.bounded(),
        ensures
            final(self).wf(),
            final(self).natural == size,
            final(self).dirty == old(self).dirty,
            final(self).font == old(self).font,
            final(self).command == old(self).command,
            final(self).last == old(self).last,
            final(self).keys == old(self).keys,
            final(self).draws == old(self).draws,
    {
        self.natural = size;
    }

    pub fn key(&mut self, ev: KeyEvent)
        ensures
            TermSession::key_step(*old(self), *final(self), ev),
    {
        self.keys.push(ev);
    }

    pub fn draw(&mut self, focused: bool)
        ensures
            TermSession::draw_step(*old(self), *final(self), focused),
    {
        self.draws.push(focused);
    }

    /// The session tolerates any offered space, including transiently
    /// negative dimensions, and reports its natural size.
    pub fn relayout(&mut self, _avail: Layout) -> (r: Layout)
        requires
            old(self).wf(),
        ensures
            final(self).wf(),
            TermSession::layout_step(*old(self), *final(self)),
            r == old(self).natural,
    {
        self.last = self.natural;
        self.last
    }

    pub fn get_layout(&self) -> (r: Layout)
        ensures
            r == self.last,
    {
        self.last
    }
}

} // verus!
