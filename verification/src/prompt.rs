//! The prompt: a line editor decorated with a fixed margin and a caret-style
//! indicator glyph, so prompts stand apart from terminal output.  The prompt
//! adds a fixed margin to the editor's size, draws the glyph as a filled
//! triangle vertically centered in its own height, and forwards keys and
//! focus to the editor unchanged.

use crate::boundary::KeyEvent;
use crate::editor::LineEditor;
use crate::geom::Layout;
use crate::surface::{DrawCmd, Surface};
use vstd::prelude::*;

verus! {

/// Width the prompt's margin adds around its editor.
pub const MARGIN_WIDTH: i64 = 20;

/// Height the prompt's margin adds around its editor.
pub const MARGIN_HEIGHT: i64 = 10;

pub struct Prompt {
    pub editor: LineEditor,
}

impl Prompt {
    pub open spec fn wf(self) -> bool {
        self.editor.wf()
    }

    /// The prompt's own layout: the editor's cached layout plus the margin.
    pub open spec fn spec_layout(self) -> Layout {
        Layout {
            width: (self.editor.last.width + MARGIN_WIDTH) as i64,
            height: (self.editor.last.height + MARGIN_HEIGHT) as i64,
        }
    }

    /// The surface commands one prompt draw issues: the indicator triangle,
    /// anchored at the left margin and vertically centered in the prompt's
    /// current height, then the translation under which the editor renders,
    /// all bracketed by save/restore so nothing leaks to siblings.
    pub open spec fn draw_cmds(p: Prompt) -> Seq<DrawCmd> {
        let h = p.spec_layout().height as int;
        seq![
            DrawCmd::Save,
            DrawCmd::MoveTo { x: 5, y: 8 },
            DrawCmd::LineTo { x: 13, y: (h / 2) as i64 },
            DrawCmd::LineTo { x: 5, y: (h - 8) as i64 },
            DrawCmd::Fill,
            DrawCmd::Translate { dx: 18, dy: 5 },
            DrawCmd::Restore,
        ]
    }

    pub fn new(editor: LineEditor) -> (p: Prompt)
        ensures
            p.editor == editor,
    {
        Prompt { editor }
    }

    /// Draws the indicator glyph, then the editor at the content offset,
    /// with the caller's focus flag passed through unchanged.
    pub fn draw(&mut self, surface: &mut Surface, focused: bool)
        requires
            old(self).wf(),
        ensures
            final(self).wf(),
            LineEditor::draw_step(old(self).editor, final(self).editor, focused),
            final(surface).cmds@ == old(surface).cmds@ + Prompt::draw_cmds(*old(self)),
    {
        surface.save();
        let h: i64 = self.get_layout().height;
        surface.move_to(5, 8);
        surface.line_to(13, h / 2);
        surface.line_to(5, h - 8);
        surface.fill();
        surface.translate(18, 5);
        self.editor.draw(focused);
        surface.restore();
        proof {
            assert(surface.cmds@ =~= old(surface).cmds@ + Prompt::draw_cmds(*old(self)));
        }
    }

    /// Keys go to the editor verbatim; the prompt has no key handling of
    /// its own.
    pub fn key(&mut self, ev: KeyEvent)
        ensures
            LineEditor::key_step(old(self).editor, final(self).editor, ev),
    {
        self.editor.key(ev);
    }

    /// Offers the editor the available space reduced by the margin, then
    /// reports the prompt's own resulting layout.
    pub fn relayout(&mut self, avail: Layout) -> (r: Layout)
        requires
            old(self).wf(),
            avail.width >= i64::MIN + MARGIN_WIDTH,
            avail.height >= i64::MIN + MARGIN_HEIGHT,
        ensures
            final(self).wf(),
            LineEditor::layout_step(old(self).editor, final(self).editor),
            r == final(self).spec_layout(),
            r.width == old(self).editor.natural.width + MARGIN_WIDTH,
            r.height == old(self).editor.natural.height + MARGIN_HEIGHT,
    {
        self.editor.relayout(avail.add(-MARGIN_WIDTH, -MARGIN_HEIGHT));
        self.get_layout()
    }

    /// The editor's cached layout plus the margin.
    pub fn get_layout(&self) -> (r: Layout)
        requires
            self.wf(),
        ensures
            r == self.spec_layout(),
    {
        self.editor.get_layout().add(MARGIN_WIDTH, MARGIN_HEIGHT)
    }
}

} // verus!
