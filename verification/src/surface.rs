//! A recording drawing surface.  The real surface belongs to the graphics
//! toolkit; the core only ever uses save/restore of the transform state,
//! translation of the origin, and a filled path for the prompt's indicator
//! glyph.  This model records exactly those commands, in order, so that
//! contracts can state which commands a draw pass issues and a host renderer
//! can replay them against the real surface.

use vstd::prelude::*;

verus! {

/// One drawing-surface primitive issued by the core.
#[derive(Clone, Copy, PartialEq, Eq, Structural, Debug)]
pub enum DrawCmd {
    /// Push the current transform state.
    Save,
    /// Pop to the previously saved transform state.
    Restore,
    /// Shift the drawing origin.
    Translate { dx: i64, dy: i64 },
    /// Begin a path segment at a point (relative to the current origin).
    MoveTo { x: i64, y: i64 },
    /// Extend the current path to a point.
    LineTo { x: i64, y: i64 },
    /// Fill the current path.
    Fill,
}

/// The command log of one draw pass.
pub struct Surface {
    pub cmds: Vec<DrawCmd>,
}

impl Surface {
    pub fn new() -> (s: Surface)
        ensures
            s.cmds@ == Seq::<DrawCmd>::empty(),
    {
        Surface { cmds: Vec::new() }
    }

    pub fn save(&mut self)
        ensures
            final(self).cmds@ == old(self).cmds@.push(DrawCmd::Save),
    {
        self.cmds.push(DrawCmd::Save);
    }

    pub fn restore(&mut self)
        ensures
            final(self).cmds@ == old(self).cmds@.push(DrawCmd::Restore),
    {
        self.cmds.push(DrawCmd::Restore);
    }

    pub fn translate(&mut self, dx: i64, dy: i64)
        ensures
            final(self).cmds@ == old(self).cmds@.push(DrawCmd::Translate { dx, dy }),
    {
        self.cmds.push(DrawCmd::Translate { dx, dy });
    }

    pub fn move_to(&mut self, x: i64, y: i64)
        ensures
            final(self).cmds@ == old(self).cmds@.push(DrawCmd::MoveTo { x, y }),
    {
        self.cmds.push(DrawCmd::MoveTo { x, y });
    }

    pub fn line_to(&mut self, x: i64, y: i64)
        ensures
            final(self).cmds@ == old(self).cmds@.push(DrawCmd::LineTo { x, y }),
    {
        self.cmds.push(DrawCmd::LineTo { x, y });
    }

    pub fn fill(&mut self)
        ensures
            final(self).cmds@ == old(self).cmds@.push(DrawCmd::Fill),
    {
        self.cmds.push(DrawCmd::Fill);
    }
}

} // verus!
