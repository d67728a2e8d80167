//! Opaque tokens exchanged with the outside collaborators: the key event
//! delivered by the toolkit, the shared dirty signal, and the font metrics
//! used to size every entry and terminal.  The core inspects none of them;
//! it only stores and forwards them.

use crate::geom::MAX_DIM;
use vstd::prelude::*;

verus! {

/// A key event as delivered by the toolkit.  The core forwards it verbatim
/// and inspects none of its content.
#[derive(Clone, Copy, PartialEq, Eq, Structural, Debug)]
pub struct KeyEvent {
    pub code: u64,
}

/// Handle on the process-wide "mark dirty" redraw signal.  The core never
/// invokes it itself; it passes the handle to every widget it creates.
#[derive(Clone, Copy, PartialEq, Eq, Structural, Debug)]
pub struct DirtySignal {
    pub id: u64,
}

/// Font metrics shared by the whole log and forwarded unchanged to every
/// line editor and terminal session, which size themselves from it.
#[derive(Clone, Copy, PartialEq, Eq, Structural, Debug)]
pub struct FontMetrics {
    pub cell_width: i64,
    pub cell_height: i64,
}

impl FontMetrics {
    /// Cell dimensions are non-negative and within the screen-size bound.
    pub open spec fn valid(self) -> bool {
        &&& 0 <= self.cell_width <= MAX_DIM
        &&& 0 <= self.cell_height <= MAX_DIM
    }
}

} // verus!
