//! The log itself: an append-only, never-empty sequence of entries, stacked
//! vertically.  Each entry is a prompt that, exactly once, after its command
//! line is submitted, gains an embedded terminal session below the prompt.
//! Key input and draw focus reach only the most recent entry.  The
//! prompt-to-terminal transition is deferred through a FIFO task queue the
//! host drains between event dispatches, so the view tree is never mutated
//! from inside the key dispatch that triggered the submission.

use crate::boundary::{DirtySignal, FontMetrics, KeyEvent};
use crate::editor::LineEditor;
use crate::geom::{Layout, MAX_DIM};
use crate::prompt::{Prompt, MARGIN_HEIGHT, MARGIN_WIDTH};
use crate::session::TermSession;
use crate::surface::{DrawCmd, Surface};
use vstd::prelude::*;

verus! {

/// A deferred unit of work: start the terminal session for the entry at
/// `entry`, running the submitted `text` as its command line.  Enqueued by a
/// submission, run by the host after the current event dispatch unwinds.
pub struct Task {
    pub entry: usize,
    pub text: String,
}

/// One unit of the scrollback: a prompt, and — once its command line has
/// been submitted and the deferred task has run — a terminal session
/// stacked below it.  The terminal slot is filled at most once; `accepted`
/// is the one-shot guard that makes repeated submission callbacks no-ops.
pub struct LogEntry {
    pub prompt: Prompt,
    pub term: Option<TermSession>,
    /// The combined layout cached by the most recent relayout.
    pub layout: Layout,
    /// Whether a submission has already been accepted for this entry.
    pub accepted: bool,
}

impl LogEntry {
    pub open spec fn wf(self) -> bool {
        &&& self.prompt.wf()
        &&& match self.term {
            Some(t) => t.wf() && self.accepted,
            None => true,
        }
        &&& 0 <= self.layout.width <= 2 * MAX_DIM + MARGIN_WIDTH
        &&& 0 <= self.layout.height <= 2 * MAX_DIM + MARGIN_HEIGHT
    }

    /// A freshly constructed entry: a blank prompt, no terminal, no
    /// submission accepted, zero cached layout.
    pub open spec fn is_fresh(self, dirty: DirtySignal, font: FontMetrics) -> bool {
        &&& self.prompt.editor.is_fresh(dirty, font)
        &&& self.term is None
        &&& !self.accepted
        &&& self.layout == (Layout { width: 0, height: 0 })
    }

    /// The layout a relayout of this entry returns: the prompt's size (its
    /// editor's natural size plus the margin), plus the terminal's natural
    /// size once one is attached.
    pub open spec fn relayout_width(self) -> int {
        self.prompt.editor.natural.width + MARGIN_WIDTH + match self.term {
            Some(t) => t.natural.width as int,
            None => 0,
        }
    }

    /// Height counterpart of `relayout_width`.
    pub open spec fn relayout_height(self) -> int {
        self.prompt.editor.natural.height + MARGIN_HEIGHT + match self.term {
            Some(t) => t.natural.height as int,
            None => 0,
        }
    }

    /// One key delivered to the entry: it reaches the terminal if one is
    /// attached, otherwise the prompt's editor; nothing else moves.
    pub open spec fn key_step(pre: LogEntry, post: LogEntry, ev: KeyEvent) -> bool {
        &&& match pre.term {
            Some(t) => {
                &&& post.term matches Some(pt) && TermSession::key_step(t, pt, ev)
                &&& post.prompt == pre.prompt
            },
            None => {
                &&& post.term is None
                &&& LineEditor::key_step(pre.prompt.editor, post.prompt.editor, ev)
            },
        }
        &&& post.layout == pre.layout
        &&& post.accepted == pre.accepted
    }

    /// One draw of the entry: with a terminal attached the prompt observes
    /// `false` (it never keeps focus once a terminal exists) and the
    /// terminal observes the entry's flag; without one the prompt observes
    /// the entry's flag.  Nothing else moves.
    pub open spec fn draw_step(pre: LogEntry, post: LogEntry, focused: bool) -> bool {
        &&& match pre.term {
            Some(t) => {
                &&& post.term matches Some(pt) && TermSession::draw_step(t, pt, focused)
                &&& LineEditor::draw_step(pre.prompt.editor, post.prompt.editor, false)
            },
            None => {
                &&& post.term is None
                &&& LineEditor::draw_step(pre.prompt.editor, post.prompt.editor, focused)
            },
        }
        &&& post.layout == pre.layout
        &&& post.accepted == pre.accepted
    }

    /// One relayout of the entry: the prompt (and its editor) relaid out
    /// first, then the terminal if attached; the combined size is cached.
    pub open spec fn layout_step(pre: LogEntry, post: LogEntry) -> bool {
        &&& LineEditor::layout_step(pre.prompt.editor, post.prompt.editor)
        &&& match pre.term {
            Some(t) => post.term matches Some(pt) && TermSession::layout_step(t, pt),
            None => post.term is None,
        }
        &&& post.layout.width == pre.relayout_width()
        &&& post.layout.height == pre.relayout_height()
        &&& post.accepted == pre.accepted
    }

    /// The surface commands one draw of this entry issues: the prompt's
    /// commands, then — once a terminal is attached — a bracketed
    /// translation down by the prompt's current height under which the
    /// terminal renders.
    pub open spec fn draw_cmds(e: LogEntry) -> Seq<DrawCmd> {
        match e.term {
            Some(_) => Prompt::draw_cmds(e.prompt) + seq![
                DrawCmd::Save,
                DrawCmd::Translate { dx: 0, dy: e.prompt.spec_layout().height },
                DrawCmd::Restore,
            ],
            None => Prompt::draw_cmds(e.prompt),
        }
    }

    /// Builds an entry around a fresh line editor.  Callback wiring is the
    /// log-level protocol: the host reports the editor's submission callback
    /// through `Log::submit`, and the entry's terminal-exit callback through
    /// `Log::new_entry`.
    pub fn new(dirty: DirtySignal, font: FontMetrics) -> (e: LogEntry)
        requires
            font.valid(),
        ensures
            e.wf(),
            e.is_fresh(dirty, font),
    {
        LogEntry {
            prompt: Prompt::new(LineEditor::new(dirty, font)),
            term: None,
            layout: Layout::new(),
            accepted: false,
        }
    }

    /// The one-shot submission guard: the first call consumes the guard and
    /// reports `true`; every later call is a silent no-op reporting `false`.
    pub fn accept(&mut self) -> (started: bool)
        ensures
            started == !old(self).accepted,
            final(self).accepted,
            final(self).prompt == old(self).prompt,
            final(self).term == old(self).term,
            final(self).layout == old(self).layout,
            !started ==> *final(self) == *old(self),
    {
        let started = !self.accepted;
        self.accepted = true;
        started
    }

    /// Keys go to the terminal once one is attached, else to the prompt.
    pub fn key(&mut self, ev: KeyEvent)
        requires
            old(self).wf(),
        ensures
            final(self).wf(),
            LogEntry::key_step(*old(self), *final(self), ev),
    {
        match &mut self.term {
            Some(t) => t.key(ev),
            None => self.prompt.key(ev),
        }
    }

    /// With a terminal attached: the prompt drawn unfocused, then the
    /// terminal drawn below it with the entry's flag; otherwise the prompt
    /// drawn with the entry's flag.
    pub fn draw(&mut self, surface: &mut Surface, focused: bool)
        requires
            old(self).wf(),
        ensures
            final(self).wf(),
            LogEntry::draw_step(*old(self), *final(self), focused),
            final(surface).cmds@ == old(surface).cmds@ + LogEntry::draw_cmds(*old(self)),
    {
        if self.term.is_some() {
            self.prompt.draw(surface, false);
            surface.save();
            let height: i64 = self.prompt.get_layout().height;
            surface.translate(0, height);
            match &mut self.term {
                Some(t) => t.draw(focused),
                None => (),
            }
            surface.restore();
            proof {
                assert(surface.cmds@ =~= old(surface).cmds@ + LogEntry::draw_cmds(*old(self)));
            }
        } else {
            self.prompt.draw(surface, focused);
        }
    }

    /// The prompt is always offered the full available space first; the
    /// terminal, if attached, is then offered the remainder below the
    /// prompt, which may be negative and is tolerated by the session.
    pub fn relayout(&mut self, avail: Layout) -> (r: Layout)
        requires
            old(self).wf(),
            avail.width >= 0,
            avail.height >= 0,
        ensures
            final(self).wf(),
            LogEntry::layout_step(*old(self), *final(self)),
            r == final(self).layout,
            r.width == old(self).relayout_width(),
            r.height == old(self).relayout_height(),
    {
        let mut layout = self.prompt.relayout(avail);
        match &mut self.term {
            Some(t) => {
                let tlayout = t.relayout(
                    Layout { width: avail.width, height: avail.height - layout.height },
                );
                layout = layout.add(tlayout.width, tlayout.height);
            },
            None => (),
        }
        self.layout = layout;
        layout
    }

    /// The combined layout cached by the most recent relayout.
    pub fn get_layout(&self) -> (r: Layout)
        ensures
            r == self.layout,
    {
        self.layout
    }

    /// Installs the terminal session into the empty slot.  The slot must
    /// still be empty and the one-shot guard already consumed, which the
    /// log's queue discipline guarantees.
    pub fn install_term(&mut self, ses: TermSession)
        requires
            old(self).wf(),
            old(self).term is None,
            old(self).accepted,
            ses.wf(),
        ensures
            final(self).wf(),
            final(self).term == Some(ses),
            final(self).prompt == old(self).prompt,
            final(self).layout == old(self).layout,
            final(self).accepted == old(self).accepted,
    {
        self.term = Some(ses);
    }
}

/// Clamp into the representable height range; heights are never negative.
pub open spec fn sat_i64(x: int) -> int {
    if x > i64::MAX { i64::MAX as int } else { x }
}

/// Sum of the heights the entries report when relaid out, oldest first.
pub open spec fn total_height(s: Seq<LogEntry>) -> int
    decreases s.len(),
{
    if s.len() == 0 {
        0
    } else {
        total_height(s.drop_last()) + s.last().relayout_height()
    }
}

/// `post` equals `pre` except possibly at index `i`.
pub open spec fn entries_except(pre: Seq<LogEntry>, post: Seq<LogEntry>, i: int) -> bool {
    &&& post.len() == pre.len()
    &&& forall|j: int| 0 <= j < pre.len() && j != i ==> post[j] == pre[j]
}

/// Addition of non-negative heights, saturating at the top of the range.
fn sat_add(a: i64, b: i64) -> (r: i64)
    requires
        a >= 0,
        b >= 0,
    ensures
        r == sat_i64(a + b),
        r >= 0,
{
    if a <= i64::MAX - b {
        a + b
    } else {
        i64::MAX
    }
}

/// The scrollback: an append-only, never-empty sequence of entries, the
/// shared dirty signal and font metrics every new widget is built with, the
/// cached layout of the whole log, and the deferred-task queue drained by
/// the host between event dispatches.
pub struct Log {
    pub entries: Vec<LogEntry>,
    pub dirty: DirtySignal,
    pub font: FontMetrics,
    /// The layout cached by the most recent relayout.
    pub layout: Layout,
    /// Pending deferred tasks, oldest first.
    pub tasks: Vec<Task>,
}

impl Log {
    /// A queued task targets an existing entry whose one-shot guard has been
    /// consumed and whose terminal slot is still empty.
    pub open spec fn task_ok(self, t: Task) -> bool {
        &&& t.entry < self.entries@.len()
        &&& self.entries@[t.entry as int].accepted
        &&& self.entries@[t.entry as int].term is None
    }

    /// The log invariant: at least one entry, every entry well-formed, valid
    /// font metrics, every queued task valid, and no two queued tasks for
    /// the same entry — so a terminal slot is filled at most once.
    pub open spec fn wf(self) -> bool {
        &&& self.entries@.len() >= 1
        &&& forall|i: int| 0 <= i < self.entries@.len() ==> (#[trigger] self.entries@[i]).wf()
        &&& self.font.valid()
        &&& forall|k: int| 0 <= k < self.tasks@.len() ==> self.task_ok(#[trigger] self.tasks@[k])
        &&& forall|k1: int, k2: int|
            0 <= k1 < k2 < self.tasks@.len() ==> (#[trigger] self.tasks@[k1]).entry != (
            #[trigger] self.tasks@[k2]).entry
    }

    /// One append of a fresh blank entry at the tail; everything else is
    /// untouched.
    pub open spec fn new_entry_rel(pre: Log, post: Log) -> bool {
        &&& post.entries@.len() == pre.entries@.len() + 1
        &&& forall|j: int| 0 <= j < pre.entries@.len() ==> post.entries@[j] == pre.entries@[j]
        &&& post.entries@.last().is_fresh(pre.dirty, pre.font)
        &&& post.tasks == pre.tasks
        &&& post.dirty == pre.dirty
        &&& post.font == pre.font
        &&& post.layout == pre.layout
    }

    /// One submission callback from entry `i`'s line editor, carrying
    /// `text`.  If the entry has already accepted a submission, nothing at
    /// all happens; otherwise the guard is consumed and exactly one
    /// terminal-start task is appended to the queue.
    pub open spec fn submit_rel(pre: Log, post: Log, i: int, text: Seq<char>) -> bool {
        &&& 0 <= i < pre.entries@.len()
        &&& if pre.entries@[i].accepted {
            post == pre
        } else {
            &&& entries_except(pre.entries@, post.entries@, i)
            &&& post.entries@[i].accepted
            &&& post.entries@[i].prompt == pre.entries@[i].prompt
            &&& post.entries@[i].term == pre.entries@[i].term
            &&& post.entries@[i].layout == pre.entries@[i].layout
            &&& post.tasks@.len() == pre.tasks@.len() + 1
            &&& forall|k: int| 0 <= k < pre.tasks@.len() ==> post.tasks@[k] == pre.tasks@[k]
            &&& post.tasks@.last().entry == i
            &&& post.tasks@.last().text@ == text
            &&& post.dirty == pre.dirty
            &&& post.font == pre.font
            &&& post.layout == pre.layout
        }
    }

    /// One drain step of the deferred queue.  With the queue empty, nothing
    /// happens; otherwise the oldest task leaves the queue and a fresh
    /// terminal session, constructed with the shared signal and font and the
    /// task's submitted text, fills its entry's empty slot.
    pub open spec fn run_task_rel(pre: Log, post: Log, ran: bool) -> bool {
        if pre.tasks@.len() == 0 {
            &&& !ran
            &&& post == pre
        } else {
            let t = pre.tasks@[0];
            &&& ran
            &&& post.tasks@ == pre.tasks@.remove(0)
            &&& entries_except(pre.entries@, post.entries@, t.entry as int)
            &&& post.entries@[t.entry as int].term matches Some(ses) && ses.is_fresh(
                pre.dirty,
                pre.font,
                t.text@,
            )
            &&& post.entries@[t.entry as int].prompt == pre.entries@[t.entry as int].prompt
            &&& post.entries@[t.entry as int].layout == pre.entries@[t.entry as int].layout
            &&& post.entries@[t.entry as int].accepted == pre.entries@[t.entry as int].accepted
            &&& post.dirty == pre.dirty
            &&& post.font == pre.font
            &&& post.layout == pre.layout
        }
    }

    /// One key event: it reaches the last entry and nothing else.
    pub open spec fn key_rel(pre: Log, post: Log, ev: KeyEvent) -> bool {
        &&& pre.entries@.len() >= 1
        &&& entries_except(pre.entries@, post.entries@, pre.entries@.len() - 1)
        &&& LogEntry::key_step(pre.entries@.last(), post.entries@.last(), ev)
        &&& post.tasks == pre.tasks
        &&& post.dirty == pre.dirty
        &&& post.font == pre.font
        &&& post.layout == pre.layout
    }

    /// One draw pass: every entry is drawn in order, the last observing the
    /// caller's focus flag and every other entry observing `false`.
    pub open spec fn draw_rel(pre: Log, post: Log, focus: bool) -> bool {
        &&& post.entries@.len() == pre.entries@.len()
        &&& forall|j: int|
            0 <= j < pre.entries@.len() ==> LogEntry::draw_step(
                pre.entries@[j],
                #[trigger] post.entries@[j],
                focus && j == pre.entries@.len() - 1,
            )
        &&& post.tasks == pre.tasks
        &&& post.dirty == pre.dirty
        &&& post.font == pre.font
        &&& post.layout == pre.layout
    }

    /// One relayout pass: every entry relaid out in order, the total height
    /// accumulated, and the resulting layout — the offered width and the
    /// accumulated height — cached and returned.
    pub open spec fn relayout_rel(pre: Log, post: Log, avail: Layout, r: Layout) -> bool {
        &&& post.entries@.len() == pre.entries@.len()
        &&& forall|j: int|
            0 <= j < pre.entries@.len() ==> LogEntry::layout_step(
                pre.entries@[j],
                #[trigger] post.entries@[j],
            )
        &&& r.width == avail.width
        &&& r.height == sat_i64(total_height(pre.entries@))
        &&& post.layout == r
        &&& post.tasks == pre.tasks
        &&& post.dirty == pre.dirty
        &&& post.font == pre.font
    }

    /// The surface commands one draw pass over `entries` issues: each
    /// entry's own commands followed by the translation down by that entry's
    /// cached height, under which the next entry renders.
    pub open spec fn entries_draw_cmds(entries: Seq<LogEntry>) -> Seq<DrawCmd>
        decreases entries.len(),
    {
        if entries.len() == 0 {
            Seq::empty()
        } else {
            Log::entries_draw_cmds(entries.drop_last()) + LogEntry::draw_cmds(entries.last()) + seq![
                DrawCmd::Translate { dx: 0, dy: entries.last().layout.height },
            ]
        }
    }

    /// A whole draw pass, bracketed by save/restore so the running
    /// translation does not leak to the log's siblings.
    pub open spec fn draw_cmds(entries: Seq<LogEntry>) -> Seq<DrawCmd> {
        seq![DrawCmd::Save] + Log::entries_draw_cmds(entries) + seq![DrawCmd::Restore]
    }

    /// Creates the log and immediately appends the first blank entry, so
    /// the sequence is never empty.
    pub fn new(dirty: DirtySignal, font: FontMetrics) -> (l: Log)
        requires
            font.valid(),
        ensures
            l.wf(),
            l.entries@.len() == 1,
            l.entries@[0].is_fresh(dirty, font),
            l.tasks@.len() == 0,
            l.dirty == dirty,
            l.font == font,
            l.layout == (Layout { width: 0, height: 0 }),
    {
        let mut log = Log {
            entries: Vec::new(),
            dirty,
            font,
            layout: Layout::new(),
            tasks: Vec::new(),
        };
        let entry = LogEntry::new(dirty, font);
        log.entries.push(entry);
        log
    }

    /// Appends a fresh blank entry at the tail.  This is every entry's
    /// terminal-exit callback: when an entry's terminal session completes,
    /// the host calls this, and the log grows by one pending entry ready
    /// for the next command.
    pub fn new_entry(&mut self)
        requires
            old(self).wf(),
        ensures
            final(self).wf(),
            Log::new_entry_rel(*old(self), *final(self)),
    {
        let entry = LogEntry::new(self.dirty, self.font);
        self.entries.push(entry);
    }

    /// Entry `i`'s line editor fired its submission callback with `text`.
    /// The first submission on an entry consumes its one-shot guard and
    /// enqueues the deferred terminal-start task; any later submission on
    /// the same entry is a silent no-op.  The terminal itself is constructed
    /// only when the host drains the queue, after the current event dispatch
    /// has fully unwound, so the view tree is never mutated mid-traversal.
    pub fn submit(&mut self, i: usize, text: String)
        requires
            old(self).wf(),
            i < old(self).entries@.len(),
        ensures
            final(self).wf(),
            Log::submit_rel(*old(self), *final(self), i as int, text@),
    {
        if !self.entries[i].accepted {
            let entry = &mut self.entries[i];
            entry.accept();
            self.tasks.push(Task { entry: i, text });
        }
    }

    /// Runs the oldest deferred task, if any: constructs the terminal
    /// session with the task's submitted text and installs it into its
    /// entry's still-empty slot.  Reports whether a task ran.  The host
    /// calls this between event dispatches until it reports `false`.
    pub fn run_next_task(&mut self) -> (ran: bool)
        requires
            old(self).wf(),
        ensures
            final(self).wf(),
            Log::run_task_rel(*old(self), *final(self), ran),
    {
        if self.tasks.len() == 0 {
            return false;
        }
        let task = self.tasks.remove(0);
        proof {
            assert(old(self).task_ok(old(self).tasks@[0]));
        }
        let ses = TermSession::new(self.dirty, self.font, task.text);
        let entry = &mut self.entries[task.entry];
        entry.install_term(ses);
        true
    }

    /// Key events reach only the last entry; every earlier entry is
    /// untouched.
    pub fn key(&mut self, ev: KeyEvent)
        requires
            old(self).wf(),
        ensures
            final(self).wf(),
            Log::key_rel(*old(self), *final(self), ev),
    {
        let n = self.entries.len();
        let entry = &mut self.entries[n - 1];
        entry.key(ev);
    }

    /// Draws every entry in order, translating the origin down by each
    /// entry's cached height before the next.  Only the last entry observes
    /// the caller's focus flag; every other entry observes `false`.
    pub fn draw(&mut self, surface: &mut Surface, focus: bool)
        requires
            old(self).wf(),
        ensures
            final(self).wf(),
            Log::draw_rel(*old(self), *final(self), focus),
            final(surface).cmds@ == old(surface).cmds@ + Log::draw_cmds(old(self).entries@),
    {
        surface.save();
        let n = self.entries.len();
        let mut i: usize = 0;
        while i < n
            invariant
                n == old(self).entries@.len(),
                i <= n,
                self.entries@.len() == n,
                self.dirty == old(self).dirty,
                self.font == old(self).font,
                self.layout == old(self).layout,
                self.tasks == old(self).tasks,
                old(self).wf(),
                forall|j: int|
                    i <= j < n ==> #[trigger] self.entries@[j] == old(self).entries@[j],
                forall|j: int|
                    0 <= j < i ==> LogEntry::draw_step(
                        old(self).entries@[j],
                        #[trigger] self.entries@[j],
                        focus && j == n - 1,
                    ),
                surface.cmds@ == old(surface).cmds@ + seq![DrawCmd::Save]
                    + Log::entries_draw_cmds(old(self).entries@.take(i as int)),
            decreases n - i,
        {
            let last = i == n - 1;
            let entry = &mut self.entries[i];
            entry.draw(surface, focus && last);
            let height: i64 = self.entries[i].get_layout().height;
            surface.translate(0, height);
            proof {
                let pre = old(self).entries@;
                assert(pre.take(i + 1).drop_last() =~= pre.take(i as int));
                assert(pre.take(i + 1).last() == pre[i as int]);
                assert(surface.cmds@ =~= old(surface).cmds@ + seq![DrawCmd::Save]
                    + Log::entries_draw_cmds(pre.take(i + 1)));
            }
            i = i + 1;
        }
        surface.restore();
        proof {
            assert(old(self).entries@.take(n as int) =~= old(self).entries@);
            assert(surface.cmds@ =~= old(surface).cmds@ + Log::draw_cmds(old(self).entries@));
        }
    }

    /// Offers each entry in order the full width and whatever height the
    /// earlier entries have not consumed — clamped at zero rather than
    /// going negative, a deliberate strengthening at the log level —
    /// accumulates the total height, and caches and returns the offered
    /// width with that total.
    pub fn relayout(&mut self, avail: Layout) -> (r: Layout)
        requires
            old(self).wf(),
            avail.width >= 0,
            avail.height >= 0,
        ensures
            final(self).wf(),
            Log::relayout_rel(*old(self), *final(self), avail, r),
    {
        let n = self.entries.len();
        let mut height: i64 = 0;
        let mut i: usize = 0;
        while i < n
            invariant
                n == old(self).entries@.len(),
                i <= n,
                self.entries@.len() == n,
                self.dirty == old(self).dirty,
                self.font == old(self).font,
                self.layout == old(self).layout,
                self.tasks == old(self).tasks,
                old(self).wf(),
                avail.width >= 0,
                avail.height >= 0,
                height >= 0,
                height == sat_i64(total_height(old(self).entries@.take(i as int))),
                forall|j: int|
                    i <= j < n ==> #[trigger] self.entries@[j] == old(self).entries@[j],
                forall|j: int|
                    0 <= j < i ==> LogEntry::layout_step(
                        old(self).entries@[j],
                        #[trigger] self.entries@[j],
                    ),
            decreases n - i,
        {
            let offered_height: i64 = if avail.height > height {
                avail.height - height
            } else {
                0
            };
            let entry = &mut self.entries[i];
            let entry_layout = entry.relayout(Layout { width: avail.width, height: offered_height });
            proof {
                let pre = old(self).entries@;
                assert(pre.take(i + 1).drop_last() =~= pre.take(i as int));
                assert(pre.take(i + 1).last() == pre[i as int]);
                assert(pre[i as int].wf());
            }
            height = sat_add(height, entry_layout.height);
            i = i + 1;
        }
        proof {
            assert(old(self).entries@.take(n as int) =~= old(self).entries@);
        }
        self.layout = Layout { width: avail.width, height };
        self.layout
    }

    /// The layout cached by the most recent relayout.
    pub fn get_layout(&self) -> (r: Layout)
        ensures
            r == self.layout,
    {
        self.layout
    }
}

} // verus!
