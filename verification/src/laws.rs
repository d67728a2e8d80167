//! Laws of the composition protocol, stated over the transition relations
//! that the executable functions ensure, and proved for all states.

use crate::boundary::KeyEvent;
use crate::geom::Layout;
use crate::log::{total_height, Log, LogEntry};
use vstd::prelude::*;

verus! {

/// One completed command cycle on the current last entry: its line editor
/// submits `text`, the host drains the deferred terminal-start task, and the
/// terminal session later completes, growing the log by one entry.
pub open spec fn cycle_rel(pre: Log, post: Log, text: Seq<char>) -> bool {
    exists|mid1: Log, mid2: Log|
        {
            &&& Log::submit_rel(pre, mid1, pre.entries@.len() - 1, text)
            &&& Log::run_task_rel(mid1, mid2, true)
            &&& Log::new_entry_rel(mid2, post)
        }
}

/// A sequence of completed command cycles, one per submitted text.
pub open spec fn cycles_rel(pre: Log, post: Log, texts: Seq<Seq<char>>) -> bool
    decreases texts.len(),
{
    if texts.len() == 0 {
        post == pre
    } else {
        exists|mid: Log| cycle_rel(pre, mid, texts[0]) && cycles_rel(mid, post, texts.skip(1))
    }
}

/// Any one step of the protocol.
pub open spec fn log_step(pre: Log, post: Log) -> bool {
    ||| Log::new_entry_rel(pre, post)
    ||| exists|i: int, text: Seq<char>| Log::submit_rel(pre, post, i, text)
    ||| exists|ran: bool| Log::run_task_rel(pre, post, ran)
    ||| exists|ev: KeyEvent| Log::key_rel(pre, post, ev)
    ||| exists|focus: bool| Log::draw_rel(pre, post, focus)
    ||| exists|avail: Layout, r: Layout| Log::relayout_rel(pre, post, avail, r)
}

/// The command an entry's terminal session was started with, if any.
pub open spec fn slot_command(e: LogEntry) -> Seq<char> {
    match e.term {
        Some(t) => t.command@,
        None => Seq::empty(),
    }
}

/// One completed cycle grows the log by exactly one entry.
proof fn lemma_cycle_grows_by_one(pre: Log, post: Log, text: Seq<char>)
    requires
        cycle_rel(pre, post, text),
    ensures
        post.entries@.len() == pre.entries@.len() + 1,
{
    let (mid1, mid2) = choose|mid1: Log, mid2: Log|
        {
            &&& Log::submit_rel(pre, mid1, pre.entries@.len() - 1, text)
            &&& Log::run_task_rel(mid1, mid2, true)
            &&& Log::new_entry_rel(mid2, post)
        };
    assert(mid1.entries@.len() == pre.entries@.len());
    assert(mid2.entries@.len() == mid1.entries@.len());
}

/// After N completed submission–exit cycles on a freshly constructed log,
/// the entry sequence holds exactly N+1 entries: the initial blank entry
/// plus one new entry per cycle.
pub proof fn lemma_entry_count_after_cycles(l0: Log, post: Log, texts: Seq<Seq<char>>)
    requires
        l0.entries@.len() == 1,
        cycles_rel(l0, post, texts),
    ensures
        post.entries@.len() == texts.len() + 1,
        texts.len() > 0 ==> post.entries@.last().is_fresh(l0.dirty, l0.font),
{
    lemma_mid_count(l0, post, texts);
}

/// Cycles from any starting length add one entry each, share the log's
/// signal and font, and leave a freshly created pending entry at the tail.
proof fn lemma_mid_count(pre: Log, post: Log, texts: Seq<Seq<char>>)
    requires
        cycles_rel(pre, post, texts),
    ensures
        post.entries@.len() == pre.entries@.len() + texts.len(),
        post.dirty == pre.dirty,
        post.font == pre.font,
        texts.len() > 0 ==> post.entries@.last().is_fresh(pre.dirty, pre.font),
    decreases texts.len(),
{
    if texts.len() > 0 {
        let mid = choose|mid: Log|
            cycle_rel(pre, mid, texts[0]) && cycles_rel(mid, post, texts.skip(1));
        lemma_cycle_grows_by_one(pre, mid, texts[0]);
        lemma_cycle_keeps_shared_state(pre, mid, texts[0]);
        lemma_mid_count(mid, post, texts.skip(1));
        if texts.skip(1).len() == 0 {
            assert(post == mid);
        }
    }
}

/// A cycle hands the shared signal and font through unchanged, and the
/// entry it appends is freshly created from them and still pending.
proof fn lemma_cycle_keeps_shared_state(pre: Log, post: Log, text: Seq<char>)
    requires
        cycle_rel(pre, post, text),
    ensures
        post.dirty == pre.dirty,
        post.font == pre.font,
        post.entries@.last().is_fresh(pre.dirty, pre.font),
{
    let (mid1, mid2) = choose|mid1: Log, mid2: Log|
        {
            &&& Log::submit_rel(pre, mid1, pre.entries@.len() - 1, text)
            &&& Log::run_task_rel(mid1, mid2, true)
            &&& Log::new_entry_rel(mid2, post)
        };
    assert(mid1.dirty == pre.dirty && mid1.font == pre.font);
    assert(mid2.dirty == mid1.dirty && mid2.font == mid1.font);
}

/// Every step of the protocol preserves the log invariant: the sequence
/// stays non-empty and well-formed, and the queue discipline that fills
/// each terminal slot at most once is never violated.
pub proof fn lemma_step_preserves_wf(pre: Log, post: Log)
    requires
        pre.wf(),
        log_step(pre, post),
    ensures
        post.wf(),
{
    if Log::new_entry_rel(pre, post) {
        assert forall|k: int| 0 <= k < post.tasks@.len() implies post.task_ok(
            #[trigger] post.tasks@[k],
        ) by {
            assert(pre.task_ok(pre.tasks@[k]));
        }
    } else if exists|i: int, text: Seq<char>| Log::submit_rel(pre, post, i, text) {
        let (i, text) = choose|i: int, text: Seq<char>| Log::submit_rel(pre, post, i, text);
        if !pre.entries@[i].accepted {
            assert forall|k: int| 0 <= k < post.tasks@.len() implies post.task_ok(
                #[trigger] post.tasks@[k],
            ) by {
                if k < pre.tasks@.len() {
                    assert(pre.task_ok(pre.tasks@[k]));
                }
            }
            assert forall|k1: int, k2: int|
                0 <= k1 < k2 < post.tasks@.len() implies (#[trigger] post.tasks@[k1]).entry != (
            #[trigger] post.tasks@[k2]).entry by {
                if k2 == pre.tasks@.len() {
                    assert(pre.task_ok(pre.tasks@[k1]));
                }
            }
        }
    } else if exists|ran: bool| Log::run_task_rel(pre, post, ran) {
        let ran = choose|ran: bool| Log::run_task_rel(pre, post, ran);
        if ran {
            let t = pre.tasks@[0];
            assert(pre.task_ok(t));
            assert forall|k: int| 0 <= k < post.tasks@.len() implies post.task_ok(
                #[trigger] post.tasks@[k],
            ) by {
                assert(post.tasks@[k] == pre.tasks@[k + 1]);
                assert(pre.task_ok(pre.tasks@[k + 1]));
                assert(pre.tasks@[k + 1].entry != t.entry);
            }
            assert forall|k1: int, k2: int|
                0 <= k1 < k2 < post.tasks@.len() implies (#[trigger] post.tasks@[k1]).entry != (
            #[trigger] post.tasks@[k2]).entry by {
                assert(post.tasks@[k1] == pre.tasks@[k1 + 1]);
                assert(post.tasks@[k2] == pre.tasks@[k2 + 1]);
            }
        }
    } else if exists|ev: KeyEvent| Log::key_rel(pre, post, ev) {
        let ev = choose|ev: KeyEvent| Log::key_rel(pre, post, ev);
        let last = pre.entries@.len() - 1;
        assert(LogEntry::key_step(pre.entries@[last], post.entries@[last], ev));
        assert forall|k: int| 0 <= k < post.tasks@.len() implies post.task_ok(
            #[trigger] post.tasks@[k],
        ) by {
            assert(pre.task_ok(pre.tasks@[k]));
        }
    } else if exists|focus: bool| Log::draw_rel(pre, post, focus) {
        let focus = choose|focus: bool| Log::draw_rel(pre, post, focus);
        assert forall|j: int| 0 <= j < post.entries@.len() implies (
        #[trigger] post.entries@[j]).wf() by {
            assert(LogEntry::draw_step(
                pre.entries@[j],
                post.entries@[j],
                focus && j == pre.entries@.len() - 1,
            ));
        }
        assert forall|k: int| 0 <= k < post.tasks@.len() implies post.task_ok(
            #[trigger] post.tasks@[k],
        ) by {
            assert(pre.task_ok(pre.tasks@[k]));
            assert(LogEntry::draw_step(
                pre.entries@[pre.tasks@[k].entry as int],
                post.entries@[pre.tasks@[k].entry as int],
                focus && pre.tasks@[k].entry as int == pre.entries@.len() - 1,
            ));
        }
    } else {
        let (avail, r) = choose|avail: Layout, r: Layout| Log::relayout_rel(pre, post, avail, r);
        assert forall|j: int| 0 <= j < post.entries@.len() implies (
        #[trigger] post.entries@[j]).wf() by {
            assert(LogEntry::layout_step(pre.entries@[j], post.entries@[j]));
            assert(pre.entries@[j].wf());
        }
        assert forall|k: int| 0 <= k < post.tasks@.len() implies post.task_ok(
            #[trigger] post.tasks@[k],
        ) by {
            assert(pre.task_ok(pre.tasks@[k]));
            assert(LogEntry::layout_step(
                pre.entries@[pre.tasks@[k].entry as int],
                post.entries@[pre.tasks@[k].entry as int],
            ));
        }
    }
}

/// The one-shot guard makes repeated submissions harmless: after a first
/// submission on a pending entry, a second submission on the same entry —
/// with any text — changes nothing at all, and the queue's new task carries
/// the first text.
pub proof fn lemma_repeat_submission_noop(
    l0: Log,
    l1: Log,
    l2: Log,
    i: int,
    a: Seq<char>,
    b: Seq<char>,
)
    requires
        0 <= i < l0.entries@.len(),
        !l0.entries@[i].accepted,
        Log::submit_rel(l0, l1, i, a),
        Log::submit_rel(l1, l2, i, b),
    ensures
        l2 == l1,
        l1.tasks@.len() == l0.tasks@.len() + 1,
        l1.tasks@.last().entry == i,
        l1.tasks@.last().text@ == a,
{
}

/// A first submission, once its deferred task drains, fills exactly the
/// submitting entry's slot, with a session started on exactly the submitted
/// text; every other entry is untouched.
pub proof fn lemma_submission_text_reaches_slot(
    l0: Log,
    l1: Log,
    l2: Log,
    i: int,
    text: Seq<char>,
)
    requires
        0 <= i < l0.entries@.len(),
        !l0.entries@[i].accepted,
        l0.tasks@.len() == 0,
        Log::submit_rel(l0, l1, i, text),
        Log::run_task_rel(l1, l2, true),
    ensures
        l2.tasks@.len() == 0,
        l2.entries@[i].term matches Some(t) && t.is_fresh(l0.dirty, l0.font, text),
        forall|j: int| 0 <= j < l0.entries@.len() && j != i ==> l2.entries@[j] == l0.entries@[j],
{
    assert(l1.tasks@[0] == l1.tasks@.last());
}

/// A terminal slot is filled at most once: once an entry holds a session,
/// no step of the protocol empties the slot or changes the command line the
/// session was started with.
pub proof fn lemma_slot_filled_once(pre: Log, post: Log, i: int)
    requires
        pre.wf(),
        0 <= i < pre.entries@.len(),
        pre.entries@[i].term is Some,
        log_step(pre, post),
    ensures
        post.entries@[i].term is Some,
        slot_command(post.entries@[i]) == slot_command(pre.entries@[i]),
{
    if exists|j: int, text: Seq<char>| Log::submit_rel(pre, post, j, text) {
        let (j, text) = choose|j: int, text: Seq<char>| Log::submit_rel(pre, post, j, text);
        if !pre.entries@[j].accepted {
            assert(j != i);
        }
    } else if exists|ran: bool| Log::run_task_rel(pre, post, ran) {
        let ran = choose|ran: bool| Log::run_task_rel(pre, post, ran);
        if ran {
            assert(pre.task_ok(pre.tasks@[0]));
            assert(pre.tasks@[0].entry != i);
        }
    }
}

/// The focus flag the entry's active child — its terminal once one is
/// attached, its prompt's editor before that — observed in the most recent
/// draw.
pub open spec fn observed_focus(e: LogEntry) -> bool {
    match e.term {
        Some(t) => t.draws@.len() > 0 && t.draws@.last(),
        None => e.prompt.editor.draws@.len() > 0 && e.prompt.editor.draws@.last(),
    }
}

/// Key events are never delivered to any entry other than the current last
/// one: a key leaves every earlier entry untouched.
pub proof fn lemma_key_only_last(pre: Log, post: Log, ev: KeyEvent, j: int)
    requires
        Log::key_rel(pre, post, ev),
        0 <= j < pre.entries@.len() - 1,
    ensures
        post.entries@[j] == pre.entries@[j],
{
}

/// Draw focus is observed only by the last entry, and only when the
/// caller's own flag is set; every other entry observes `false`, and a
/// prompt whose entry already has a terminal observes `false` as well.
pub proof fn lemma_draw_focus_routing(pre: Log, post: Log, focus: bool, j: int)
    requires
        Log::draw_rel(pre, post, focus),
        0 <= j < pre.entries@.len(),
    ensures
        observed_focus(post.entries@[j]) == (focus && j == pre.entries@.len() - 1),
        pre.entries@[j].term is Some ==> post.entries@[j].prompt.editor.draws@.last() == false,
{
    assert(LogEntry::draw_step(
        pre.entries@[j],
        post.entries@[j],
        focus && j == pre.entries@.len() - 1,
    ));
}

/// Entry heights depend only on fields a relayout preserves, so two
/// pointwise layout-stepped sequences total the same height.
proof fn lemma_total_height_pointwise(s1: Seq<LogEntry>, s2: Seq<LogEntry>)
    requires
        s1.len() == s2.len(),
        forall|j: int|
            0 <= j < s1.len() ==> (#[trigger] s2[j]).relayout_height() == s1[j].relayout_height(),
    ensures
        total_height(s2) == total_height(s1),
    decreases s1.len(),
{
    if s1.len() > 0 {
        assert(s1.drop_last().len() == s2.drop_last().len());
        lemma_total_height_pointwise(s1.drop_last(), s2.drop_last());
    }
}

/// Relayout is idempotent: offered the same available space twice with no
/// intervening change, the log returns the same layout both times, and the
/// second pass changes no state.
pub proof fn lemma_relayout_idempotent(
    l0: Log,
    l1: Log,
    l2: Log,
    avail: Layout,
    r1: Layout,
    r2: Layout,
)
    requires
        Log::relayout_rel(l0, l1, avail, r1),
        Log::relayout_rel(l1, l2, avail, r2),
    ensures
        r2 == r1,
        l2.entries@ =~= l1.entries@,
        l2.layout == l1.layout,
        l2.tasks == l1.tasks,
        l2.dirty == l1.dirty,
        l2.font == l1.font,
{
    assert forall|j: int| 0 <= j < l0.entries@.len() implies (#[trigger] l1.entries@[j])
        .relayout_height() == l0.entries@[j].relayout_height() by {
        assert(LogEntry::layout_step(l0.entries@[j], l1.entries@[j]));
    }
    lemma_total_height_pointwise(l0.entries@, l1.entries@);
    assert forall|j: int| 0 <= j < l1.entries@.len() implies #[trigger] l2.entries@[j]
        == l1.entries@[j] by {
        assert(LogEntry::layout_step(l0.entries@[j], l1.entries@[j]));
        assert(LogEntry::layout_step(l1.entries@[j], l2.entries@[j]));
        assert(l2.entries@[j].prompt.editor == l1.entries@[j].prompt.editor);
        match l1.entries@[j].term {
            Some(t1) => {
                assert(l2.entries@[j].term matches Some(t2) && t2 == t1);
            },
            None => {
                assert(l2.entries@[j].term is None);
            },
        }
        assert(l2.entries@[j].layout == l1.entries@[j].layout);
    }
}

/// With the total within the coordinate range — true of every real screen —
/// the height the log's relayout reports is exactly the sum of the heights
/// each entry's own relayout returned.
pub proof fn lemma_relayout_total_height(l0: Log, l1: Log, avail: Layout, r: Layout)
    requires
        Log::relayout_rel(l0, l1, avail, r),
        total_height(l0.entries@) <= i64::MAX,
    ensures
        r.height == total_height(l0.entries@),
        r.width == avail.width,
{
}

/// The total height of well-formed entries is never negative.
pub proof fn lemma_total_height_nonneg(s: Seq<LogEntry>)
    requires
        forall|j: int| 0 <= j < s.len() ==> (#[trigger] s[j]).wf(),
    ensures
        total_height(s) >= 0,
    decreases s.len(),
{
    if s.len() > 0 {
        lemma_total_height_nonneg(s.drop_last());
        assert(s.last().wf());
    }
}

} // verus!
