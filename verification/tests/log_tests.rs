use logview::boundary::DirtySignal;
use logview::boundary::FontMetrics;
use logview::boundary::KeyEvent;
use logview::editor::LineEditor;
use logview::geom::Layout;
use logview::log::Log;
use logview::log::LogEntry;
use logview::prompt::Prompt;
use logview::surface::DrawCmd;
use logview::surface::Surface;

fn dirty() -> DirtySignal {
    DirtySignal { id: 7 }
}

fn font() -> FontMetrics {
    FontMetrics { cell_width: 8, cell_height: 16 }
}

fn fresh_log() -> Log {
    Log::new(dirty(), font())
}

#[test]
fn construction_seeds_one_pending_entry() {
    let log = fresh_log();
    assert_eq!(log.entries.len(), 1);
    assert!(log.entries[0].term.is_none());
    assert!(!log.entries[0].accepted);
    assert!(log.tasks.is_empty());
}

#[test]
fn initial_relayout_is_prompt_only() {
    // The single pending entry's height is its prompt's: the editor's one
    // text cell plus the fixed margin of 10.
    let mut log = fresh_log();
    let r = log.relayout(Layout { width: 800, height: 600 });
    assert_eq!(r.width, 800);
    assert_eq!(r.height, 16 + 10);
    assert_eq!(log.get_layout(), r);
}

#[test]
fn submission_fills_slot_but_does_not_grow_log() {
    // Growth is gated on terminal completion, not on submission: after the
    // deferred task drains, the slot is filled and the length is still 1.
    let mut log = fresh_log();
    log.submit(0, String::from("ls"));
    assert_eq!(log.entries.len(), 1);
    assert!(log.entries[0].term.is_none(), "terminal must wait for the task drain");
    assert_eq!(log.tasks.len(), 1);
    assert!(log.run_next_task());
    assert!(!log.run_next_task());
    assert_eq!(log.entries.len(), 1);
    let term = log.entries[0].term.as_ref().expect("slot filled after drain");
    assert_eq!(term.command, "ls");
}

#[test]
fn terminal_completion_grows_log_with_pending_entry() {
    let mut log = fresh_log();
    log.submit(0, String::from("ls"));
    log.run_next_task();
    // The terminal session's completion callback fires:
    log.new_entry();
    assert_eq!(log.entries.len(), 2);
    assert!(log.entries[1].term.is_none());
    assert!(!log.entries[1].accepted);
}

#[test]
fn repeated_submission_keeps_first_text_only() {
    // Two consecutive submission callbacks with "a" then "b": exactly one
    // terminal session is created, constructed with "a".
    let mut log = fresh_log();
    log.submit(0, String::from("a"));
    log.submit(0, String::from("b"));
    assert_eq!(log.tasks.len(), 1);
    assert!(log.run_next_task());
    assert!(!log.run_next_task());
    let term = log.entries[0].term.as_ref().expect("one session created");
    assert_eq!(term.command, "a");
}

#[test]
fn entry_count_is_cycles_plus_one() {
    // N completed submission-exit cycles leave N+1 entries.
    let mut log = fresh_log();
    for n in 0..3 {
        let last = log.entries.len() - 1;
        log.submit(last, format!("cmd{}", n));
        assert!(log.run_next_task());
        log.new_entry();
    }
    assert_eq!(log.entries.len(), 4);
}

#[test]
fn keys_reach_only_the_last_entry() {
    let mut log = fresh_log();
    log.new_entry();
    log.new_entry();
    log.key(KeyEvent { code: 42 });
    assert!(log.entries[0].prompt.editor.keys.is_empty());
    assert!(log.entries[1].prompt.editor.keys.is_empty());
    assert_eq!(log.entries[2].prompt.editor.keys, vec![KeyEvent { code: 42 }]);
}

#[test]
fn keys_reach_terminal_once_attached() {
    let mut log = fresh_log();
    log.submit(0, String::from("top"));
    log.run_next_task();
    log.key(KeyEvent { code: 13 });
    assert!(log.entries[0].prompt.editor.keys.is_empty());
    let term = log.entries[0].term.as_ref().unwrap();
    assert_eq!(term.keys, vec![KeyEvent { code: 13 }]);
}

#[test]
fn draw_focus_goes_to_last_entry_only() {
    let mut log = fresh_log();
    log.new_entry();
    let mut surface = Surface::new();
    log.draw(&mut surface, true);
    assert_eq!(log.entries[0].prompt.editor.draws, vec![false]);
    assert_eq!(log.entries[1].prompt.editor.draws, vec![true]);
}

#[test]
fn draw_focus_false_is_never_promoted() {
    let mut log = fresh_log();
    log.new_entry();
    let mut surface = Surface::new();
    log.draw(&mut surface, false);
    assert_eq!(log.entries[0].prompt.editor.draws, vec![false]);
    assert_eq!(log.entries[1].prompt.editor.draws, vec![false]);
}

#[test]
fn prompt_loses_focus_to_its_terminal() {
    let mut log = fresh_log();
    log.submit(0, String::from("vi"));
    log.run_next_task();
    let mut surface = Surface::new();
    log.draw(&mut surface, true);
    let entry = &log.entries[0];
    assert_eq!(entry.prompt.editor.draws, vec![false]);
    assert_eq!(entry.term.as_ref().unwrap().draws, vec![true]);
}

#[test]
fn relayout_is_idempotent() {
    let mut log = fresh_log();
    log.submit(0, String::from("make"));
    log.run_next_task();
    log.new_entry();
    let avail = Layout { width: 640, height: 480 };
    let first = log.relayout(avail);
    let second = log.relayout(avail);
    assert_eq!(first, second);
    assert_eq!(log.get_layout(), second);
}

#[test]
fn relayout_totals_entry_heights() {
    // One active entry (prompt 26 high plus terminal 16 high) and one
    // pending entry (prompt only, 26 high).
    let mut log = fresh_log();
    log.submit(0, String::from("ps"));
    log.run_next_task();
    log.new_entry();
    let r = log.relayout(Layout { width: 800, height: 600 });
    assert_eq!(r.width, 800);
    assert_eq!(r.height, (26 + 16) + 26);
}

#[test]
fn relayout_tracks_changed_child_sizes() {
    let mut log = fresh_log();
    let r1 = log.relayout(Layout { width: 800, height: 600 });
    assert_eq!(r1.height, 26);
    log.entries[0].prompt.editor.set_natural(Layout { width: 100, height: 48 });
    let r2 = log.relayout(Layout { width: 800, height: 600 });
    assert_eq!(r2.height, 48 + 10);
}

#[test]
fn relayout_tolerates_zero_space() {
    let mut log = fresh_log();
    log.new_entry();
    let r = log.relayout(Layout { width: 0, height: 0 });
    assert_eq!(r.width, 0);
    assert_eq!(r.height, 26 + 26);
}

#[test]
fn draw_emits_glyph_translation_and_stacking() {
    let mut log = fresh_log();
    log.relayout(Layout { width: 800, height: 600 });
    let mut surface = Surface::new();
    log.draw(&mut surface, true);
    // Prompt height is 26: triangle (5,8) (13,13) (5,18), editor drawn at
    // (18,5), then the origin moves down by the entry's height.
    assert_eq!(
        surface.cmds,
        vec![
            DrawCmd::Save,
            DrawCmd::Save,
            DrawCmd::MoveTo { x: 5, y: 8 },
            DrawCmd::LineTo { x: 13, y: 13 },
            DrawCmd::LineTo { x: 5, y: 18 },
            DrawCmd::Fill,
            DrawCmd::Translate { dx: 18, dy: 5 },
            DrawCmd::Restore,
            DrawCmd::Translate { dx: 0, dy: 26 },
            DrawCmd::Restore,
        ]
    );
}

#[test]
fn draw_of_active_entry_translates_under_prompt() {
    let mut log = fresh_log();
    log.submit(0, String::from("ls"));
    log.run_next_task();
    log.relayout(Layout { width: 800, height: 600 });
    let mut surface = Surface::new();
    log.draw(&mut surface, true);
    assert_eq!(
        surface.cmds,
        vec![
            DrawCmd::Save,
            DrawCmd::Save,
            DrawCmd::MoveTo { x: 5, y: 8 },
            DrawCmd::LineTo { x: 13, y: 13 },
            DrawCmd::LineTo { x: 5, y: 18 },
            DrawCmd::Fill,
            DrawCmd::Translate { dx: 18, dy: 5 },
            DrawCmd::Restore,
            // the terminal renders below the prompt, bracketed:
            DrawCmd::Save,
            DrawCmd::Translate { dx: 0, dy: 26 },
            DrawCmd::Restore,
            // the next sibling would start below the whole entry:
            DrawCmd::Translate { dx: 0, dy: 42 },
            DrawCmd::Restore,
        ]
    );
}

#[test]
fn entry_relayout_caches_combined_layout() {
    let mut entry = LogEntry::new(dirty(), font());
    let r = entry.relayout(Layout { width: 500, height: 300 });
    assert_eq!(r, Layout { width: 8 + 20, height: 16 + 10 });
    assert_eq!(entry.get_layout(), r);
}

#[test]
fn prompt_glyph_is_centered_for_odd_heights() {
    let mut prompt = Prompt::new(LineEditor::new(dirty(), font()));
    prompt.editor.set_natural(Layout { width: 8, height: 15 });
    prompt.relayout(Layout { width: 100, height: 100 });
    let mut surface = Surface::new();
    prompt.draw(&mut surface, true);
    // Prompt height is 25; the glyph's middle vertex sits at 25 / 2.
    assert_eq!(
        surface.cmds,
        vec![
            DrawCmd::Save,
            DrawCmd::MoveTo { x: 5, y: 8 },
            DrawCmd::LineTo { x: 13, y: 12 },
            DrawCmd::LineTo { x: 5, y: 17 },
            DrawCmd::Fill,
            DrawCmd::Translate { dx: 18, dy: 5 },
            DrawCmd::Restore,
        ]
    );
    assert_eq!(prompt.editor.draws, vec![true]);
}

#[test]
fn earlier_entry_submission_fills_its_own_slot() {
    let mut log = fresh_log();
    log.new_entry();
    log.submit(0, String::from("old"));
    assert!(log.run_next_task());
    assert!(log.entries[0].term.is_some());
    assert!(log.entries[1].term.is_none());
}

#[test]
fn deferred_tasks_run_in_fifo_order() {
    let mut log = fresh_log();
    log.new_entry();
    log.submit(0, String::from("first"));
    log.submit(1, String::from("second"));
    assert!(log.run_next_task());
    assert!(log.entries[0].term.is_some());
    assert!(log.entries[1].term.is_none());
    assert!(log.run_next_task());
    assert_eq!(log.entries[0].term.as_ref().unwrap().command, "first");
    assert_eq!(log.entries[1].term.as_ref().unwrap().command, "second");
}

#[test]
fn layout_add_is_plain_integer_arithmetic() {
    let zero = Layout::new();
    assert_eq!(zero, Layout { width: 0, height: 0 });
    let l = Layout { width: 30, height: 40 }.add(-20, -10);
    assert_eq!(l, Layout { width: 10, height: 30 });
    let n = Layout { width: 5, height: 5 }.add(-20, -10);
    assert_eq!(n, Layout { width: -15, height: -5 });
}
