//! Composition core of a terminal-in-a-window shell log: a vertically
//! growing sequence of entries, each starting as an input prompt and, once a
//! command line is submitted, gaining an embedded terminal session below the
//! prompt.  This crate verifies the structural layer above the widgets: how
//! available space is partitioned top-to-bottom, how key input and draw focus
//! are routed to the most recent entry only, and the exactly-once transition
//! by which a prompt becomes a live terminal, deferred through a task queue
//! so that it never re-enters the event dispatch that triggered it.
//!
//! The line-editing widget, the terminal emulator, and the windowing toolkit
//! are outside collaborators; the `editor` and `session` modules model them
//! at their interface boundary (reported sizes, delivered keys, observed
//! focus), and the `surface` module records the drawing-surface primitives
//! the core itself issues.

pub mod boundary;
pub mod editor;
pub mod geom;
pub mod laws;
pub mod log;
pub mod prompt;
pub mod session;
pub mod surface;
