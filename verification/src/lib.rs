//! An in-memory, named, undirected graph that a user edits and walks
//! interactively: nodes and symmetric named edges live in a [`graph::Graph`],
//! movable cursors ([`pin::Pin`]) track a position by node name, and a small
//! line-oriented command language (tokenizer, parser, executor under
//! [`cmd_editor`]) turns input lines into graph and pin mutations.
//!
//! All state-changing logic is verified; reading lines and printing feedback
//! is left to the embedding program, which drives
//! `CommandLineEditor::submit_line` and renders the returned notes.

pub mod cmd_editor;
pub mod dict;
pub mod graph;
pub mod node;
pub mod pin;
pub mod strutil;
pub mod visitor;
