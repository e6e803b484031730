use graph_editor::cmd_editor::{CommandLineEditor, Note, PinSelectorError};
use graph_editor::cmd_editor::executer::Command;
use graph_editor::pin::Pin;

fn submit(ed: &mut CommandLineEditor, line: &str) -> (bool, Vec<Note>) {
    ed.submit_line(line.to_string())
}

fn pin_current(ed: &CommandLineEditor, pin: &str) -> Option<String> {
    ed.pins.get(pin).expect("pin should exist").current.clone()
}

#[test]
fn exit_signals_termination() {
    let mut ed = CommandLineEditor::new();
    let (exit, notes) = submit(&mut ed, "exit");
    assert!(exit);
    assert!(notes.is_empty());
    let (exit2, _) = submit(&mut ed, "node A");
    assert!(!exit2);
    let (exit3, _) = submit(&mut ed, "esc");
    assert!(exit3);
}

#[test]
fn move_scenario_follows_edge_once() {
    let mut ed = CommandLineEditor::new();
    submit(&mut ed, "node A");
    submit(&mut ed, "node B");
    submit(&mut ed, "edge A B e1");
    submit(&mut ed, "pin p1 A");
    assert_eq!(pin_current(&ed, "p1").as_deref(), Some("A"));

    let (_, notes) = submit(&mut ed, "move p1 e1");
    assert!(notes.is_empty());
    assert_eq!(pin_current(&ed, "p1").as_deref(), Some("B"));

    // B's side of the symmetric edge is also named e1, so the same move
    // walks back; a genuinely unknown edge name fails and stays put.
    let (_, notes2) = submit(&mut ed, "move p1 e9");
    assert!(
        notes2
            .iter()
            .any(|n| matches!(n, Note::PathMissing(e, c) if e == "e9" && c == "B"))
    );
    assert_eq!(pin_current(&ed, "p1").as_deref(), Some("B"));
}

#[test]
fn listneighbours_after_removal_reports_not_found() {
    let mut ed = CommandLineEditor::new();
    submit(&mut ed, "node A");
    submit(&mut ed, "node B");
    submit(&mut ed, "edge A B e1");
    submit(&mut ed, "pin p1 A");
    submit(&mut ed, "sw p1");
    let (_, notes) = submit(&mut ed, "removenode A");
    assert!(notes.iter().any(|n| matches!(n, Note::NodeRemoved(s) if s == "A")));
    let (_, notes2) = submit(&mut ed, "listneighbours");
    assert!(
        notes2
            .iter()
            .any(|n| matches!(n, Note::CurrentNodeMissing(s) if s == "A")),
        "a missing node is reported, not silently listed as empty"
    );
    assert!(!notes2.iter().any(|n| matches!(n, Note::Neighbours(_))));
}

#[test]
fn address_resolution_overwrites_existing_node() {
    let mut ed = CommandLineEditor::new();
    submit(&mut ed, "node X");
    submit(&mut ed, "node Y");
    submit(&mut ed, "edge X Y e1");
    submit(&mut ed, "pin p1 X");
    // `node @p1` resolves to "X" and silently replaces the existing node:
    // the new X starts with an empty edge map.
    let (_, notes) = submit(&mut ed, "node @p1");
    assert!(notes.is_empty());
    let x = ed.graph.nodes.get("X").expect("X still exists");
    assert_eq!(x.edges.len(), 0, "the replacement has no edges");
    let y = ed.graph.nodes.get("Y").expect("Y still exists");
    assert_eq!(y.edges.get("e1").map(String::as_str), Some("X"), "Y's edge now dangles at the new X");
}

#[test]
fn current_without_selection_is_an_error() {
    let mut ed = CommandLineEditor::new();
    assert_eq!(ed.current_pin().unwrap_err(), PinSelectorError::NoCurrentPin);
    let (_, notes) = submit(&mut ed, "current");
    assert!(notes.iter().any(|n| matches!(n, Note::NoCurrentPin)));
}

#[test]
fn switch_and_current_report_pin_position() {
    let mut ed = CommandLineEditor::new();
    submit(&mut ed, "node A");
    submit(&mut ed, "pin p1 A");
    let (_, notes) = submit(&mut ed, "sw ghost");
    assert!(notes.iter().any(|n| matches!(n, Note::PinNotFound(s) if s == "ghost")));
    submit(&mut ed, "switch p1");
    let (_, notes2) = submit(&mut ed, "current");
    assert!(
        notes2
            .iter()
            .any(|n| matches!(n, Note::CurrentNode(Some(s)) if s == "A"))
    );
    let p = ed.current_pin().expect("a pin is selected");
    assert_eq!(p.current.as_deref(), Some("A"));
}

#[test]
fn removed_selected_pin_is_reported() {
    let mut ed = CommandLineEditor::new();
    submit(&mut ed, "node A");
    submit(&mut ed, "pin p1 A");
    submit(&mut ed, "sw p1");
    let (_, notes) = submit(&mut ed, "removepin p1");
    assert!(notes.iter().any(|n| matches!(n, Note::PinRemoved(s) if s == "p1")));
    assert_eq!(ed.current_pin().unwrap_err(), PinSelectorError::CurrentPinMissing);
    let (_, notes2) = submit(&mut ed, "current");
    assert!(notes2.iter().any(|n| matches!(n, Note::CurrentPinMissing)));
}

#[test]
fn removeedge_feedback() {
    let mut ed = CommandLineEditor::new();
    submit(&mut ed, "node A");
    submit(&mut ed, "node B");
    submit(&mut ed, "edge A B e1");
    let (_, notes) = submit(&mut ed, "removeedge A e1");
    assert!(notes.iter().any(|n| matches!(n, Note::EdgeRemoved(e, s) if e == "e1" && s == "A")));
    let (_, notes2) = submit(&mut ed, "removeedge A e1");
    assert!(notes2.iter().any(|n| matches!(n, Note::EdgeNotFound(e, s) if e == "e1" && s == "A")));
}

#[test]
fn edge_between_missing_nodes_is_reported() {
    let mut ed = CommandLineEditor::new();
    submit(&mut ed, "node A");
    let (_, notes) = submit(&mut ed, "edge A Z e1");
    assert!(
        notes
            .iter()
            .any(|n| matches!(n, Note::EdgeNodesMissing(a, b) if a == "A" && b == "Z"))
    );
}

#[test]
fn move_with_unknown_pin_is_reported() {
    let mut ed = CommandLineEditor::new();
    submit(&mut ed, "node A");
    let (_, notes) = submit(&mut ed, "move ghost e1");
    assert!(notes.iter().any(|n| matches!(n, Note::PinNotFound(s) if s == "ghost")));
    assert!(ed.graph.nodes.get("A").is_some());
}

#[test]
fn move_with_dangling_pin_reports_missing_node() {
    let mut ed = CommandLineEditor::new();
    submit(&mut ed, "node A");
    submit(&mut ed, "pin p1 A");
    submit(&mut ed, "removenode A");
    let (_, notes) = submit(&mut ed, "move p1 e1");
    assert!(notes.iter().any(|n| matches!(n, Note::CurrentNodeMissing(s) if s == "A")));
    assert_eq!(pin_current(&ed, "p1").as_deref(), Some("A"));
}

#[test]
fn executor_runs_commands_directly() {
    let mut ed = CommandLineEditor::new();
    let (exit, notes) = ed.execute_command(vec![
        Command::CreateNode("A".to_string()),
        Command::RemoveNode("Z".to_string()),
        Command::Exit,
        Command::CreateNode("B".to_string()),
    ]);
    assert!(exit);
    assert!(notes.iter().any(|n| matches!(n, Note::NodeNotFound(s) if s == "Z")));
    assert!(ed.graph.nodes.get("A").is_some());
    assert!(ed.graph.nodes.get("B").is_none(), "nothing runs after Exit");
}

#[test]
fn listneighbours_lists_the_edges() {
    let mut ed = CommandLineEditor::new();
    submit(&mut ed, "node A");
    submit(&mut ed, "node B");
    submit(&mut ed, "edge A B e1");
    submit(&mut ed, "pin p1 A");
    submit(&mut ed, "sw p1");
    let (_, notes) = submit(&mut ed, "ls");
    assert!(notes.iter().any(|n| matches!(
        n,
        Note::Neighbours(pairs) if pairs == &[("e1".to_string(), "B".to_string())]
    )));
}

#[test]
fn moving_a_pin_without_current_node_is_reported() {
    let mut ed = CommandLineEditor::new();
    ed.pin("p0".to_string(), Pin::new(None));
    let (_, notes) = ed.execute_command(vec![Command::Move(
        "p0".to_string(),
        "e1".to_string(),
    )]);
    assert!(notes.iter().any(|n| matches!(n, Note::NoCurrentNode)));
    assert_eq!(pin_current(&ed, "p0"), None);
}

#[test]
fn next_free_counts_up() {
    let mut ed = CommandLineEditor::new();
    assert_eq!(ed.next_free(), "1");
    assert_eq!(ed.next_free(), "2");
    assert_eq!(ed.next_free(), "3");
}

#[test]
fn pin_method_overwrites_existing_pin() {
    let mut ed = CommandLineEditor::new();
    submit(&mut ed, "node A");
    submit(&mut ed, "node B");
    submit(&mut ed, "pin p1 A");
    submit(&mut ed, "pin p1 B");
    assert_eq!(pin_current(&ed, "p1").as_deref(), Some("B"));
}
