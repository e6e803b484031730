use graph_editor::graph::Graph;
use graph_editor::pin::{MoveOutcome, NeighboursOutcome, Pin};
use graph_editor::visitor::Visitor;

fn two_node_graph() -> Graph {
    let mut g = Graph::new();
    g.add_node("A".to_string());
    g.add_node("B".to_string());
    assert!(g.add_edge("A".to_string(), "B".to_string(), "e1".to_string()));
    g
}

#[test]
fn pin_without_current_fails_move_and_listing() {
    let g = two_node_graph();
    let mut p = Pin::new(None);
    assert_eq!(p.move_to(&g, "e1".to_string()), MoveOutcome::NoCurrent);
    assert_eq!(p.current, None);
    assert!(matches!(p.show_neighbours(&g), NeighboursOutcome::NoCurrent));
    assert_eq!(p.print_current(), None);
}

#[test]
fn pin_move_along_missing_edge_is_a_no_op() {
    let g = two_node_graph();
    let mut p = Pin::new(Some("A".to_string()));
    assert_eq!(p.move_to(&g, "nope".to_string()), MoveOutcome::NoSuchEdge);
    assert_eq!(p.current.as_deref(), Some("A"));
}

#[test]
fn pin_move_follows_edge() {
    let g = two_node_graph();
    let mut p = Pin::new(Some("A".to_string()));
    assert_eq!(p.move_to(&g, "e1".to_string()), MoveOutcome::Moved);
    assert_eq!(p.current.as_deref(), Some("B"));
    assert_eq!(p.move_to(&g, "e1".to_string()), MoveOutcome::Moved);
    assert_eq!(p.current.as_deref(), Some("A"), "the edge is symmetric");
}

#[test]
fn pin_on_deleted_node_reports_missing() {
    let mut g = two_node_graph();
    let mut p = Pin::new(Some("A".to_string()));
    assert!(g.remove_node("A"));
    assert_eq!(p.move_to(&g, "e1".to_string()), MoveOutcome::CurrentMissing);
    assert_eq!(p.current.as_deref(), Some("A"), "the dangling state is kept as-is");
    assert!(matches!(p.show_neighbours(&g), NeighboursOutcome::CurrentMissing));
}

#[test]
fn pin_lists_neighbours_in_stored_order() {
    let mut g = two_node_graph();
    g.add_node("C".to_string());
    assert!(g.add_edge("A".to_string(), "C".to_string(), "e2".to_string()));
    let p = Pin::new(Some("A".to_string()));
    match p.show_neighbours(&g) {
        NeighboursOutcome::Listed(pairs) => {
            let got: Vec<(String, String)> = pairs;
            assert_eq!(got.len(), 2);
            assert!(got.contains(&("e1".to_string(), "B".to_string())));
            assert!(got.contains(&("e2".to_string(), "C".to_string())));
        },
        other => panic!("expected a listing, got {other:?}"),
    }
}

#[test]
fn visitor_moves_and_lists() {
    let g = two_node_graph();
    let mut v = Visitor::new("A".to_string());
    assert_eq!(v.print_current(), "A");
    assert_eq!(v.move_to(&g, "e1".to_string()), MoveOutcome::Moved);
    assert_eq!(v.current, "B");
    assert_eq!(v.move_to(&g, "nope".to_string()), MoveOutcome::NoSuchEdge);
    assert_eq!(v.current, "B");
    match v.show_neighbours(&g) {
        NeighboursOutcome::Listed(pairs) => {
            assert_eq!(pairs, vec![("e1".to_string(), "A".to_string())]);
        },
        other => panic!("expected a listing, got {other:?}"),
    }
}

#[test]
fn visitor_on_deleted_node_reports_missing() {
    let mut g = two_node_graph();
    let mut v = Visitor::new("B".to_string());
    assert!(g.remove_node("B"));
    assert_eq!(v.move_to(&g, "e1".to_string()), MoveOutcome::CurrentMissing);
    assert_eq!(v.current, "B");
    assert!(matches!(v.show_neighbours(&g), NeighboursOutcome::CurrentMissing));
}
