use graph_editor::graph::Graph;

fn edge_target(g: &Graph, node: &str, edge: &str) -> Option<String> {
    g.nodes.get(node).and_then(|n| n.edges.get(edge)).cloned()
}

#[test]
fn add_node_creates_empty_node() {
    let mut g = Graph::new();
    g.add_node("A".to_string());
    let a = g.nodes.get("A").expect("node A should exist");
    assert_eq!(a.name, "A");
    assert_eq!(a.edges.len(), 0);
}

#[test]
fn add_edge_writes_both_directions() {
    let mut g = Graph::new();
    g.add_node("A".to_string());
    g.add_node("B".to_string());
    let ok = g.add_edge("A".to_string(), "B".to_string(), "e1".to_string());
    assert!(ok);
    assert_eq!(edge_target(&g, "A", "e1").as_deref(), Some("B"));
    assert_eq!(edge_target(&g, "B", "e1").as_deref(), Some("A"));
}

#[test]
fn add_edge_missing_node_changes_nothing() {
    let mut g = Graph::new();
    g.add_node("A".to_string());
    let ok = g.add_edge("A".to_string(), "missing".to_string(), "e1".to_string());
    assert!(!ok);
    let a = g.nodes.get("A").unwrap();
    assert_eq!(a.edges.len(), 0);
    assert!(g.nodes.get("missing").is_none());
}

#[test]
fn edge_round_trip_leaves_neither_side() {
    let mut g = Graph::new();
    g.add_node("A".to_string());
    g.add_node("B".to_string());
    assert!(g.add_edge("A".to_string(), "B".to_string(), "e".to_string()));
    assert!(g.remove_edge("A", "e"));
    assert!(edge_target(&g, "A", "e").is_none());
    assert!(edge_target(&g, "B", "e").is_none());
}

#[test]
fn self_loop_round_trip() {
    let mut g = Graph::new();
    g.add_node("A".to_string());
    assert!(g.add_edge("A".to_string(), "A".to_string(), "loop".to_string()));
    assert_eq!(edge_target(&g, "A", "loop").as_deref(), Some("A"));
    assert!(g.remove_edge("A", "loop"));
    assert!(edge_target(&g, "A", "loop").is_none());
}

#[test]
fn remove_edge_reports_missing() {
    let mut g = Graph::new();
    g.add_node("A".to_string());
    assert!(!g.remove_edge("A", "nope"));
    assert!(!g.remove_edge("ghost", "nope"));
}

#[test]
fn remove_node_erases_back_references() {
    let mut g = Graph::new();
    for name in ["A", "B", "C"] {
        g.add_node(name.to_string());
    }
    assert!(g.add_edge("A".to_string(), "B".to_string(), "e1".to_string()));
    assert!(g.add_edge("A".to_string(), "C".to_string(), "e2".to_string()));
    assert!(g.add_edge("B".to_string(), "C".to_string(), "e3".to_string()));
    assert!(g.remove_node("A"));
    assert!(g.nodes.get("A").is_none());
    for name in ["B", "C"] {
        let node = g.nodes.get(name).unwrap();
        let count = node.edges.len();
        for i in 0..count {
            assert_ne!(node.edges.value_at(i).as_str(), "A", "{name} still references A");
        }
    }
    assert_eq!(edge_target(&g, "B", "e3").as_deref(), Some("C"));
    assert_eq!(edge_target(&g, "C", "e3").as_deref(), Some("B"));
}

#[test]
fn remove_node_missing_reports_false() {
    let mut g = Graph::new();
    g.add_node("A".to_string());
    assert!(!g.remove_node("Z"));
    assert!(g.nodes.get("A").is_some());
}

#[test]
fn add_node_replaces_and_orphans() {
    let mut g = Graph::new();
    g.add_node("X".to_string());
    g.add_node("Y".to_string());
    assert!(g.add_edge("X".to_string(), "Y".to_string(), "e1".to_string()));
    g.add_node("X".to_string());
    let x = g.nodes.get("X").unwrap();
    assert_eq!(x.edges.len(), 0, "replacement starts with an empty edge map");
    assert_eq!(edge_target(&g, "Y", "e1").as_deref(), Some("X"), "the old back-edge dangles");
}
