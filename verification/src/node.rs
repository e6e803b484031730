//! A vertex of the graph: a name plus a map from edge name to the name of
//! the neighbour that edge leads to. Cross-references between nodes are
//! always expressed by name, never by alias, so the graph alone owns every
//! node.

use vstd::prelude::*;
use crate::dict::Dict;

verus! {

/// A named vertex with named outgoing edges.
pub struct Node {
    pub name: String,
    pub edges: Dict<String>,
}

/// What specifications see of a node.
#[verifier::ext_equal]
pub struct NodeView {
    pub name: Seq<char>,
    pub edges: Map<Seq<char>, Seq<char>>,
}

impl View for Node {
    type V = NodeView;

    open spec fn view(&self) -> NodeView {
        NodeView { name: self.name@, edges: self.edges@ }
    }
}

impl Node {
    /// The edge map keeps pairwise distinct edge names.
    pub open spec fn wf(&self) -> bool {
        self.edges.wf()
    }

    /// A node with the given name and edges.
    pub fn new(name: String, edges: Dict<String>) -> (n: Node)
        ensures
            n.name == name,
            n.edges == edges,
            n@ == (NodeView { name: name@, edges: edges@ }),
    {
        Node { name, edges }
    }
}

} // verus!
