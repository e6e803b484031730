//! The older cursor variant: like a pin, but it always names a current
//! node (which may still have been deleted out from under it).

use vstd::prelude::*;
use crate::graph::Graph;
use crate::pin::{MoveOutcome, NeighboursOutcome};

verus! {

/// A cursor that always holds the name of a node.
pub struct Visitor {
    pub current: String,
}

impl Visitor {
    /// A visitor standing at the given node name.
    pub fn new(current: String) -> (v: Visitor)
        ensures
            v.current == current,
    {
        Visitor { current }
    }

    /// The name of the current node.
    pub fn print_current(&self) -> (r: String)
        ensures
            r == self.current,
    {
        self.current.clone()
    }

    /// Moves the cursor along the edge named `path` of its current node.
    /// Fails without changing anything when the current node is gone from
    /// the graph or has no edge of that name.
    pub fn move_to(&mut self, graph: &Graph, path: String) -> (r: MoveOutcome)
        requires
            graph.wf(),
        ensures
            !graph@.contains_key(old(self).current@) ==> (r == MoveOutcome::CurrentMissing
                && *final(self) == *old(self)),
            graph@.contains_key(old(self).current@)
                && !graph@[old(self).current@].edges.contains_key(path@) ==> (r
                == MoveOutcome::NoSuchEdge && *final(self) == *old(self)),
            graph@.contains_key(old(self).current@)
                && graph@[old(self).current@].edges.contains_key(path@) ==> (r
                == MoveOutcome::Moved && final(self).current@
                == graph@[old(self).current@].edges[path@]),
    {
        match graph.nodes.get(self.current.as_str()) {
            Option::None => MoveOutcome::CurrentMissing,
            Option::Some(node) => match node.edges.get(path.as_str()) {
                Option::None => MoveOutcome::NoSuchEdge,
                Option::Some(t) => {
                    self.current = t.clone();
                    MoveOutcome::Moved
                },
            },
        }
    }

    /// Lists every (edge name, neighbour name) pair of the current node.
    /// Fails when the current node is gone from the graph.
    pub fn show_neighbours(&self, graph: &Graph) -> (r: NeighboursOutcome)
        requires
            graph.wf(),
        ensures
            !graph@.contains_key(self.current@) ==> r == NeighboursOutcome::CurrentMissing,
            graph@.contains_key(self.current@) ==> (r matches NeighboursOutcome::Listed(v) && {
                let entries = graph.nodes.spec_at(self.current@).edges.entries();
                &&& v@.len() == entries.len()
                &&& forall|i: int|
                    0 <= i < entries.len() ==> v@[i].0@ == entries[i].0@ && v@[i].1@
                        == entries[i].1@
            }),
    {
        let node = match graph.nodes.get(self.current.as_str()) {
            Option::None => {
                return NeighboursOutcome::CurrentMissing;
            },
            Option::Some(node) => node,
        };
        let n = node.edges.len();
        let mut v: Vec<(String, String)> = Vec::new();
        let mut i: usize = 0;
        while i < n
            invariant
                n == node.edges.entries().len(),
                i <= n,
                v@.len() == i,
                forall|j: int|
                    0 <= j < i ==> v@[j].0@ == node.edges.entries()[j].0@ && v@[j].1@
                        == node.edges.entries()[j].1@,
            decreases n - i,
        {
            let e = node.edges.key_at(i).clone();
            let t = node.edges.value_at(i).clone();
            v.push((e, t));
            i = i + 1;
        }
        NeighboursOutcome::Listed(v)
    }
}

} // verus!
