//! A cursor over the graph: it remembers at most one node by name and can
//! move along a named edge of that node. A pin never holds an alias into
//! the graph, so the node it points at may be deleted out from under it;
//! the operations detect and report that lazily.

use vstd::prelude::*;
use crate::graph::Graph;

verus! {

/// A cursor holding the name of the node it currently occupies, or none.
#[derive(Debug)]
pub struct Pin {
    pub current: Option<String>,
}

/// What specifications see of a pin: the current node name, if any.
pub struct PinView {
    pub current: Option<Seq<char>>,
}

impl View for Pin {
    type V = PinView;

    open spec fn view(&self) -> PinView {
        PinView {
            current: match self.current {
                Option::None => Option::None,
                Option::Some(c) => Option::Some(c@),
            },
        }
    }
}

impl Clone for Pin {
    fn clone(&self) -> (res: Self)
        ensures
            res == *self,
    {
        Pin {
            current: match &self.current {
                Option::None => Option::None,
                Option::Some(c) => Option::Some(c.clone()),
            },
        }
    }
}

/// How a move along an edge ended.
#[derive(Debug, PartialEq, Eq)]
pub enum MoveOutcome {
    /// The cursor stands on the edge's target now.
    Moved,
    /// No current node is set; nothing changed.
    NoCurrent,
    /// The current node name no longer resolves in the graph; nothing
    /// changed.
    CurrentMissing,
    /// The current node has no edge of that name; nothing changed.
    NoSuchEdge,
}

/// How listing the neighbours ended.
#[derive(Debug, PartialEq, Eq)]
pub enum NeighboursOutcome {
    /// Every (edge name, neighbour name) pair of the current node, in
    /// stored order.
    Listed(Vec<(String, String)>),
    /// No current node is set.
    NoCurrent,
    /// The current node name no longer resolves in the graph.
    CurrentMissing,
}

impl Pin {
    /// A pin starting at the given node name, or nowhere.
    pub fn new(current: Option<String>) -> (p: Pin)
        ensures
            p.current == current,
    {
        Pin { current }
    }

    /// The name of the current node, or `None`.
    pub fn print_current(&self) -> (r: Option<String>)
        ensures
            r == self.current,
    {
        match &self.current {
            Option::None => Option::None,
            Option::Some(c) => Option::Some(c.clone()),
        }
    }

    /// Moves the cursor along the edge named `path` of its current node.
    /// Fails without changing anything when no current node is set, when
    /// the current node is gone from the graph, or when it has no edge of
    /// that name.
    pub fn move_to(&mut self, graph: &Graph, path: String) -> (r: MoveOutcome)
        requires
            graph.wf(),
        ensures
            old(self)@.current is None ==> r == MoveOutcome::NoCurrent && *final(self) == *old(self),
            ({
                let cur = old(self)@.current;
                &&& (cur is Some && !graph@.contains_key(cur.unwrap())) ==> (r
                    == MoveOutcome::CurrentMissing && *final(self) == *old(self))
                &&& (cur is Some && graph@.contains_key(cur.unwrap()) && !graph@[cur.unwrap()].edges.contains_key(
                    path@,
                )) ==> (r == MoveOutcome::NoSuchEdge && *final(self) == *old(self))
                &&& (cur is Some && graph@.contains_key(cur.unwrap())
                    && graph@[cur.unwrap()].edges.contains_key(path@)) ==> (r
                    == MoveOutcome::Moved && final(self)@.current == Some(
                    graph@[cur.unwrap()].edges[path@],
                ))
            }),
    {
        let cname = match &self.current {
            Option::None => {
                return MoveOutcome::NoCurrent;
            },
            Option::Some(c) => c.clone(),
        };
        match graph.nodes.get(cname.as_str()) {
            Option::None => MoveOutcome::CurrentMissing,
            Option::Some(node) => match node.edges.get(path.as_str()) {
                Option::None => MoveOutcome::NoSuchEdge,
                Option::Some(t) => {
                    self.current = Option::Some(t.clone());
                    MoveOutcome::Moved
                },
            },
        }
    }

    /// Lists every (edge name, neighbour name) pair of the current node.
    /// Fails when no current node is set or when the current node is gone
    /// from the graph; never silently returns an empty list for a missing
    /// node.
    pub fn show_neighbours(&self, graph: &Graph) -> (r: NeighboursOutcome)
        requires
            graph.wf(),
        ensures
            self@.current is None ==> r == NeighboursOutcome::NoCurrent,
            ({
                let cur = self@.current;
                &&& (cur is Some && !graph@.contains_key(cur.unwrap())) ==> r
                    == NeighboursOutcome::CurrentMissing
                &&& (cur is Some && graph@.contains_key(cur.unwrap())) ==> (r matches
                    NeighboursOutcome::Listed(v) && {
                    let entries = graph.nodes.spec_at(cur.unwrap()).edges.entries();
                    &&& v@.len() == entries.len()
                    &&& forall|i: int|
                        0 <= i < entries.len() ==> v@[i].0@ == entries[i].0@ && v@[i].1@
                            == entries[i].1@
                })
            }),
    {
        let cname = match &self.current {
            Option::None => {
                return NeighboursOutcome::NoCurrent;
            },
            Option::Some(c) => c.clone(),
        };
        let node = match graph.nodes.get(cname.as_str()) {
            Option::None => {
                return NeighboursOutcome::CurrentMissing;
            },
            Option::Some(node) => node,
        };
        let n = node.edges.len();
        let mut v: Vec<(String, String)> = Vec::new();
        let mut i: usize = 0;
        while i < n
            invariant
                n == node.edges.entries().len(),
                i <= n,
                v@.len() == i,
                forall|j: int|
                    0 <= j < i ==> v@[j].0@ == node.edges.entries()[j].0@ && v@[j].1@
                        == node.edges.entries()[j].1@,
            decreases n - i,
        {
            let e = node.edges.key_at(i).clone();
            let t = node.edges.value_at(i).clone();
            v.push((e, t));
            i = i + 1;
        }
        NeighboursOutcome::Listed(v)
    }
}

} // verus!
