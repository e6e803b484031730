//! The graph store: a single owning map from node name to [`Node`]. All
//! mutation goes through the graph's methods; cursors refer to nodes by
//! name only.
//!
//! Edges are created symmetrically in one step (`add_edge` writes the same
//! edge name into both endpoints). Removing a node also erases, from every
//! neighbour the node could reach, each back-edge whose target was the
//! removed node. Adding a node under a name that is already taken silently
//! replaces the old node and leaves any edges that pointed at it dangling;
//! a pin may therefore point at a name that no longer resolves, which the
//! pin operations report when they next run.

use vstd::prelude::*;
use crate::dict::{Dict, lemma_at, scrub_map};
use crate::node::{Node, NodeView};

verus! {

/// A set of named nodes connected by named edges.
pub struct Graph {
    pub nodes: Dict<Node>,
}

impl View for Graph {
    type V = Map<Seq<char>, NodeView>;

    open spec fn view(&self) -> Map<Seq<char>, NodeView> {
        self.nodes@
    }
}

/// Whether some edge of `edges` leads to the node named `t`.
pub open spec fn is_edge_target(edges: Map<Seq<char>, Seq<char>>, t: Seq<char>) -> bool {
    exists|e: Seq<char>| edges.contains_key(e) && edges[e] == t
}

/// A node with every edge leading to `gone` erased.
pub open spec fn node_scrubbed(nv: NodeView, gone: Seq<char>) -> NodeView {
    NodeView { name: nv.name, edges: scrub_map(nv.edges, gone) }
}

/// The graph after a node is added: an empty node under `name`, replacing
/// any node that held that name before.
pub open spec fn add_node_spec(g: Map<Seq<char>, NodeView>, name: Seq<char>) -> Map<
    Seq<char>,
    NodeView,
> {
    g.insert(name, NodeView { name: name, edges: Map::empty() })
}

/// The graph after a successful symmetric connect: edge `e` leads from
/// `n1` to `n2` and from `n2` to `n1`, the second write last (so a
/// self-loop ends as one edge `e` from `n1` to itself).
pub open spec fn add_edge_spec(
    g: Map<Seq<char>, NodeView>,
    n1: Seq<char>,
    n2: Seq<char>,
    e: Seq<char>,
) -> Map<Seq<char>, NodeView>
    recommends
        g.contains_key(n1),
        g.contains_key(n2),
{
    let g1 = g.insert(n1, NodeView { name: g[n1].name, edges: g[n1].edges.insert(e, n2) });
    g1.insert(n2, NodeView { name: g1[n2].name, edges: g1[n2].edges.insert(e, n1) })
}

/// The graph after a successful edge removal: edge `e` leaves `name`'s
/// map, and as a best-effort symmetric cleanup an edge of the same name
/// leaves the map of the node the removed edge pointed to, if that node
/// still exists.
pub open spec fn remove_edge_spec(
    g: Map<Seq<char>, NodeView>,
    name: Seq<char>,
    e: Seq<char>,
) -> Map<Seq<char>, NodeView>
    recommends
        g.contains_key(name),
        g[name].edges.contains_key(e),
{
    let t = g[name].edges[e];
    let g1 = g.insert(name, NodeView { name: g[name].name, edges: g[name].edges.remove(e) });
    if g1.contains_key(t) {
        g1.insert(t, NodeView { name: g1[t].name, edges: g1[t].edges.remove(e) })
    } else {
        g1
    }
}

/// The graph after a node is removed: the node's entry is gone, and every
/// node it could reach has its back-edges to it erased.
pub open spec fn remove_node_spec(g: Map<Seq<char>, NodeView>, name: Seq<char>) -> Map<
    Seq<char>,
    NodeView,
>
    recommends
        g.contains_key(name),
{
    Map::new(
        |k: Seq<char>| g.contains_key(k) && k != name,
        |k: Seq<char>|
            if is_edge_target(g[name].edges, k) {
                node_scrubbed(g[k], name)
            } else {
                g[k]
            },
    )
}

/// The targets of the stored edge pairs up to index `i`.
spec fn prefix_target(s: Seq<(String, String)>, i: int, k: Seq<char>) -> bool {
    exists|p: int| 0 <= p < i && s[p].1@ == k
}

/// The graph part-way through a node removal: the node is gone and the
/// targets of the first `i` of its edges have been scrubbed.
spec fn partial_remove_spec(
    g: Map<Seq<char>, NodeView>,
    name: Seq<char>,
    s: Seq<(String, String)>,
    i: int,
) -> Map<Seq<char>, NodeView> {
    Map::new(
        |k: Seq<char>| g.contains_key(k) && k != name,
        |k: Seq<char>|
            if prefix_target(s, i, k) {
                node_scrubbed(g[k], name)
            } else {
                g[k]
            },
    )
}

/// A well-formed edge dictionary's map targets `k` exactly when one of its
/// stored pairs does.
proof fn lemma_targets(d: Dict<String>, k: Seq<char>)
    requires
        d.wf(),
    ensures
        is_edge_target(d@, k) <==> prefix_target(d.entries(), d.entries().len() as int, k),
{
    let n = d.entries().len() as int;
    if is_edge_target(d@, k) {
        let e = choose|e: Seq<char>| d@.contains_key(e) && d@[e] == k;
        let j = d.index_of(e);
        assert(0 <= j < n && d.entries()[j].0@ == e);
        lemma_at(d, e, j);
        assert(d.entries()[j].1@ == k);
        assert(prefix_target(d.entries(), n, k));
    }
    if prefix_target(d.entries(), n, k) {
        let p = choose|p: int| 0 <= p < n && d.entries()[p].1@ == k;
        lemma_at(d, d.entries()[p].0@, p);
        assert(d@.contains_key(d.entries()[p].0@) && d@[d.entries()[p].0@] == k);
    }
}

/// Law: for nodes `n1` and `n2` present in the graph, connecting them by
/// an edge named `e` and then removing that edge from `n1` leaves `n1`
/// without an edge named `e`, and leaves `n2` without any edge named `e`
/// (so in particular without one pointing back at `n1`): the symmetric
/// cleanup undoes the symmetric connect.
pub proof fn lemma_edge_round_trip(
    g: Map<Seq<char>, NodeView>,
    n1: Seq<char>,
    n2: Seq<char>,
    e: Seq<char>,
)
    requires
        g.contains_key(n1),
        g.contains_key(n2),
    ensures
        ({
            let g2 = remove_edge_spec(add_edge_spec(g, n1, n2, e), n1, e);
            &&& g2.contains_key(n1)
            &&& g2.contains_key(n2)
            &&& !g2[n1].edges.contains_key(e)
            &&& !g2[n2].edges.contains_key(e)
        }),
{
    let g1 = add_edge_spec(g, n1, n2, e);
    assert(g1[n1].edges[e] == n2);
}

/// Law: after a node is removed, no remaining node's edge map references
/// it, provided every edge into the node was matched by some edge out of
/// it — the state the symmetric connect operation maintains. (The proviso
/// is needed: replacing a node re-creates it with an empty edge map, so a
/// neighbour of the replaced node keeps an edge into it that the node no
/// longer answers, and removing the node then leaves that edge dangling.)
pub proof fn lemma_remove_node_no_dangling(
    g: Map<Seq<char>, NodeView>,
    n: Seq<char>,
    m: Seq<char>,
    e: Seq<char>,
)
    requires
        g.contains_key(n),
        forall|k: Seq<char>, e2: Seq<char>|
            g.contains_key(k) && #[trigger] g[k].edges.contains_key(e2) && g[k].edges[e2] == n
                ==> is_edge_target(g[n].edges, k),
        remove_node_spec(g, n).contains_key(m),
        remove_node_spec(g, n)[m].edges.contains_key(e),
    ensures
        remove_node_spec(g, n)[m].edges[e] != n,
{
    let g2 = remove_node_spec(g, n);
    if is_edge_target(g[n].edges, m) {
        assert(g2[m] == node_scrubbed(g[m], n));
    } else {
        assert(g2[m] == g[m]);
        if g[m].edges[e] == n {
            assert(is_edge_target(g[n].edges, m));
        }
    }
}

impl Graph {
    /// Every entry maps a name to a well-formed node of that very name.
    pub open spec fn wf(&self) -> bool {
        &&& self.nodes.wf()
        &&& forall|k: Seq<char>|
            self.nodes.spec_contains(k) ==> (#[trigger] self.nodes.spec_at(k)).wf()
                && self.nodes.spec_at(k).name@ == k
    }

    /// An empty graph.
    pub fn new() -> (g: Graph)
        ensures
            g.wf(),
            g@ == Map::<Seq<char>, NodeView>::empty(),
    {
        Graph { nodes: Dict::new() }
    }

    /// Adds a node with an empty edge map under `name`. A node already
    /// stored under that name is silently replaced; edges of other nodes
    /// that pointed at the old node are left dangling by design.
    pub fn add_node(&mut self, name: String)
        requires
            old(self).wf(),
        ensures
            final(self).wf(),
            final(self)@ == add_node_spec(old(self)@, name@),
    {
        let node = Node::new(name.clone(), Dict::new());
        self.nodes.insert(name, node);
        proof {
            assert(final(self)@ =~= add_node_spec(old(self)@, name@));
        }
    }

    /// Connects two existing nodes both ways under the edge name `name`.
    /// Returns whether both nodes existed; if either is missing, nothing
    /// changes.
    pub fn add_edge(&mut self, n1: String, n2: String, name: String) -> (r: bool)
        requires
            old(self).wf(),
        ensures
            final(self).wf(),
            r == (old(self)@.contains_key(n1@) && old(self)@.contains_key(n2@)),
            r ==> final(self)@ == add_edge_spec(old(self)@, n1@, n2@, name@),
            !r ==> final(self)@ == old(self)@,
    {
        let ghost pre = *self;
        if !(self.nodes.contains(n1.as_str()) && self.nodes.contains(n2.as_str())) {
            return false;
        }
        let mut node1 = self.nodes.remove(n1.as_str()).unwrap();
        node1.edges.insert(name.clone(), n2.clone());
        self.nodes.insert(n1.clone(), node1);
        proof {
            let g1 = add_edge_spec(pre@, n1@, n2@, name@);
            assert(self.nodes@ =~= pre@.insert(
                n1@,
                NodeView { name: pre@[n1@].name, edges: pre@[n1@].edges.insert(name@, n2@) },
            ));
        }
        let mut node2 = self.nodes.remove(n2.as_str()).unwrap();
        node2.edges.insert(name, n1);
        self.nodes.insert(n2, node2);
        proof {
            assert(final(self)@ =~= add_edge_spec(pre@, n1@, n2@, name@));
        }
        true
    }

    /// Removes the node stored under `name`, erasing from every node it
    /// could reach the back-edges whose target was the removed node.
    /// Returns whether a node was actually present.
    pub fn remove_node(&mut self, name: &str) -> (r: bool)
        requires
            old(self).wf(),
        ensures
            final(self).wf(),
            r == old(self)@.contains_key(name@),
            r ==> final(self)@ == remove_node_spec(old(self)@, name@),
            !r ==> final(self)@ == old(self)@,
    {
        let ghost pre = *self;
        let removed = match self.nodes.remove(name) {
            Some(node) => node,
            None => {
                proof {
                    assert(final(self)@ =~= old(self)@);
                }
                return false;
            },
        };
        let ghost s = removed.edges.entries();
        let n = removed.edges.len();
        let mut i: usize = 0;
        proof {
            assert(removed.wf());
            assert(removed@ == pre@[name@]);
            assert(self.nodes@ =~= partial_remove_spec(pre@, name@, s, 0));
        }
        while i < n
            invariant
                pre.wf(),
                pre@.contains_key(name@),
                removed == pre.nodes.spec_at(name@),
                removed@ == pre@[name@],
                s == removed.edges.entries(),
                n == s.len(),
                i <= n,
                self.wf(),
                self.nodes@ == partial_remove_spec(pre@, name@, s, i as int),
            decreases n - i,
        {
            let target = removed.edges.value_at(i);
            let ghost gmid = self.nodes@;
            match self.nodes.remove(target.as_str()) {
                Some(mut tn) => {
                    tn.edges.remove_value(name);
                    self.nodes.insert(target.clone(), tn);
                    proof {
                        assert(self.nodes@ =~~= partial_remove_spec(pre@, name@, s, i + 1)) by {
                            assert(self.nodes@ =~~= gmid.insert(
                                target@,
                                node_scrubbed(gmid[target@], name@),
                            ));
                            assert forall|k: Seq<char>|
                                prefix_target(s, i + 1, k) && !prefix_target(s, i as int, k)
                                implies k == target@ by {}
                            assert(prefix_target(s, i + 1, target@));
                        }
                    }
                },
                None => {
                    proof {
                        assert(self.nodes@ =~= partial_remove_spec(pre@, name@, s, i + 1)) by {
                            assert forall|k: Seq<char>|
                                prefix_target(s, i + 1, k) && !prefix_target(s, i as int, k)
                                implies k == target@ by {}
                        }
                    }
                },
            }
            i = i + 1;
        }
        proof {
            assert(final(self)@ =~= remove_node_spec(pre@, name@)) by {
                assert forall|k: Seq<char>|
                    prefix_target(s, n as int, k) <==> is_edge_target(pre@[name@].edges, k) by {
                    lemma_targets(removed.edges, k);
                }
            }
        }
        true
    }

    /// Removes the edge named `edge_name` from the node named `node_name`,
    /// then best-effort removes an edge of the same name from the node the
    /// removed edge pointed to. Returns whether the named edge existed.
    pub fn remove_edge(&mut self, node_name: &str, edge_name: &str) -> (r: bool)
        requires
            old(self).wf(),
        ensures
            final(self).wf(),
            r == (old(self)@.contains_key(node_name@) && old(self)@[node_name@].edges.contains_key(
                edge_name@,
            )),
            r ==> final(self)@ == remove_edge_spec(old(self)@, node_name@, edge_name@),
            !r ==> final(self)@ == old(self)@,
    {
        let ghost pre = *self;
        let mut node = match self.nodes.remove(node_name) {
            Some(node) => node,
            None => {
                proof {
                    assert(final(self)@ =~= old(self)@);
                }
                return false;
            },
        };
        let target = match node.edges.remove(edge_name) {
            Some(t) => t,
            None => {
                self.nodes.insert(node_name.to_owned(), node);
                proof {
                    assert(node.edges@ =~= pre@[node_name@].edges);
                    assert(final(self)@ =~= old(self)@);
                }
                return false;
            },
        };
        self.nodes.insert(node_name.to_owned(), node);
        proof {
            let g1 = pre@.insert(
                node_name@,
                NodeView {
                    name: pre@[node_name@].name,
                    edges: pre@[node_name@].edges.remove(edge_name@),
                },
            );
            assert(self.nodes@ =~= g1);
        }
        match self.nodes.remove(target.as_str()) {
            Some(mut tn) => {
                let _ = tn.edges.remove(edge_name);
                self.nodes.insert(target, tn);
                proof {
                    assert(final(self)@ =~= remove_edge_spec(pre@, node_name@, edge_name@));
                }
            },
            None => {
                proof {
                    assert(final(self)@ =~= remove_edge_spec(pre@, node_name@, edge_name@));
                }
            },
        }
        true
    }
}

} // verus!
