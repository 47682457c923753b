//! The skill graph builder: for every node id listed by a group, look the
//! node up (fatal if missing — an id a group lists must exist in the node
//! table), and place it at its orbit slot's offset; a listed node without
//! position data leniently defaults to the origin instead of failing. The
//! edge set is reserved and stays empty.

use vstd::prelude::*;

use crate::data::{position_ok, Group, PathOfExileSkillTree};
use crate::error::StructuralError;
use crate::node::{lemma_position_view, spec_position, spec_position_v, Node};
use crate::table::{table_contains, table_find, table_get};

verus! {

/// The derived Cartesian coordinate of one node id, in whole canvas units.
#[derive(Debug, Clone, Copy, PartialEq, Eq, Structural)]
pub struct GraphNode {
    pub x: i64,
    pub y: i64,
}

/// A reserved (from, to) adjacency pair; the builder does not materialize
/// edges yet.
#[derive(Debug, Clone, Copy, PartialEq, Eq, Structural)]
pub struct GraphEdge {
    pub from: u32,
    pub to: u32,
}

/// The derived geometric graph: one coordinate per listed node id, and the
/// (empty) edge list.
pub struct SkillGraph {
    pub nodes: Vec<(u32, GraphNode)>,
    pub edges: Vec<GraphEdge>,
}

/// Whether some group of the table lists `id`.
pub open spec fn spec_listed(groups: Seq<(u32, Group)>, id: u32) -> bool {
    exists|i: int, j: int|
        0 <= i < groups.len() && 0 <= j < groups[i].1.nodes@.len() && groups[i].1.nodes@[j] == id
}

/// The coordinate a node is placed at: its slot index times its orbit's
/// step vector, or the origin for a node without position data. (The
/// owning group's anchor is not added in.)
pub open spec fn spec_node_coord(tree: PathOfExileSkillTree, n: Node) -> (int, int) {
    match spec_position(n) {
        Some(p) => (
            (p.orbit_index as int) * tree.orbit_steps@[p.orbit as int].0,
            (p.orbit_index as int) * tree.orbit_steps@[p.orbit as int].1,
        ),
        None => (0, 0),
    }
}

/// Whether one graph entry is correct for the document: its id is listed
/// by some group, resolves in the node table, and its coordinate is the
/// node's.
pub open spec fn graph_entry_ok(tree: PathOfExileSkillTree, e: (u32, GraphNode)) -> bool {
    &&& spec_listed(tree.groups@, e.0)
    &&& match table_find(tree.nodes@, e.0) {
        Some(n) => e.1.x == spec_node_coord(tree, n).0 && e.1.y == spec_node_coord(tree, n).1,
        None => false,
    }
}

/// Shape and content of a computed orbit-offset table for the document.
pub open spec fn orbit_table_ok(tree: PathOfExileSkillTree, t: Seq<Vec<(i64, i64)>>) -> bool {
    &&& t.len() == tree.constants.skills_per_orbit@.len()
    &&& (forall|i: int|
        0 <= i < t.len() ==> (#[trigger] t[i])@.len() == tree.constants.skills_per_orbit@[i])
    &&& (forall|i: int, k: int|
        0 <= i < t.len() && 0 <= k < t[i]@.len() ==> (#[trigger] t[i]@[k]).0 == k
            * tree.orbit_steps@[i].0 && t[i]@[k].1 == k * tree.orbit_steps@[i].1)
}

impl SkillGraph {
    /// Build the graph from a decoded document: one entry per listed node
    /// id, fatal on an id absent from the node table, lenient (origin) on a
    /// listed node without position data; no edges.
    pub fn generate_from_tree(tree: &PathOfExileSkillTree) -> (r: Result<
        SkillGraph,
        StructuralError,
    >)
        requires
            tree.wf(),
        ensures
            r is Ok <==> (forall|id: u32|
                spec_listed(tree.groups@, id) ==> table_contains(tree.nodes@, id)),
            r is Err ==> r->Err_0 == StructuralError::MissingNode,
            r is Ok ==> {
                let g = r->Ok_0;
                &&& g.edges@.len() == 0
                &&& (forall|k: int|
                    0 <= k < g.nodes@.len() ==> graph_entry_ok(*tree, #[trigger] g.nodes@[k]))
                &&& (forall|id: u32|
                    spec_listed(tree.groups@, id) ==> table_contains(g.nodes@, id))
            },
    {
        let orbits = tree.calculate_orbits();
        proof {
            assert(orbit_table_ok(*tree, orbits@));
        }
        let mut nodes: Vec<(u32, GraphNode)> = Vec::new();
        let mut gi: usize = 0;
        while gi < tree.groups.len()
            invariant
                tree.wf(),
                orbit_table_ok(*tree, orbits@),
                0 <= gi <= tree.groups@.len(),
                forall|k: int| 0 <= k < nodes@.len() ==> graph_entry_ok(*tree, #[trigger] nodes@[k]),
                forall|i: int, j: int|
                    0 <= i < gi && 0 <= j < (#[trigger] tree.groups@[i]).1.nodes@.len()
                        ==> table_contains(tree.nodes@, #[trigger] tree.groups@[i].1.nodes@[j])
                        && table_contains(nodes@, tree.groups@[i].1.nodes@[j]),
            decreases tree.groups@.len() - gi,
        {
            let group = &tree.groups[gi].1;
            let mut nj: usize = 0;
            while nj < group.nodes.len()
                invariant
                    tree.wf(),
                    orbit_table_ok(*tree, orbits@),
                    0 <= gi < tree.groups@.len(),
                    *group == tree.groups@[gi as int].1,
                    0 <= nj <= group.nodes@.len(),
                    forall|k: int|
                        0 <= k < nodes@.len() ==> graph_entry_ok(*tree, #[trigger] nodes@[k]),
                    forall|i: int, j: int|
                        0 <= i < gi && 0 <= j < (#[trigger] tree.groups@[i]).1.nodes@.len()
                            ==> table_contains(tree.nodes@, #[trigger] tree.groups@[i].1.nodes@[j])
                            && table_contains(nodes@, tree.groups@[i].1.nodes@[j]),
                    forall|j: int|
                        0 <= j < nj ==> table_contains(
                            tree.nodes@,
                            #[trigger] group.nodes@[j],
                        ) && table_contains(nodes@, group.nodes@[j]),
                decreases group.nodes@.len() - nj,
            {
                let id = group.nodes[nj];
                match table_get(&tree.nodes, id) {
                    Some(node) => {
                        proof {
                            crate::table::lemma_table_find_contains(tree.nodes@, id);
                            assert(spec_listed(tree.groups@, id)) by {
                                assert(tree.groups@[gi as int].1.nodes@[nj as int] == id);
                            }
                            lemma_position_view(*node);
                        }
                        let coord: GraphNode = match node.get_position_data() {
                            Some(p) => {
                                proof {
                                    let k = choose|k: int|
                                        0 <= k < tree.nodes@.len() && (#[trigger] tree.nodes@[
                                            k
                                        ]).0 == id;
                                    crate::table::lemma_table_find_at(tree.nodes@, id, k);
                                    assert(*node == tree.nodes@[k].1);
                                    assert(position_ok(
                                        spec_position_v(tree.nodes@[k].1@),
                                        tree.constants.skills_per_orbit@,
                                    ));
                                    assert(spec_position_v(node@) == Some(p@));
                                    assert((p.orbit as int) < orbits@.len());
                                    assert((p.orbit_index as u32)
                                        < tree.constants.skills_per_orbit@[p.orbit as int]);
                                    assert(orbits@[p.orbit as int]@.len()
                                        == tree.constants.skills_per_orbit@[p.orbit as int]);
                                }
                                let row = &orbits[p.orbit as usize];
                                let offset = row[p.orbit_index as usize];
                                GraphNode { x: offset.0, y: offset.1 }
                            },
                            None => GraphNode { x: 0, y: 0 },
                        };
                        proof {
                            assert(graph_entry_ok(*tree, (id, coord)));
                        }
                        let ghost prev = nodes@;
                        nodes.push((id, coord));
                        proof {
                            assert(nodes@ == prev.push((id, coord)));
                            assert(nodes@[prev.len() as int] == (id, coord));
                            assert(table_contains(nodes@, id));
                            assert forall|x: u32| table_contains(prev, x) implies table_contains(
                                nodes@,
                                x,
                            ) by {
                                let k = choose|k: int|
                                    0 <= k < prev.len() && (#[trigger] prev[k]).0 == x;
                                assert(nodes@[k] == prev[k]);
                            }
                            assert forall|k: int| 0 <= k < nodes@.len() implies graph_entry_ok(
                                *tree,
                                #[trigger] nodes@[k],
                            ) by {
                                if k < prev.len() {
                                    assert(nodes@[k] == prev[k]);
                                }
                            }
                        }
                    },
                    None => {
                        proof {
                            crate::table::lemma_table_find_contains(tree.nodes@, id);
                            assert(spec_listed(tree.groups@, id)) by {
                                assert(tree.groups@[gi as int].1.nodes@[nj as int] == id);
                            }
                            assert(!table_contains(tree.nodes@, id));
                        }
                        return Err(StructuralError::MissingNode);
                    },
                }
                nj += 1;
            }
            gi += 1;
        }
        let graph = SkillGraph { nodes, edges: Vec::new() };
        proof {
            assert forall|id: u32|
                spec_listed(tree.groups@, id) implies table_contains(
                tree.nodes@,
                id,
            ) && table_contains(graph.nodes@, id) by {
                let (i, j) = choose|i: int, j: int|
                    0 <= i < tree.groups@.len() && 0 <= j < tree.groups@[i].1.nodes@.len()
                        && tree.groups@[i].1.nodes@[j] == id;
                assert(table_contains(tree.nodes@, tree.groups@[i].1.nodes@[j]));
                assert(table_contains(graph.nodes@, tree.groups@[i].1.nodes@[j]));
            }
        }
        Ok(graph)
    }
}

} // verus!
