//! The query surface the command boundary consumes: the per-group node
//! listing. An unknown group id yields an empty result, and a listed node
//! id missing from either the node table or the computed graph is silently
//! omitted, never an error.

use vstd::prelude::*;

use crate::data::PathOfExileSkillTree;
use crate::graph::SkillGraph;
use crate::node::spec_name;
use crate::table::{table_find, table_get};

verus! {

/// One row of a per-group node listing: id, display name, and the derived
/// coordinate.
#[derive(Debug, Clone, PartialEq, Eq)]
pub struct TsNode {
    pub node_id: u32,
    pub node_name: String,
    pub x: i64,
    pub y: i64,
}

/// Spec-level image of [`TsNode`].
pub struct TsNodeV {
    pub node_id: u32,
    pub node_name: Seq<char>,
    pub x: i64,
    pub y: i64,
}

impl View for TsNode {
    type V = TsNodeV;

    open spec fn view(&self) -> TsNodeV {
        TsNodeV {
            node_id: self.node_id,
            node_name: self.node_name@,
            x: self.x,
            y: self.y,
        }
    }
}

/// The listing for one id sequence: each id that resolves in both the node
/// table and the graph contributes one row, in list order; the others are
/// omitted.
pub open spec fn spec_rows(
    tree: PathOfExileSkillTree,
    graph: SkillGraph,
    ids: Seq<u32>,
) -> Seq<TsNodeV>
    decreases ids.len(),
{
    if ids.len() == 0 {
        Seq::empty()
    } else {
        let rest = spec_rows(tree, graph, ids.drop_last());
        let id = ids.last();
        match (table_find(tree.nodes@, id), table_find(graph.nodes@, id)) {
            (Some(n), Some(gn)) => rest + seq![
                TsNodeV { node_id: id, node_name: spec_name(n), x: gn.x, y: gn.y },
            ],
            _ => rest,
        }
    }
}

/// The listing for one group id: its node list's rows, or empty for an id
/// absent from the group table.
pub open spec fn spec_nodes_for_group(
    tree: PathOfExileSkillTree,
    graph: SkillGraph,
    group_id: u32,
) -> Seq<TsNodeV> {
    match table_find(tree.groups@, group_id) {
        Some(g) => spec_rows(tree, graph, g.nodes@),
        None => Seq::empty(),
    }
}

/// A listed id that is absent from the node table or from the graph is
/// silently omitted: appending it to a group's node list leaves the
/// listing unchanged, and no error is raised.
pub proof fn lemma_listing_omits_unresolved(
    tree: PathOfExileSkillTree,
    graph: SkillGraph,
    ids: Seq<u32>,
    id: u32,
)
    requires
        table_find(tree.nodes@, id) is None || table_find(graph.nodes@, id) is None,
    ensures
        spec_rows(tree, graph, ids.push(id)) == spec_rows(tree, graph, ids),
{
    assert(ids.push(id).drop_last() =~= ids);
    assert(ids.push(id).last() == id);
}

/// List a group's nodes with their names and derived coordinates. Unknown
/// group ids give an empty listing; listed ids that resolve in neither
/// table are omitted.
pub fn get_nodes_for_group(
    tree: &PathOfExileSkillTree,
    graph: &SkillGraph,
    group_id: u32,
) -> (r: Vec<TsNode>)
    ensures
        r@.map_values(|t: TsNode| t@) == spec_nodes_for_group(*tree, *graph, group_id),
        table_find(tree.groups@, group_id) is None ==> r@.len() == 0,
{
    let group = match table_get(&tree.groups, group_id) {
        Some(g) => g,
        None => {
            return Vec::new();
        },
    };
    let ghost ids = group.nodes@;
    let mut out: Vec<TsNode> = Vec::new();
    let mut i: usize = 0;
    proof {
        assert(out@.map_values(|t: TsNode| t@) =~= spec_rows(*tree, *graph, ids.take(0)));
    }
    while i < group.nodes.len()
        invariant
            0 <= i <= ids.len(),
            ids == group.nodes@,
            out@.map_values(|t: TsNode| t@) == spec_rows(*tree, *graph, ids.take(i as int)),
        decreases ids.len() - i,
    {
        let id = group.nodes[i];
        let ghost prev = out@;
        match table_get(&tree.nodes, id) {
            Some(node) => {
                match table_get(&graph.nodes, id) {
                    Some(gn) => {
                        let name: String = match node.get_name() {
                            Some(s) => s.clone(),
                            None => String::new(),
                        };
                        proof {
                            assert(name@ == spec_name(*node));
                        }
                        out.push(TsNode { node_id: id, node_name: name, x: gn.x, y: gn.y });
                    },
                    None => {},
                }
            },
            None => {},
        }
        proof {
            assert(ids.take(i + 1).drop_last() =~= ids.take(i as int));
            assert(ids.take(i + 1).last() == ids[i as int]);
            assert(out@.map_values(|t: TsNode| t@) =~= spec_rows(*tree, *graph, ids.take(i + 1)));
        }
        i += 1;
    }
    proof {
        assert(ids.take(ids.len() as int) =~= ids);
    }
    out
}

} // verus!
