use poe_skill_tree::data::{decode_tree, Constants, Group, PathOfExileSkillTree, RawGroup, RawTree};
use poe_skill_tree::error::StructuralError;
use poe_skill_tree::graph::{GraphNode, SkillGraph};
use poe_skill_tree::node::{Attribute, Node, NodeMainData, NodePositionData, NormalNode};
use poe_skill_tree::query::get_nodes_for_group;
use poe_skill_tree::raw::{RawItem, RawRecord, RawValue};

fn constants(slots: &[u32], radii: &[u32]) -> Constants {
    Constants {
        classes: vec![],
        character_attributes: vec![],
        psscentre_inner_radius: 0,
        skills_per_orbit: slots.to_vec(),
        orbit_radii: radii.to_vec(),
    }
}

fn str_list(items: &[&str]) -> RawValue {
    RawValue::List(items.iter().map(|s| RawItem::Str(s.to_string())).collect())
}

fn normal_record(skill: u64, group: u64, orbit: u64, orbit_index: u64) -> RawRecord {
    RawRecord {
        fields: vec![
            ("skill".to_string(), RawValue::Num(skill)),
            ("name".to_string(), RawValue::Str(format!("node {}", skill))),
            ("icon".to_string(), RawValue::Str("i.png".to_string())),
            ("stats".to_string(), str_list(&["s"])),
            ("group".to_string(), RawValue::Num(group)),
            ("orbit".to_string(), RawValue::Num(orbit)),
            ("orbitIndex".to_string(), RawValue::Num(orbit_index)),
            ("out".to_string(), str_list(&[])),
            ("in".to_string(), str_list(&[])),
        ],
    }
}

fn standalone_record(skill: u64) -> RawRecord {
    RawRecord {
        fields: vec![
            ("skill".to_string(), RawValue::Num(skill)),
            ("name".to_string(), RawValue::Str(format!("node {}", skill))),
            ("icon".to_string(), RawValue::Str("i.png".to_string())),
            ("stats".to_string(), str_list(&["s"])),
        ],
    }
}

fn loaded_tree() -> PathOfExileSkillTree {
    let raw = RawTree {
        tree: "Default".to_string(),
        groups: vec![
            (
                "1".to_string(),
                RawGroup { x: 10, y: 20, orbits: vec![1], nodes: vec!["10".to_string(), "11".to_string()] },
            ),
            (
                "2".to_string(),
                RawGroup { x: -5, y: -5, orbits: vec![], nodes: vec!["12".to_string()] },
            ),
        ],
        nodes: vec![
            ("10".to_string(), normal_record(10, 1, 1, 2)),
            ("11".to_string(), normal_record(11, 1, 0, 0)),
            ("12".to_string(), standalone_record(12)),
        ],
        min_x: -100,
        min_y: -100,
        max_x: 100,
        max_y: 100,
        constants: constants(&[1, 6], &[0, 40]),
        orbit_steps: vec![(0, 0), (20, 35)],
    };
    decode_tree(raw).unwrap()
}

#[test]
fn graph_places_each_listed_node_at_its_slot_offset() {
    let tree = loaded_tree();
    let graph = SkillGraph::generate_from_tree(&tree).unwrap();
    assert!(graph.edges.is_empty());
    let coords: Vec<(u32, GraphNode)> = graph.nodes.clone();
    assert!(coords.contains(&(10, GraphNode { x: 40, y: 70 })));
    assert!(coords.contains(&(11, GraphNode { x: 0, y: 0 })));
}

#[test]
fn graph_defaults_a_standalone_listed_node_to_the_origin() {
    let tree = loaded_tree();
    let graph = SkillGraph::generate_from_tree(&tree).unwrap();
    assert!(graph.nodes.contains(&(12, GraphNode { x: 0, y: 0 })));
}

#[test]
fn graph_rejects_a_group_listing_an_unknown_node() {
    let mut tree = loaded_tree();
    tree.groups[0].1.nodes.push(999);
    assert!(matches!(
        SkillGraph::generate_from_tree(&tree),
        Err(StructuralError::MissingNode)
    ));
}

#[test]
fn listing_contains_name_and_coordinate() {
    let tree = loaded_tree();
    let graph = SkillGraph::generate_from_tree(&tree).unwrap();
    let rows = get_nodes_for_group(&tree, &graph, 1);
    assert_eq!(rows.len(), 2);
    assert_eq!(rows[0].node_id, 10);
    assert_eq!(rows[0].node_name, "node 10");
    assert_eq!((rows[0].x, rows[0].y), (40, 70));
    assert_eq!(rows[1].node_id, 11);
    assert_eq!((rows[1].x, rows[1].y), (0, 0));
}

#[test]
fn listing_for_an_unknown_group_is_empty() {
    let tree = loaded_tree();
    let graph = SkillGraph::generate_from_tree(&tree).unwrap();
    assert!(get_nodes_for_group(&tree, &graph, 99).is_empty());
}

#[test]
fn listing_silently_omits_unresolvable_ids() {
    // built by hand: the query tolerates tables the builder would reject
    let node10 = Node::Normal(
        NodeMainData {
            skill: 10,
            name: "ten".to_string(),
            icon: "i".to_string(),
            stats: String::new(),
        },
        NodePositionData { group: 1, orbit: 0, orbit_index: 0, out_nodes: vec![], in_nodes: vec![] },
        NormalNode {
            reminder_text: None,
            attribute: Attribute {
                granted_strength: 0,
                granted_dexterity: 0,
                granted_intelligence: 0,
            },
        },
    );
    let node11 = node10.clone();
    let tree = PathOfExileSkillTree {
        tree: String::new(),
        groups: vec![(
            1,
            Group { x: 0, y: 0, orbits: vec![], nodes: vec![10, 9, 11] },
        )],
        nodes: vec![(10, node10), (11, node11)],
        min_x: 0,
        min_y: 0,
        max_x: 0,
        max_y: 0,
        constants: constants(&[1], &[0]),
        orbit_steps: vec![(0, 0)],
    };
    let graph = SkillGraph { nodes: vec![(10, GraphNode { x: 5, y: 6 })], edges: vec![] };
    let rows = get_nodes_for_group(&tree, &graph, 1);
    // id 9 is absent from the node table, id 11 from the graph: both omitted
    assert_eq!(rows.len(), 1);
    assert_eq!(rows[0].node_id, 10);
    assert_eq!((rows[0].x, rows[0].y), (5, 6));
}
