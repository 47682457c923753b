use poe_skill_tree::data::{decode_tree, Constants, RawGroup, RawTree};
use poe_skill_tree::error::StructuralError;
use poe_skill_tree::raw::{RawItem, RawRecord, RawValue};

fn constants(slots: &[u32], radii: &[u32]) -> Constants {
    Constants {
        classes: vec![("Marauder".to_string(), 1)],
        character_attributes: vec![("Strength".to_string(), 0)],
        psscentre_inner_radius: 130,
        skills_per_orbit: slots.to_vec(),
        orbit_radii: radii.to_vec(),
    }
}

fn str_list(items: &[&str]) -> RawValue {
    RawValue::List(items.iter().map(|s| RawItem::Str(s.to_string())).collect())
}

fn normal_record(skill: u64, group: u64, orbit: u64, orbit_index: u64) -> RawRecord {
    RawRecord {
        fields: vec![
            ("skill".to_string(), RawValue::Num(skill)),
            ("name".to_string(), RawValue::Str(format!("node {}", skill))),
            ("icon".to_string(), RawValue::Str("i.png".to_string())),
            ("stats".to_string(), str_list(&["s"])),
            ("group".to_string(), RawValue::Num(group)),
            ("orbit".to_string(), RawValue::Num(orbit)),
            ("orbitIndex".to_string(), RawValue::Num(orbit_index)),
            ("out".to_string(), str_list(&[])),
            ("in".to_string(), str_list(&[])),
        ],
    }
}

fn group(x: i32, y: i32, nodes: &[&str]) -> RawGroup {
    RawGroup {
        x,
        y,
        orbits: vec![0],
        nodes: nodes.iter().map(|s| s.to_string()).collect(),
    }
}

fn small_tree() -> RawTree {
    RawTree {
        tree: "Default".to_string(),
        groups: vec![
            ("1".to_string(), group(100, 50, &["10"])),
            ("2".to_string(), group(-30, 40, &["11"])),
        ],
        nodes: vec![
            ("10".to_string(), normal_record(10, 1, 0, 0)),
            ("11".to_string(), normal_record(11, 2, 1, 2)),
        ],
        min_x: -200,
        min_y: -200,
        max_x: 300,
        max_y: 250,
        constants: constants(&[1, 4], &[0, 100]),
        orbit_steps: vec![(0, 0), (100, 0)],
    }
}

#[test]
fn decodes_a_small_document() {
    let tree = decode_tree(small_tree()).unwrap();
    assert_eq!(tree.tree, "Default");
    assert_eq!(tree.groups.len(), 2);
    assert_eq!(tree.groups[0].0, 1);
    assert_eq!(tree.groups[1].0, 2);
    assert_eq!(tree.groups[0].1.nodes, vec![10]);
    assert_eq!(tree.nodes.len(), 2);
    assert_eq!(tree.nodes[0].0, 10);
}

#[test]
fn base_size_is_the_bounding_box_extent() {
    let tree = decode_tree(small_tree()).unwrap();
    assert_eq!(tree.get_base_size(), (500, 450));
}

#[test]
fn base_size_is_never_negative_here() {
    let mut raw = small_tree();
    raw.min_x = 300;
    raw.max_x = 300;
    let tree = decode_tree(raw).unwrap();
    let (w, h) = tree.get_base_size();
    assert_eq!((w, h), (0, 450));
    assert!(w >= 0 && h >= 0);
}

#[test]
fn group_locations_subtract_the_document_minimum_exactly() {
    let tree = decode_tree(small_tree()).unwrap();
    let locs = tree.get_group_locations();
    assert_eq!(locs.len(), 2);
    assert_eq!(locs[0], (1, (300, 250)));
    assert_eq!(locs[1], (2, (170, 240)));
}

#[test]
fn orbit_offsets_scale_the_step_by_the_slot_index() {
    let tree = decode_tree(small_tree()).unwrap();
    let orbits = tree.calculate_orbits();
    assert_eq!(orbits.len(), 2);
    assert_eq!(orbits[0], vec![(0, 0)]);
    // four slots, radius 100: the step vector is (100·sin(π/2), 100·cos(π/2))
    // = (100, 0), and slot k sits at k times that step, not at angle k·step.
    assert_eq!(orbits[1], vec![(0, 0), (100, 0), (200, 0), (300, 0)]);
}

#[test]
fn every_orbit_starts_at_the_origin() {
    let tree = decode_tree(small_tree()).unwrap();
    for row in tree.calculate_orbits() {
        if !row.is_empty() {
            assert_eq!(row[0], (0, 0));
        }
    }
}

#[test]
fn node_table_accepts_the_reserved_root_key() {
    let mut raw = small_tree();
    raw.nodes.push((
        "root".to_string(),
        RawRecord {
            fields: vec![
                ("group".to_string(), RawValue::Num(1)),
                ("orbit".to_string(), RawValue::Num(0)),
                ("orbitIndex".to_string(), RawValue::Num(0)),
                ("out".to_string(), str_list(&[])),
                ("in".to_string(), str_list(&[])),
            ],
        },
    ));
    let tree = decode_tree(raw).unwrap();
    assert!(tree.nodes.iter().any(|(id, _)| *id == 0));
}

#[test]
fn colliding_coerced_keys_keep_the_last_entry() {
    let mut raw = small_tree();
    raw.groups = vec![
        ("1".to_string(), group(7, 7, &[])),
        ("+1".to_string(), group(9, 9, &[])),
    ];
    let tree = decode_tree(raw).unwrap();
    assert_eq!(tree.groups.len(), 1);
    assert_eq!(tree.groups[0].0, 1);
    assert_eq!(tree.groups[0].1.x, 9);
}

#[test]
fn unparsable_group_node_id_is_fatal() {
    let mut raw = small_tree();
    raw.groups[0].1.nodes = vec!["ten".to_string()];
    assert_eq!(decode_tree(raw), Err(StructuralError::BadNumber));
}

#[test]
fn unparsable_group_key_is_fatal() {
    let mut raw = small_tree();
    raw.groups[0].0 = "g1".to_string();
    assert_eq!(decode_tree(raw), Err(StructuralError::BadKey));
}

#[test]
fn unparsable_node_key_is_fatal() {
    let mut raw = small_tree();
    raw.nodes[0].0 = "rooty".to_string();
    assert_eq!(decode_tree(raw), Err(StructuralError::BadKey));
}

#[test]
fn unclassifiable_record_is_fatal() {
    let mut raw = small_tree();
    raw.nodes[0].1 = RawRecord {
        fields: vec![("classStartIndex".to_string(), RawValue::Num(1))],
    };
    assert_eq!(decode_tree(raw), Err(StructuralError::BadRecord));
}

#[test]
fn reversed_bounding_box_is_fatal() {
    let mut raw = small_tree();
    raw.min_x = 301;
    assert_eq!(decode_tree(raw), Err(StructuralError::BadBounds));
}

#[test]
fn mismatched_orbit_tables_are_fatal() {
    let mut raw = small_tree();
    raw.constants.orbit_radii = vec![0];
    assert_eq!(decode_tree(raw), Err(StructuralError::BadBounds));

    let mut raw = small_tree();
    raw.orbit_steps = vec![(0, 0)];
    assert_eq!(decode_tree(raw), Err(StructuralError::BadBounds));
}

#[test]
fn node_placed_outside_the_orbit_tables_is_fatal() {
    let mut raw = small_tree();
    raw.nodes[0].1 = normal_record(10, 1, 2, 0);
    assert_eq!(decode_tree(raw), Err(StructuralError::BadBounds));

    let mut raw = small_tree();
    raw.nodes[1].1 = normal_record(11, 2, 1, 4);
    assert_eq!(decode_tree(raw), Err(StructuralError::BadBounds));
}

#[test]
fn oversized_step_vector_is_fatal() {
    let mut raw = small_tree();
    raw.orbit_steps[1] = (0x4000_0001, 0);
    assert_eq!(decode_tree(raw), Err(StructuralError::BadBounds));
}
