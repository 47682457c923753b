use poe_skill_tree::classify::{classify_node, decode_main_data};
use poe_skill_tree::error::{DecodeFailure, StructuralError};
use poe_skill_tree::node::Node;
use poe_skill_tree::raw::{RawItem, RawLeaf, RawRecord, RawValue, SubRecord};

fn rec(fields: Vec<(&str, RawValue)>) -> RawRecord {
    RawRecord {
        fields: fields.into_iter().map(|(k, v)| (k.to_string(), v)).collect(),
    }
}

fn str_list(items: &[&str]) -> RawValue {
    RawValue::List(items.iter().map(|s| RawItem::Str(s.to_string())).collect())
}

fn main_fields() -> Vec<(&'static str, RawValue)> {
    vec![
        ("skill", RawValue::Num(5)),
        ("name", RawValue::Str("Some Node".to_string())),
        ("icon", RawValue::Str("icon.png".to_string())),
        ("stats", str_list(&["+10 str", "; +5 dex"])),
    ]
}

fn position_fields() -> Vec<(&'static str, RawValue)> {
    vec![
        ("group", RawValue::Num(1)),
        ("orbit", RawValue::Num(0)),
        ("orbitIndex", RawValue::Num(0)),
        ("out", str_list(&["2"])),
        ("in", str_list(&[])),
    ]
}

#[test]
fn ascendancy_marker_wins() {
    let mut fields = main_fields();
    fields.extend(position_fields());
    fields.push(("ascendancyName", RawValue::Str("Raider".to_string())));
    fields.push(("isNotable", RawValue::Bool(true)));
    let node = classify_node(&rec(fields)).unwrap();
    match node {
        Node::Ascendancy(m, p, a) => {
            assert_eq!(m.skill, 5);
            assert_eq!(m.stats, "+10 str; +5 dex");
            assert_eq!(p.group, 1);
            assert_eq!(p.out_nodes, vec![2]);
            assert_eq!(a.ascendancy, "Raider");
            assert!(a.is_notable);
            assert!(!a.is_ascendancy_start);
            assert_eq!(a.granted_passive_points, 0);
        }
        _ => panic!("expected an ascendancy node"),
    }
}

#[test]
fn class_start_marker() {
    let mut fields = main_fields();
    fields.extend(position_fields());
    fields.push(("classStartIndex", RawValue::Num(3)));
    let node = classify_node(&rec(fields)).unwrap();
    match node {
        Node::ClassStart(_, _, c) => assert_eq!(c.class_start_index, 3),
        _ => panic!("expected a class-start node"),
    }
}

#[test]
fn class_start_missing_main_data_is_fatal() {
    let mut fields = position_fields();
    fields.push(("classStartIndex", RawValue::Num(0)));
    assert_eq!(
        classify_node(&rec(fields)),
        Err(StructuralError::BadRecord)
    );
}

fn mastery_payload() -> Vec<(&'static str, RawValue)> {
    let effect = SubRecord {
        fields: vec![
            ("effect".to_string(), RawLeaf::Num(7)),
            (
                "stats".to_string(),
                RawLeaf::StrList(vec!["effect text".to_string()]),
            ),
        ],
    };
    vec![
        ("inactiveIcon", RawValue::Str("off.png".to_string())),
        ("activeIcon", RawValue::Str("on.png".to_string())),
        ("activeEffectImage", RawValue::Str("fx.png".to_string())),
        ("masteryEffects", RawValue::List(vec![RawItem::Obj(effect)])),
    ]
}

#[test]
fn mastery_with_modern_payload() {
    let mut fields = main_fields();
    fields.extend(position_fields());
    fields.push(("isMastery", RawValue::Bool(true)));
    fields.extend(mastery_payload());
    let node = classify_node(&rec(fields)).unwrap();
    match node {
        Node::Mastery(_, _, m) => {
            assert_eq!(m.inactive_icon, "off.png");
            assert_eq!(m.mastery_effects.len(), 1);
            assert_eq!(m.mastery_effects[0].effect, 7);
            assert_eq!(m.mastery_effects[0].stats, "effect text");
            assert_eq!(m.mastery_effects[0].reminder_text, None);
        }
        _ => panic!("expected a mastery node"),
    }
}

#[test]
fn mastery_without_payload_falls_back_to_deprecated() {
    let mut fields = main_fields();
    fields.push(("isMastery", RawValue::Bool(true)));
    let node = classify_node(&rec(fields)).unwrap();
    assert!(matches!(node, Node::DeprecatedMastery(_)));
}

#[test]
fn mastery_marker_counts_even_when_false() {
    let mut fields = main_fields();
    fields.push(("isMastery", RawValue::Bool(false)));
    let node = classify_node(&rec(fields)).unwrap();
    assert!(matches!(node, Node::DeprecatedMastery(_)));
}

#[test]
fn mastery_effect_coercion_failure_is_fatal_not_fallback() {
    let effect = SubRecord {
        fields: vec![
            ("effect".to_string(), RawLeaf::Num(7)),
            ("stats".to_string(), RawLeaf::Other),
        ],
    };
    let mut fields = main_fields();
    fields.extend(position_fields());
    fields.push(("isMastery", RawValue::Bool(true)));
    fields.push(("inactiveIcon", RawValue::Str("off.png".to_string())));
    fields.push(("activeIcon", RawValue::Str("on.png".to_string())));
    fields.push(("activeEffectImage", RawValue::Str("fx.png".to_string())));
    fields.push(("masteryEffects", RawValue::List(vec![RawItem::Obj(effect)])));
    assert_eq!(
        classify_node(&rec(fields)),
        Err(StructuralError::BadRecord)
    );
}

#[test]
fn proxy_marker() {
    let mut fields = main_fields();
    fields.extend(position_fields());
    fields.push(("isProxy", RawValue::Bool(true)));
    let node = classify_node(&rec(fields)).unwrap();
    assert!(matches!(node, Node::Proxy(_, _)));
}

#[test]
fn notable_with_position() {
    let mut fields = main_fields();
    fields.extend(position_fields());
    fields.push(("isNotable", RawValue::Bool(true)));
    fields.push(("recipe", str_list(&["OilA", "OilB"])));
    fields.push(("grantedDexterity", RawValue::Num(10)));
    let node = classify_node(&rec(fields)).unwrap();
    match node {
        Node::Notable(_, p, nb) => {
            assert_eq!(p.orbit, 0);
            assert_eq!(nb.recipe, "OilAOilB");
            assert!(!nb.is_blighted);
            assert_eq!(nb.attribute.granted_dexterity, 10);
            assert_eq!(nb.attribute.granted_strength, 0);
        }
        _ => panic!("expected a notable node"),
    }
}

#[test]
fn notable_without_position_is_standalone() {
    let mut fields = main_fields();
    fields.push(("isNotable", RawValue::Bool(true)));
    fields.push(("grantedStrength", RawValue::Num(4)));
    let node = classify_node(&rec(fields)).unwrap();
    match node {
        Node::StandaloneNotable(m, sn) => {
            assert_eq!(m.skill, 5);
            assert_eq!(sn.attribute.granted_strength, 4);
        }
        _ => panic!("expected a standalone notable node"),
    }
}

#[test]
fn notable_with_bad_adjacency_coercion_is_fatal_not_standalone() {
    let mut fields = main_fields();
    fields.extend(position_fields());
    fields.retain(|(k, _)| *k != "out");
    fields.push(("out", str_list(&["not-a-number"])));
    fields.push(("isNotable", RawValue::Bool(true)));
    fields.push(("recipe", str_list(&[])));
    assert_eq!(
        classify_node(&rec(fields)),
        Err(StructuralError::BadRecord)
    );
}

#[test]
fn keystone_positioned_and_standalone() {
    let mut fields = main_fields();
    fields.extend(position_fields());
    fields.push(("isKeystone", RawValue::Bool(true)));
    fields.push(("flavourText", str_list(&["fla", "vour"])));
    let node = classify_node(&rec(fields)).unwrap();
    match node {
        Node::Keystone(_, _, k) => {
            assert_eq!(k.flavour_text, Some("flavour".to_string()));
            assert_eq!(k.reminder_text, None);
        }
        _ => panic!("expected a keystone node"),
    }

    let mut fields = main_fields();
    fields.push(("isKeystone", RawValue::Bool(true)));
    let node = classify_node(&rec(fields)).unwrap();
    assert!(matches!(node, Node::StandaloneKeystone(_, _)));
}

#[test]
fn jewel_socket_plain() {
    let mut fields = main_fields();
    fields.extend(position_fields());
    fields.push(("isJewelSocket", RawValue::Bool(true)));
    let node = classify_node(&rec(fields)).unwrap();
    assert!(matches!(node, Node::JewelSocket(_, _)));
}

#[test]
fn jewel_socket_with_expansion_payload() {
    let sub = SubRecord {
        fields: vec![
            ("size".to_string(), RawLeaf::Num(2)),
            ("index".to_string(), RawLeaf::Num(3)),
            ("proxy".to_string(), RawLeaf::Str("77".to_string())),
            ("parent".to_string(), RawLeaf::Str("".to_string())),
        ],
    };
    let mut fields = main_fields();
    fields.extend(position_fields());
    fields.push(("isJewelSocket", RawValue::Bool(true)));
    fields.push(("expansionJewel", RawValue::Obj(sub)));
    let node = classify_node(&rec(fields)).unwrap();
    match node {
        Node::ExpansionJewelSocket(_, _, ej) => {
            assert_eq!(ej.size, 2);
            assert_eq!(ej.index, 3);
            assert_eq!(ej.proxy, 77);
            assert_eq!(ej.parent, None);
        }
        _ => panic!("expected an expansion jewel socket"),
    }
}

#[test]
fn expansion_jewel_with_parent() {
    let sub = SubRecord {
        fields: vec![
            ("size".to_string(), RawLeaf::Num(1)),
            ("index".to_string(), RawLeaf::Num(0)),
            ("proxy".to_string(), RawLeaf::Str("8".to_string())),
            ("parent".to_string(), RawLeaf::Str("123".to_string())),
        ],
    };
    let mut fields = main_fields();
    fields.extend(position_fields());
    fields.push(("isJewelSocket", RawValue::Bool(true)));
    fields.push(("expansionJewel", RawValue::Obj(sub)));
    let node = classify_node(&rec(fields)).unwrap();
    match node {
        Node::ExpansionJewelSocket(_, _, ej) => assert_eq!(ej.parent, Some(123)),
        _ => panic!("expected an expansion jewel socket"),
    }
}

#[test]
fn skill_marker_positioned_and_standalone() {
    let mut fields = main_fields();
    fields.extend(position_fields());
    let node = classify_node(&rec(fields)).unwrap();
    assert!(matches!(node, Node::Normal(_, _, _)));

    let node = classify_node(&rec(main_fields())).unwrap();
    assert!(matches!(node, Node::StandaloneNormal(_, _)));
}

#[test]
fn no_marker_is_the_synthetic_root() {
    let node = classify_node(&rec(position_fields())).unwrap();
    match node {
        Node::Root(p) => {
            assert_eq!(p.group, 1);
            assert_eq!(p.in_nodes, Vec::<u32>::new());
        }
        _ => panic!("expected the root node"),
    }
}

#[test]
fn root_without_position_is_fatal() {
    let fields = vec![("unrelated", RawValue::Str("x".to_string()))];
    assert_eq!(
        classify_node(&rec(fields)),
        Err(StructuralError::BadRecord)
    );
}

#[test]
fn missing_required_field_is_a_shape_failure() {
    let mut fields = main_fields();
    fields.retain(|(k, _)| *k != "skill");
    assert_eq!(
        decode_main_data(&rec(fields)),
        Err(DecodeFailure::Shape)
    );
}

#[test]
fn mistyped_text_array_is_a_coercion_failure() {
    let mut fields = main_fields();
    fields.retain(|(k, _)| *k != "stats");
    fields.push(("stats", RawValue::Str("not an array".to_string())));
    assert_eq!(
        decode_main_data(&rec(fields)),
        Err(DecodeFailure::Coercion)
    );
}

#[test]
fn classification_is_idempotent() {
    let mut fields = main_fields();
    fields.extend(position_fields());
    fields.push(("isNotable", RawValue::Bool(true)));
    fields.push(("recipe", str_list(&["Oil"])));
    let record = rec(fields);
    let first = classify_node(&record);
    let second = classify_node(&record);
    assert_eq!(first, second);
}
