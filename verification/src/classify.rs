//! The node classifier: given one raw record, decide which node variant it
//! represents by ordered marker-field inspection (first match wins), then
//! decode the corresponding typed payloads. A failed decode of a matched
//! branch's payload is fatal; only the standalone-versus-positioned split
//! (and the mastery-versus-deprecated-mastery split) treats a shape failure
//! as a signal for the alternate branch — and even there, a failed numeric
//! or text-array coercion aborts the whole load.

use vstd::prelude::*;

use crate::error::{DecodeFailure, StructuralError};
use crate::fields::{
    get_bool_default, get_str, get_str_join, get_str_join_opt, get_u32, get_u32_list, get_u8,
    get_u8_default, spec_bool_default, spec_leaf_str_join, spec_leaf_str_join_opt, spec_leaf_u32,
    spec_leaf_u32_str, spec_leaf_u32_str_opt, spec_leaf_u8, spec_str, spec_str_join,
    spec_str_join_opt, spec_u32, spec_u32_list, spec_u8, spec_u8_default, lget_str_join,
    lget_str_join_opt, lget_u32, lget_u32_str, lget_u32_str_opt, lget_u8,
};
use crate::node::{
    AscendancyNode, AscendancyV, Attribute, ClassStartNode, ExpansionJewelNode, KeystoneNode,
    KeystoneV, MainDataV, MasteryEffect, MasteryEffectV, MasteryNode, MasteryV, Node,
    NodeMainData, NodePositionData, NodeV, NormalNode, NormalV, NotableNode, NotableV,
    PositionDataV, StandaloneNotableNode, StandaloneNotableV,
};
use crate::raw::{assoc_find, assoc_get, has_field, has_key, RawItem, RawRecord, RawValue, SubRecord};

verus! {

/// Whether a decode outcome is a fatal coercion failure.
pub open spec fn is_coercion<T>(r: Result<T, DecodeFailure>) -> bool {
    r is Err && r->Err_0 == DecodeFailure::Coercion
}

/// The outcome of decoding the main data block of a record.
pub open spec fn spec_main_data(rec: RawRecord) -> Result<MainDataV, DecodeFailure> {
    let skill = spec_u32(rec, "skill"@);
    let name = spec_str(rec, "name"@);
    let icon = spec_str(rec, "icon"@);
    let stats = spec_str_join(rec, "stats"@);
    if is_coercion(stats) {
        Err(DecodeFailure::Coercion)
    } else if skill is Err || name is Err || icon is Err || stats is Err {
        Err(DecodeFailure::Shape)
    } else {
        Ok(
            MainDataV {
                skill: skill->Ok_0,
                name: name->Ok_0,
                icon: icon->Ok_0,
                stats: stats->Ok_0,
            },
        )
    }
}

/// Decode the main data block of a record.
pub fn decode_main_data(rec: &RawRecord) -> (r: Result<NodeMainData, DecodeFailure>)
    ensures
        r is Ok <==> spec_main_data(*rec) is Ok,
        r is Ok ==> r->Ok_0@ == spec_main_data(*rec)->Ok_0,
        r is Err ==> r->Err_0 == spec_main_data(*rec)->Err_0,
{
    let stats = match get_str_join(rec, "stats") {
        Ok(s) => Some(s),
        Err(DecodeFailure::Coercion) => {
            return Err(DecodeFailure::Coercion);
        },
        Err(DecodeFailure::Shape) => None,
    };
    let skill = match get_u32(rec, "skill") {
        Ok(v) => v,
        Err(_) => {
            return Err(DecodeFailure::Shape);
        },
    };
    let name = match get_str(rec, "name") {
        Ok(v) => v,
        Err(_) => {
            return Err(DecodeFailure::Shape);
        },
    };
    let icon = match get_str(rec, "icon") {
        Ok(v) => v,
        Err(_) => {
            return Err(DecodeFailure::Shape);
        },
    };
    match stats {
        Some(stats) => Ok(NodeMainData { skill, name, icon, stats }),
        None => Err(DecodeFailure::Shape),
    }
}

/// The outcome of decoding the position data block of a record.
pub open spec fn spec_position_data(rec: RawRecord) -> Result<PositionDataV, DecodeFailure> {
    let group = spec_u32(rec, "group"@);
    let orbit = spec_u8(rec, "orbit"@);
    let orbit_index = spec_u8(rec, "orbitIndex"@);
    let out_nodes = spec_u32_list(rec, "out"@);
    let in_nodes = spec_u32_list(rec, "in"@);
    if is_coercion(out_nodes) || is_coercion(in_nodes) {
        Err(DecodeFailure::Coercion)
    } else if group is Err || orbit is Err || orbit_index is Err || out_nodes is Err || in_nodes
        is Err {
        Err(DecodeFailure::Shape)
    } else {
        Ok(
            PositionDataV {
                group: group->Ok_0,
                orbit: orbit->Ok_0,
                orbit_index: orbit_index->Ok_0,
                out_nodes: out_nodes->Ok_0,
                in_nodes: in_nodes->Ok_0,
            },
        )
    }
}

/// Decode the position data block of a record.
pub fn decode_position_data(rec: &RawRecord) -> (r: Result<NodePositionData, DecodeFailure>)
    ensures
        r is Ok <==> spec_position_data(*rec) is Ok,
        r is Ok ==> r->Ok_0@ == spec_position_data(*rec)->Ok_0,
        r is Err ==> r->Err_0 == spec_position_data(*rec)->Err_0,
{
    let out_nodes = match get_u32_list(rec, "out") {
        Ok(v) => Some(v),
        Err(DecodeFailure::Coercion) => {
            return Err(DecodeFailure::Coercion);
        },
        Err(DecodeFailure::Shape) => None,
    };
    let in_nodes = match get_u32_list(rec, "in") {
        Ok(v) => Some(v),
        Err(DecodeFailure::Coercion) => {
            return Err(DecodeFailure::Coercion);
        },
        Err(DecodeFailure::Shape) => None,
    };
    let group = match get_u32(rec, "group") {
        Ok(v) => v,
        Err(_) => {
            return Err(DecodeFailure::Shape);
        },
    };
    let orbit = match get_u8(rec, "orbit") {
        Ok(v) => v,
        Err(_) => {
            return Err(DecodeFailure::Shape);
        },
    };
    let orbit_index = match get_u8(rec, "orbitIndex") {
        Ok(v) => v,
        Err(_) => {
            return Err(DecodeFailure::Shape);
        },
    };
    match (out_nodes, in_nodes) {
        (Some(out_nodes), Some(in_nodes)) => Ok(
            NodePositionData { group, orbit, orbit_index, out_nodes, in_nodes },
        ),
        _ => Err(DecodeFailure::Shape),
    }
}

/// The outcome of decoding the granted-attribute block of a record; every
/// field defaults to zero when absent.
pub open spec fn spec_attribute(rec: RawRecord) -> Result<Attribute, DecodeFailure> {
    let s = spec_u8_default(rec, "grantedStrength"@);
    let d = spec_u8_default(rec, "grantedDexterity"@);
    let i = spec_u8_default(rec, "grantedIntelligence"@);
    if s is Err || d is Err || i is Err {
        Err(DecodeFailure::Shape)
    } else {
        Ok(
            Attribute {
                granted_strength: s->Ok_0,
                granted_dexterity: d->Ok_0,
                granted_intelligence: i->Ok_0,
            },
        )
    }
}

/// Decode the granted-attribute block of a record.
pub fn decode_attribute(rec: &RawRecord) -> (r: Result<Attribute, DecodeFailure>)
    ensures
        r == spec_attribute(*rec),
{
    let s = match get_u8_default(rec, "grantedStrength") {
        Ok(v) => v,
        Err(_) => {
            return Err(DecodeFailure::Shape);
        },
    };
    let d = match get_u8_default(rec, "grantedDexterity") {
        Ok(v) => v,
        Err(_) => {
            return Err(DecodeFailure::Shape);
        },
    };
    let i = match get_u8_default(rec, "grantedIntelligence") {
        Ok(v) => v,
        Err(_) => {
            return Err(DecodeFailure::Shape);
        },
    };
    Ok(Attribute { granted_strength: s, granted_dexterity: d, granted_intelligence: i })
}

/// The outcome of decoding a normal node's payload.
pub open spec fn spec_normal(rec: RawRecord) -> Result<NormalV, DecodeFailure> {
    let rem = spec_str_join_opt(rec, "reminderText"@);
    let attr = spec_attribute(rec);
    if is_coercion(rem) {
        Err(DecodeFailure::Coercion)
    } else if rem is Err || attr is Err {
        Err(DecodeFailure::Shape)
    } else {
        Ok(NormalV { reminder_text: rem->Ok_0, attribute: attr->Ok_0 })
    }
}

/// Decode a normal node's payload.
pub fn decode_normal(rec: &RawRecord) -> (r: Result<NormalNode, DecodeFailure>)
    ensures
        r is Ok <==> spec_normal(*rec) is Ok,
        r is Ok ==> r->Ok_0@ == spec_normal(*rec)->Ok_0,
        r is Err ==> r->Err_0 == spec_normal(*rec)->Err_0,
{
    let rem = match get_str_join_opt(rec, "reminderText") {
        Ok(v) => v,
        Err(DecodeFailure::Coercion) => {
            return Err(DecodeFailure::Coercion);
        },
        Err(DecodeFailure::Shape) => {
            return Err(DecodeFailure::Shape);
        },
    };
    let attr = match decode_attribute(rec) {
        Ok(v) => v,
        Err(_) => {
            return Err(DecodeFailure::Shape);
        },
    };
    Ok(NormalNode { reminder_text: rem, attribute: attr })
}

/// The outcome of decoding a standalone notable node's payload.
pub open spec fn spec_standalone_notable(rec: RawRecord) -> Result<
    StandaloneNotableV,
    DecodeFailure,
> {
    let rem = spec_str_join_opt(rec, "reminderText"@);
    let attr = spec_attribute(rec);
    if is_coercion(rem) {
        Err(DecodeFailure::Coercion)
    } else if rem is Err || attr is Err {
        Err(DecodeFailure::Shape)
    } else {
        Ok(StandaloneNotableV { reminder_text: rem->Ok_0, attribute: attr->Ok_0 })
    }
}

/// Decode a standalone notable node's payload.
pub fn decode_standalone_notable(rec: &RawRecord) -> (r: Result<
    StandaloneNotableNode,
    DecodeFailure,
>)
    ensures
        r is Ok <==> spec_standalone_notable(*rec) is Ok,
        r is Ok ==> r->Ok_0@ == spec_standalone_notable(*rec)->Ok_0,
        r is Err ==> r->Err_0 == spec_standalone_notable(*rec)->Err_0,
{
    let rem = match get_str_join_opt(rec, "reminderText") {
        Ok(v) => v,
        Err(DecodeFailure::Coercion) => {
            return Err(DecodeFailure::Coercion);
        },
        Err(DecodeFailure::Shape) => {
            return Err(DecodeFailure::Shape);
        },
    };
    let attr = match decode_attribute(rec) {
        Ok(v) => v,
        Err(_) => {
            return Err(DecodeFailure::Shape);
        },
    };
    Ok(StandaloneNotableNode { reminder_text: rem, attribute: attr })
}

/// The outcome of decoding a notable node's payload.
pub open spec fn spec_notable(rec: RawRecord) -> Result<NotableV, DecodeFailure> {
    let rem = spec_str_join_opt(rec, "reminderText"@);
    let recipe = spec_str_join(rec, "recipe"@);
    let blighted = spec_bool_default(rec, "isBlighted"@);
    let attr = spec_attribute(rec);
    if is_coercion(rem) || is_coercion(recipe) {
        Err(DecodeFailure::Coercion)
    } else if rem is Err || recipe is Err || blighted is Err || attr is Err {
        Err(DecodeFailure::Shape)
    } else {
        Ok(
            NotableV {
                reminder_text: rem->Ok_0,
                recipe: recipe->Ok_0,
                is_blighted: blighted->Ok_0,
                attribute: attr->Ok_0,
            },
        )
    }
}

/// Decode a notable node's payload.
pub fn decode_notable(rec: &RawRecord) -> (r: Result<NotableNode, DecodeFailure>)
    ensures
        r is Ok <==> spec_notable(*rec) is Ok,
        r is Ok ==> r->Ok_0@ == spec_notable(*rec)->Ok_0,
        r is Err ==> r->Err_0 == spec_notable(*rec)->Err_0,
{
    let rem = match get_str_join_opt(rec, "reminderText") {
        Ok(v) => Some(v),
        Err(DecodeFailure::Coercion) => {
            return Err(DecodeFailure::Coercion);
        },
        Err(DecodeFailure::Shape) => None,
    };
    let recipe = match get_str_join(rec, "recipe") {
        Ok(v) => Some(v),
        Err(DecodeFailure::Coercion) => {
            return Err(DecodeFailure::Coercion);
        },
        Err(DecodeFailure::Shape) => None,
    };
    let blighted = match get_bool_default(rec, "isBlighted") {
        Ok(v) => v,
        Err(_) => {
            return Err(DecodeFailure::Shape);
        },
    };
    let attr = match decode_attribute(rec) {
        Ok(v) => v,
        Err(_) => {
            return Err(DecodeFailure::Shape);
        },
    };
    match (rem, recipe) {
        (Some(rem), Some(recipe)) => Ok(
            NotableNode { reminder_text: rem, recipe, is_blighted: blighted, attribute: attr },
        ),
        _ => Err(DecodeFailure::Shape),
    }
}

/// The outcome of decoding a keystone node's payload.
pub open spec fn spec_keystone(rec: RawRecord) -> Result<KeystoneV, DecodeFailure> {
    let flavour = spec_str_join_opt(rec, "flavourText"@);
    let rem = spec_str_join_opt(rec, "reminderText"@);
    if is_coercion(flavour) || is_coercion(rem) {
        Err(DecodeFailure::Coercion)
    } else if flavour is Err || rem is Err {
        Err(DecodeFailure::Shape)
    } else {
        Ok(KeystoneV { flavour_text: flavour->Ok_0, reminder_text: rem->Ok_0 })
    }
}

/// Decode a keystone node's payload.
pub fn decode_keystone(rec: &RawRecord) -> (r: Result<KeystoneNode, DecodeFailure>)
    ensures
        r is Ok <==> spec_keystone(*rec) is Ok,
        r is Ok ==> r->Ok_0@ == spec_keystone(*rec)->Ok_0,
        r is Err ==> r->Err_0 == spec_keystone(*rec)->Err_0,
{
    let flavour = match get_str_join_opt(rec, "flavourText") {
        Ok(v) => v,
        Err(DecodeFailure::Coercion) => {
            return Err(DecodeFailure::Coercion);
        },
        Err(DecodeFailure::Shape) => {
            return Err(DecodeFailure::Shape);
        },
    };
    let rem = match get_str_join_opt(rec, "reminderText") {
        Ok(v) => v,
        Err(DecodeFailure::Coercion) => {
            return Err(DecodeFailure::Coercion);
        },
        Err(DecodeFailure::Shape) => {
            return Err(DecodeFailure::Shape);
        },
    };
    Ok(KeystoneNode { flavour_text: flavour, reminder_text: rem })
}

/// The outcome of decoding an ascendancy node's payload.
pub open spec fn spec_ascendancy(rec: RawRecord) -> Result<AscendancyV, DecodeFailure> {
    let notable = spec_bool_default(rec, "isNotable"@);
    let attr = spec_attribute(rec);
    let flavour = spec_str_join_opt(rec, "flavourText"@);
    let rem = spec_str_join_opt(rec, "reminderText"@);
    let jewel = spec_bool_default(rec, "isJewelSocket"@);
    let asc = spec_str(rec, "ascendancyName"@);
    let start = spec_bool_default(rec, "isAscendancyStart"@);
    let points = spec_u8_default(rec, "grantedPassivePoints"@);
    let multi = spec_bool_default(rec, "isMultipleChoice"@);
    let multi_opt = spec_bool_default(rec, "isMultipleChoiceOption"@);
    if is_coercion(flavour) || is_coercion(rem) {
        Err(DecodeFailure::Coercion)
    } else if notable is Err || attr is Err || flavour is Err || rem is Err || jewel is Err || asc
        is Err || start is Err || points is Err || multi is Err || multi_opt is Err {
        Err(DecodeFailure::Shape)
    } else {
        Ok(
            AscendancyV {
                is_notable: notable->Ok_0,
                attribute: attr->Ok_0,
                flavour_text: flavour->Ok_0,
                reminder_text: rem->Ok_0,
                is_jewel_socket: jewel->Ok_0,
                ascendancy: asc->Ok_0,
                is_ascendancy_start: start->Ok_0,
                granted_passive_points: points->Ok_0,
                is_multiple_choice: multi->Ok_0,
                is_multiple_choice_option: multi_opt->Ok_0,
            },
        )
    }
}

/// Decode an ascendancy node's payload.
pub fn decode_ascendancy(rec: &RawRecord) -> (r: Result<AscendancyNode, DecodeFailure>)
    ensures
        r is Ok <==> spec_ascendancy(*rec) is Ok,
        r is Ok ==> r->Ok_0@ == spec_ascendancy(*rec)->Ok_0,
        r is Err ==> r->Err_0 == spec_ascendancy(*rec)->Err_0,
{
    let flavour = match get_str_join_opt(rec, "flavourText") {
        Ok(v) => Some(v),
        Err(DecodeFailure::Coercion) => {
            return Err(DecodeFailure::Coercion);
        },
        Err(DecodeFailure::Shape) => None,
    };
    let rem = match get_str_join_opt(rec, "reminderText") {
        Ok(v) => Some(v),
        Err(DecodeFailure::Coercion) => {
            return Err(DecodeFailure::Coercion);
        },
        Err(DecodeFailure::Shape) => None,
    };
    let notable = match get_bool_default(rec, "isNotable") {
        Ok(v) => v,
        Err(_) => {
            return Err(DecodeFailure::Shape);
        },
    };
    let attr = match decode_attribute(rec) {
        Ok(v) => v,
        Err(_) => {
            return Err(DecodeFailure::Shape);
        },
    };
    let jewel = match get_bool_default(rec, "isJewelSocket") {
        Ok(v) => v,
        Err(_) => {
            return Err(DecodeFailure::Shape);
        },
    };
    let asc = match get_str(rec, "ascendancyName") {
        Ok(v) => v,
        Err(_) => {
            return Err(DecodeFailure::Shape);
        },
    };
    let start = match get_bool_default(rec, "isAscendancyStart") {
        Ok(v) => v,
        Err(_) => {
            return Err(DecodeFailure::Shape);
        },
    };
    let points = match get_u8_default(rec, "grantedPassivePoints") {
        Ok(v) => v,
        Err(_) => {
            return Err(DecodeFailure::Shape);
        },
    };
    let multi = match get_bool_default(rec, "isMultipleChoice") {
        Ok(v) => v,
        Err(_) => {
            return Err(DecodeFailure::Shape);
        },
    };
    let multi_opt = match get_bool_default(rec, "isMultipleChoiceOption") {
        Ok(v) => v,
        Err(_) => {
            return Err(DecodeFailure::Shape);
        },
    };
    match (flavour, rem) {
        (Some(flavour), Some(rem)) => Ok(
            AscendancyNode {
                is_notable: notable,
                attribute: attr,
                flavour_text: flavour,
                reminder_text: rem,
                is_jewel_socket: jewel,
                ascendancy: asc,
                is_ascendancy_start: start,
                granted_passive_points: points,
                is_multiple_choice: multi,
                is_multiple_choice_option: multi_opt,
            },
        ),
        _ => Err(DecodeFailure::Shape),
    }
}

/// The outcome of decoding a class-start node's payload.
pub open spec fn spec_class_start(rec: RawRecord) -> Result<ClassStartNode, DecodeFailure> {
    let csi = spec_u8(rec, "classStartIndex"@);
    if csi is Err {
        Err(DecodeFailure::Shape)
    } else {
        Ok(ClassStartNode { class_start_index: csi->Ok_0 })
    }
}

/// Decode a class-start node's payload.
pub fn decode_class_start(rec: &RawRecord) -> (r: Result<ClassStartNode, DecodeFailure>)
    ensures
        r == spec_class_start(*rec),
{
    match get_u8(rec, "classStartIndex") {
        Ok(v) => Ok(ClassStartNode { class_start_index: v }),
        Err(_) => Err(DecodeFailure::Shape),
    }
}

/// The outcome of decoding one mastery effect sub-record.
pub open spec fn spec_mastery_effect(sub: SubRecord) -> Result<MasteryEffectV, DecodeFailure> {
    let effect = spec_leaf_u32(sub, "effect"@);
    let stats = spec_leaf_str_join(sub, "stats"@);
    let rem = spec_leaf_str_join_opt(sub, "reminderText"@);
    if is_coercion(stats) || is_coercion(rem) {
        Err(DecodeFailure::Coercion)
    } else if effect is Err || stats is Err || rem is Err {
        Err(DecodeFailure::Shape)
    } else {
        Ok(
            MasteryEffectV {
                effect: effect->Ok_0,
                stats: stats->Ok_0,
                reminder_text: rem->Ok_0,
            },
        )
    }
}

/// Decode one mastery effect sub-record.
pub fn decode_mastery_effect(sub: &SubRecord) -> (r: Result<MasteryEffect, DecodeFailure>)
    ensures
        r is Ok <==> spec_mastery_effect(*sub) is Ok,
        r is Ok ==> r->Ok_0@ == spec_mastery_effect(*sub)->Ok_0,
        r is Err ==> r->Err_0 == spec_mastery_effect(*sub)->Err_0,
{
    let stats = match lget_str_join(sub, "stats") {
        Ok(v) => Some(v),
        Err(DecodeFailure::Coercion) => {
            return Err(DecodeFailure::Coercion);
        },
        Err(DecodeFailure::Shape) => None,
    };
    let rem = match lget_str_join_opt(sub, "reminderText") {
        Ok(v) => Some(v),
        Err(DecodeFailure::Coercion) => {
            return Err(DecodeFailure::Coercion);
        },
        Err(DecodeFailure::Shape) => None,
    };
    let effect = match lget_u32(sub, "effect") {
        Ok(v) => v,
        Err(_) => {
            return Err(DecodeFailure::Shape);
        },
    };
    match (stats, rem) {
        (Some(stats), Some(rem)) => Ok(
            MasteryEffect { effect, stats, reminder_text: rem },
        ),
        _ => Err(DecodeFailure::Shape),
    }
}

/// The outcome of decoding one element of the mastery-effect list: a
/// non-object element is a shape failure.
pub open spec fn spec_effect_item(it: RawItem) -> Result<MasteryEffectV, DecodeFailure> {
    match it {
        RawItem::Obj(sub) => spec_mastery_effect(sub),
        _ => Err(DecodeFailure::Shape),
    }
}

/// The outcome of decoding the whole mastery-effect list: a fatal coercion
/// failure in any element dominates; otherwise any failing element fails
/// the list's shape.
pub open spec fn spec_effect_list(items: Seq<RawItem>) -> Result<Seq<MasteryEffectV>, DecodeFailure> {
    if exists|i: int| 0 <= i < items.len() && is_coercion(#[trigger] spec_effect_item(items[i])) {
        Err(DecodeFailure::Coercion)
    } else if exists|i: int| 0 <= i < items.len() && (#[trigger] spec_effect_item(items[i])) is Err {
        Err(DecodeFailure::Shape)
    } else {
        Ok(Seq::new(items.len(), |i: int| spec_effect_item(items[i])->Ok_0))
    }
}

/// Decode the mastery-effect list.
fn decode_effects(items: &Vec<RawItem>) -> (r: Result<Vec<MasteryEffect>, DecodeFailure>)
    ensures
        r is Ok <==> spec_effect_list(items@) is Ok,
        r is Ok ==> r->Ok_0@.map_values(|e: MasteryEffect| e@) == spec_effect_list(items@)->Ok_0,
        r is Err ==> r->Err_0 == spec_effect_list(items@)->Err_0,
{
    let mut out: Vec<MasteryEffect> = Vec::new();
    let mut any_shape = false;
    let mut i: usize = 0;
    while i < items.len()
        invariant
            0 <= i <= items@.len(),
            forall|j: int| 0 <= j < i ==> !is_coercion(#[trigger] spec_effect_item(items@[j])),
            any_shape <==> exists|j: int|
                0 <= j < i && (#[trigger] spec_effect_item(items@[j])) is Err,
            !any_shape ==> out@.len() == i,
            !any_shape ==> forall|j: int|
                0 <= j < i ==> (#[trigger] spec_effect_item(items@[j])) is Ok,
            !any_shape ==> forall|j: int|
                0 <= j < i ==> out@[j]@ == (#[trigger] spec_effect_item(items@[j]))->Ok_0,
        decreases items@.len() - i,
    {
        match &items[i] {
            RawItem::Obj(sub) => {
                proof {
                    assert(items@[i as int] == RawItem::Obj(*sub));
                    assert(spec_effect_item(items@[i as int]) == spec_mastery_effect(*sub));
                }
                match decode_mastery_effect(sub) {
                    Ok(e) => {
                        proof {
                            assert(spec_effect_item(items@[i as int]) is Ok);
                        }
                        if !any_shape {
                            out.push(e);
                        }
                    },
                    Err(DecodeFailure::Coercion) => {
                        proof {
                            assert(is_coercion(spec_effect_item(items@[i as int])));
                            assert(spec_effect_list(items@) == Err::<
                                Seq<MasteryEffectV>,
                                DecodeFailure,
                            >(DecodeFailure::Coercion));
                        }
                        return Err(DecodeFailure::Coercion);
                    },
                    Err(DecodeFailure::Shape) => {
                        proof {
                            assert(spec_effect_item(items@[i as int]) is Err);
                        }
                        any_shape = true;
                    },
                }
            },
            _ => {
                proof {
                    assert(spec_effect_item(items@[i as int]) is Err);
                }
                any_shape = true;
            },
        }
        i += 1;
    }
    if any_shape {
        Err(DecodeFailure::Shape)
    } else {
        proof {
            assert(out@.map_values(|e: MasteryEffect| e@) =~= spec_effect_list(items@)->Ok_0);
        }
        Ok(out)
    }
}

/// The outcome of decoding a mastery node's payload: the icon triple and
/// the effect list, all required.
pub open spec fn spec_mastery(rec: RawRecord) -> Result<MasteryV, DecodeFailure> {
    let inactive = spec_str(rec, "inactiveIcon"@);
    let active = spec_str(rec, "activeIcon"@);
    let image = spec_str(rec, "activeEffectImage"@);
    let effects = match assoc_find(rec.fields@, "masteryEffects"@) {
        Some(RawValue::List(items)) => spec_effect_list(items@),
        Some(_) => Err(DecodeFailure::Shape),
        None => Err(DecodeFailure::Shape),
    };
    if is_coercion(effects) {
        Err(DecodeFailure::Coercion)
    } else if inactive is Err || active is Err || image is Err || effects is Err {
        Err(DecodeFailure::Shape)
    } else {
        Ok(
            MasteryV {
                inactive_icon: inactive->Ok_0,
                active_icon: active->Ok_0,
                active_effect_image: image->Ok_0,
                mastery_effects: effects->Ok_0,
            },
        )
    }
}

/// Decode a mastery node's payload.
pub fn decode_mastery(rec: &RawRecord) -> (r: Result<MasteryNode, DecodeFailure>)
    ensures
        r is Ok <==> spec_mastery(*rec) is Ok,
        r is Ok ==> r->Ok_0@ == spec_mastery(*rec)->Ok_0,
        r is Err ==> r->Err_0 == spec_mastery(*rec)->Err_0,
{
    let effects = match assoc_get(&rec.fields, "masteryEffects") {
        Some(v) => match v {
            RawValue::List(items) => match decode_effects(items) {
                Ok(es) => Some(es),
                Err(DecodeFailure::Coercion) => {
                    return Err(DecodeFailure::Coercion);
                },
                Err(DecodeFailure::Shape) => None,
            },
            _ => None,
        },
        None => None,
    };
    let inactive = match get_str(rec, "inactiveIcon") {
        Ok(v) => v,
        Err(_) => {
            return Err(DecodeFailure::Shape);
        },
    };
    let active = match get_str(rec, "activeIcon") {
        Ok(v) => v,
        Err(_) => {
            return Err(DecodeFailure::Shape);
        },
    };
    let image = match get_str(rec, "activeEffectImage") {
        Ok(v) => v,
        Err(_) => {
            return Err(DecodeFailure::Shape);
        },
    };
    match effects {
        Some(effects) => Ok(
            MasteryNode {
                inactive_icon: inactive,
                active_icon: active,
                active_effect_image: image,
                mastery_effects: effects,
            },
        ),
        None => Err(DecodeFailure::Shape),
    }
}

/// The outcome of decoding the expansion-jewel sub-record.
pub open spec fn spec_expansion_jewel(sub: SubRecord) -> Result<ExpansionJewelNode, DecodeFailure> {
    let size = spec_leaf_u8(sub, "size"@);
    let index = spec_leaf_u8(sub, "index"@);
    let proxy = spec_leaf_u32_str(sub, "proxy"@);
    let parent = spec_leaf_u32_str_opt(sub, "parent"@);
    if is_coercion(proxy) || is_coercion(parent) {
        Err(DecodeFailure::Coercion)
    } else if size is Err || index is Err || proxy is Err || parent is Err {
        Err(DecodeFailure::Shape)
    } else {
        Ok(
            ExpansionJewelNode {
                size: size->Ok_0,
                index: index->Ok_0,
                proxy: proxy->Ok_0,
                parent: parent->Ok_0,
            },
        )
    }
}

/// Decode the expansion-jewel sub-record.
pub fn decode_expansion_jewel(sub: &SubRecord) -> (r: Result<ExpansionJewelNode, DecodeFailure>)
    ensures
        r == spec_expansion_jewel(*sub),
{
    let proxy = match lget_u32_str(sub, "proxy") {
        Ok(v) => Some(v),
        Err(DecodeFailure::Coercion) => {
            return Err(DecodeFailure::Coercion);
        },
        Err(DecodeFailure::Shape) => None,
    };
    let parent = match lget_u32_str_opt(sub, "parent") {
        Ok(v) => Some(v),
        Err(DecodeFailure::Coercion) => {
            return Err(DecodeFailure::Coercion);
        },
        Err(DecodeFailure::Shape) => None,
    };
    let size = match lget_u8(sub, "size") {
        Ok(v) => v,
        Err(_) => {
            return Err(DecodeFailure::Shape);
        },
    };
    let index = match lget_u8(sub, "index") {
        Ok(v) => v,
        Err(_) => {
            return Err(DecodeFailure::Shape);
        },
    };
    match (proxy, parent) {
        (Some(proxy), Some(parent)) => Ok(ExpansionJewelNode { size, index, proxy, parent }),
        _ => Err(DecodeFailure::Shape),
    }
}

/// The classification of one raw record: `Some` of the node's spec-level
/// image, or `None` where the load must abort. Ordered marker-field
/// inspection, first match wins; the classification of a record is decided
/// solely from its own fields.
pub open spec fn classify_spec(rec: RawRecord) -> Option<NodeV> {
    let fields = rec.fields@;
    if has_key(fields, "ascendancyName"@) {
        let a = spec_ascendancy(rec);
        let m = spec_main_data(rec);
        let p = spec_position_data(rec);
        if a is Ok && m is Ok && p is Ok {
            Some(NodeV::Ascendancy(m->Ok_0, p->Ok_0, a->Ok_0))
        } else {
            None
        }
    } else if has_key(fields, "classStartIndex"@) {
        let c = spec_class_start(rec);
        let m = spec_main_data(rec);
        let p = spec_position_data(rec);
        if c is Ok && m is Ok && p is Ok {
            Some(NodeV::ClassStart(m->Ok_0, p->Ok_0, c->Ok_0))
        } else {
            None
        }
    } else if has_key(fields, "isMastery"@) {
        let mast = spec_mastery(rec);
        if mast is Ok {
            let p = spec_position_data(rec);
            let m = spec_main_data(rec);
            if p is Ok && m is Ok {
                Some(NodeV::Mastery(m->Ok_0, p->Ok_0, mast->Ok_0))
            } else {
                None
            }
        } else if mast->Err_0 == DecodeFailure::Shape {
            let m = spec_main_data(rec);
            if m is Ok {
                Some(NodeV::DeprecatedMastery(m->Ok_0))
            } else {
                None
            }
        } else {
            None
        }
    } else if has_key(fields, "isProxy"@) {
        let m = spec_main_data(rec);
        let p = spec_position_data(rec);
        if m is Ok && p is Ok {
            Some(NodeV::Proxy(m->Ok_0, p->Ok_0))
        } else {
            None
        }
    } else if has_key(fields, "isNotable"@) {
        let p = spec_position_data(rec);
        if p is Ok {
            let m = spec_main_data(rec);
            let nb = spec_notable(rec);
            if m is Ok && nb is Ok {
                Some(NodeV::Notable(m->Ok_0, p->Ok_0, nb->Ok_0))
            } else {
                None
            }
        } else if p->Err_0 == DecodeFailure::Shape {
            let sn = spec_standalone_notable(rec);
            let m = spec_main_data(rec);
            if sn is Ok && m is Ok {
                Some(NodeV::StandaloneNotable(m->Ok_0, sn->Ok_0))
            } else {
                None
            }
        } else {
            None
        }
    } else if has_key(fields, "isKeystone"@) {
        let p = spec_position_data(rec);
        if p is Ok {
            let m = spec_main_data(rec);
            let k = spec_keystone(rec);
            if m is Ok && k is Ok {
                Some(NodeV::Keystone(m->Ok_0, p->Ok_0, k->Ok_0))
            } else {
                None
            }
        } else if p->Err_0 == DecodeFailure::Shape {
            let k = spec_keystone(rec);
            let m = spec_main_data(rec);
            if k is Ok && m is Ok {
                Some(NodeV::StandaloneKeystone(m->Ok_0, k->Ok_0))
            } else {
                None
            }
        } else {
            None
        }
    } else if has_key(fields, "isJewelSocket"@) {
        if has_key(fields, "expansionJewel"@) {
            match assoc_find(fields, "expansionJewel"@) {
                Some(RawValue::Obj(sub)) => {
                    let ej = spec_expansion_jewel(sub);
                    let p = spec_position_data(rec);
                    let m = spec_main_data(rec);
                    if ej is Ok && p is Ok && m is Ok {
                        Some(NodeV::ExpansionJewelSocket(m->Ok_0, p->Ok_0, ej->Ok_0))
                    } else {
                        None
                    }
                },
                _ => None,
            }
        } else {
            let m = spec_main_data(rec);
            let p = spec_position_data(rec);
            if m is Ok && p is Ok {
                Some(NodeV::JewelSocket(m->Ok_0, p->Ok_0))
            } else {
                None
            }
        }
    } else if has_key(fields, "skill"@) {
        let p = spec_position_data(rec);
        if p is Ok {
            let m = spec_main_data(rec);
            let n = spec_normal(rec);
            if m is Ok && n is Ok {
                Some(NodeV::Normal(m->Ok_0, p->Ok_0, n->Ok_0))
            } else {
                None
            }
        } else if p->Err_0 == DecodeFailure::Shape {
            let n = spec_normal(rec);
            let m = spec_main_data(rec);
            if n is Ok && m is Ok {
                Some(NodeV::StandaloneNormal(m->Ok_0, n->Ok_0))
            } else {
                None
            }
        } else {
            None
        }
    } else {
        let p = spec_position_data(rec);
        if p is Ok {
            Some(NodeV::Root(p->Ok_0))
        } else {
            None
        }
    }
}

/// Classify one raw record into exactly one tagged node value; a record
/// the marker-to-shape contract rejects is a fatal structural error.
pub fn classify_node(rec: &RawRecord) -> (r: Result<Node, StructuralError>)
    ensures
        r is Ok <==> classify_spec(*rec) is Some,
        r is Ok ==> r->Ok_0@ == classify_spec(*rec).unwrap(),
        r is Err ==> r->Err_0 == StructuralError::BadRecord,
{
    if has_field(&rec.fields, "ascendancyName") {
        let a = match decode_ascendancy(rec) {
            Ok(v) => v,
            Err(_) => {
                return Err(StructuralError::BadRecord);
            },
        };
        let m = match decode_main_data(rec) {
            Ok(v) => v,
            Err(_) => {
                return Err(StructuralError::BadRecord);
            },
        };
        let p = match decode_position_data(rec) {
            Ok(v) => v,
            Err(_) => {
                return Err(StructuralError::BadRecord);
            },
        };
        Ok(Node::Ascendancy(m, p, a))
    } else if has_field(&rec.fields, "classStartIndex") {
        let c = match decode_class_start(rec) {
            Ok(v) => v,
            Err(_) => {
                return Err(StructuralError::BadRecord);
            },
        };
        let m = match decode_main_data(rec) {
            Ok(v) => v,
            Err(_) => {
                return Err(StructuralError::BadRecord);
            },
        };
        let p = match decode_position_data(rec) {
            Ok(v) => v,
            Err(_) => {
                return Err(StructuralError::BadRecord);
            },
        };
        Ok(Node::ClassStart(m, p, c))
    } else if has_field(&rec.fields, "isMastery") {
        match decode_mastery(rec) {
            Ok(mast) => {
                let p = match decode_position_data(rec) {
                    Ok(v) => v,
                    Err(_) => {
                        return Err(StructuralError::BadRecord);
                    },
                };
                let m = match decode_main_data(rec) {
                    Ok(v) => v,
                    Err(_) => {
                        return Err(StructuralError::BadRecord);
                    },
                };
                Ok(Node::Mastery(m, p, mast))
            },
            Err(DecodeFailure::Shape) => {
                let m = match decode_main_data(rec) {
                    Ok(v) => v,
                    Err(_) => {
                        return Err(StructuralError::BadRecord);
                    },
                };
                Ok(Node::DeprecatedMastery(m))
            },
            Err(DecodeFailure::Coercion) => Err(StructuralError::BadRecord),
        }
    } else if has_field(&rec.fields, "isProxy") {
        let m = match decode_main_data(rec) {
            Ok(v) => v,
            Err(_) => {
                return Err(StructuralError::BadRecord);
            },
        };
        let p = match decode_position_data(rec) {
            Ok(v) => v,
            Err(_) => {
                return Err(StructuralError::BadRecord);
            },
        };
        Ok(Node::Proxy(m, p))
    } else if has_field(&rec.fields, "isNotable") {
        match decode_position_data(rec) {
            Ok(p) => {
                let m = match decode_main_data(rec) {
                    Ok(v) => v,
                    Err(_) => {
                        return Err(StructuralError::BadRecord);
                    },
                };
                let nb = match decode_notable(rec) {
                    Ok(v) => v,
                    Err(_) => {
                        return Err(StructuralError::BadRecord);
                    },
                };
                Ok(Node::Notable(m, p, nb))
            },
            Err(DecodeFailure::Shape) => {
                let sn = match decode_standalone_notable(rec) {
                    Ok(v) => v,
                    Err(_) => {
                        return Err(StructuralError::BadRecord);
                    },
                };
                let m = match decode_main_data(rec) {
                    Ok(v) => v,
                    Err(_) => {
                        return Err(StructuralError::BadRecord);
                    },
                };
                Ok(Node::StandaloneNotable(m, sn))
            },
            Err(DecodeFailure::Coercion) => Err(StructuralError::BadRecord),
        }
    } else if has_field(&rec.fields, "isKeystone") {
        match decode_position_data(rec) {
            Ok(p) => {
                let m = match decode_main_data(rec) {
                    Ok(v) => v,
                    Err(_) => {
                        return Err(StructuralError::BadRecord);
                    },
                };
                let k = match decode_keystone(rec) {
                    Ok(v) => v,
                    Err(_) => {
                        return Err(StructuralError::BadRecord);
                    },
                };
                Ok(Node::Keystone(m, p, k))
            },
            Err(DecodeFailure::Shape) => {
                let k = match decode_keystone(rec) {
                    Ok(v) => v,
                    Err(_) => {
                        return Err(StructuralError::BadRecord);
                    },
                };
                let m = match decode_main_data(rec) {
                    Ok(v) => v,
                    Err(_) => {
                        return Err(StructuralError::BadRecord);
                    },
                };
                Ok(Node::StandaloneKeystone(m, k))
            },
            Err(DecodeFailure::Coercion) => Err(StructuralError::BadRecord),
        }
    } else if has_field(&rec.fields, "isJewelSocket") {
        match assoc_get(&rec.fields, "expansionJewel") {
            Some(v) => match v {
                RawValue::Obj(sub) => {
                    let ej = match decode_expansion_jewel(sub) {
                        Ok(v) => v,
                        Err(_) => {
                            return Err(StructuralError::BadRecord);
                        },
                    };
                    let p = match decode_position_data(rec) {
                        Ok(v) => v,
                        Err(_) => {
                            return Err(StructuralError::BadRecord);
                        },
                    };
                    let m = match decode_main_data(rec) {
                        Ok(v) => v,
                        Err(_) => {
                            return Err(StructuralError::BadRecord);
                        },
                    };
                    Ok(Node::ExpansionJewelSocket(m, p, ej))
                },
                _ => Err(StructuralError::BadRecord),
            },
            None => {
                let m = match decode_main_data(rec) {
                    Ok(v) => v,
                    Err(_) => {
                        return Err(StructuralError::BadRecord);
                    },
                };
                let p = match decode_position_data(rec) {
                    Ok(v) => v,
                    Err(_) => {
                        return Err(StructuralError::BadRecord);
                    },
                };
                Ok(Node::JewelSocket(m, p))
            },
        }
    } else if has_field(&rec.fields, "skill") {
        match decode_position_data(rec) {
            Ok(p) => {
                let m = match decode_main_data(rec) {
                    Ok(v) => v,
                    Err(_) => {
                        return Err(StructuralError::BadRecord);
                    },
                };
                let n = match decode_normal(rec) {
                    Ok(v) => v,
                    Err(_) => {
                        return Err(StructuralError::BadRecord);
                    },
                };
                Ok(Node::Normal(m, p, n))
            },
            Err(DecodeFailure::Shape) => {
                let n = match decode_normal(rec) {
                    Ok(v) => v,
                    Err(_) => {
                        return Err(StructuralError::BadRecord);
                    },
                };
                let m = match decode_main_data(rec) {
                    Ok(v) => v,
                    Err(_) => {
                        return Err(StructuralError::BadRecord);
                    },
                };
                Ok(Node::StandaloneNormal(m, n))
            },
            Err(DecodeFailure::Coercion) => Err(StructuralError::BadRecord),
        }
    } else {
        match decode_position_data(rec) {
            Ok(p) => Ok(Node::Root(p)),
            Err(_) => Err(StructuralError::BadRecord),
        }
    }
}

/// Classification is pure: it depends on the record's own fields alone, so
/// classifying the same record again yields the same variant tag and the
/// same field values.
pub proof fn lemma_classify_deterministic(r1: RawRecord, r2: RawRecord)
    requires
        r1 == r2,
    ensures
        classify_spec(r1) == classify_spec(r2),
{
}

} // verus!
