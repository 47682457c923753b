//! The tree document model: the top-level parsed document (bounding box,
//! group table, node table, layout constants), its well-formedness
//! invariant, the document decoder, and the orbit geometry engine.
//!
//! Coordinates are modelled in whole canvas units. The per-orbit step
//! vector — the orbit's radius times the sine and cosine of its angular
//! step — is trigonometry, which lies outside this model; the shell
//! computes it once per orbit and hands it in, and everything built on it
//! (slot scaling, table shapes, normalization) is specified and verified
//! here.

use vstd::prelude::*;

use crate::error::StructuralError;
use crate::classify::{classify_node, classify_spec};
use crate::node::{spec_position_v, Node, NodeV, PositionDataV};
use crate::parsing::{
    all_parse_u32, from_string_array_to_u32_box, from_string_key_to_u32_with_group,
    from_string_key_to_u32_with_node, node_key_spec, parse_u32_spec, parsed_u32s,
};
use crate::raw::RawRecord;
use crate::table::{dedup_last, lemma_dedup_map, lemma_dedup_unique, unique_keys};

verus! {

/// Magnitude bound on a per-orbit step coordinate; keeps every slot offset
/// within the machine's integer range.
pub const STEP_LIMIT: i64 = 0x4000_0000;

/// A placement anchor on the tree canvas: an anchor point, the orbit radii
/// indices the group uses, and the node ids placed on it.
#[derive(Debug, Clone, PartialEq, Eq)]
pub struct Group {
    pub x: i32,
    pub y: i32,
    pub orbits: Vec<u8>,
    pub nodes: Vec<u32>,
}

/// Spec-level image of [`Group`].
pub struct GroupV {
    pub x: i32,
    pub y: i32,
    pub orbits: Seq<u8>,
    pub nodes: Seq<u32>,
}

impl View for Group {
    type V = GroupV;

    open spec fn view(&self) -> GroupV {
        GroupV { x: self.x, y: self.y, orbits: self.orbits@, nodes: self.nodes@ }
    }
}

/// A group entry as the shell hands it over: the anchor already in whole
/// canvas units, the orbit list, and the still-textual node-id list.
#[derive(Debug, Clone, PartialEq, Eq)]
pub struct RawGroup {
    pub x: i32,
    pub y: i32,
    pub orbits: Vec<u8>,
    pub nodes: Vec<String>,
}

/// The layout constants embedded in the document: per-class starting
/// attribute tables, and the parallel radius and slot-count sequence of
/// every orbit, indexed by orbit number.
#[derive(Debug, Clone, PartialEq, Eq)]
pub struct Constants {
    pub classes: Vec<(String, u32)>,
    pub character_attributes: Vec<(String, u32)>,
    pub psscentre_inner_radius: u32,
    pub skills_per_orbit: Vec<u32>,
    pub orbit_radii: Vec<u32>,
}

/// The whole document before decoding: every table still keyed by its
/// textual keys, every node still a raw record.
pub struct RawTree {
    pub tree: String,
    pub groups: Vec<(String, RawGroup)>,
    pub nodes: Vec<(String, RawRecord)>,
    pub min_x: i32,
    pub min_y: i32,
    pub max_x: i32,
    pub max_y: i32,
    pub constants: Constants,
    pub orbit_steps: Vec<(i64, i64)>,
}

/// The top-level parsed document. Built once at load time and immutable
/// thereafter.
#[derive(Debug, PartialEq, Eq)]
pub struct PathOfExileSkillTree {
    pub tree: String,
    pub groups: Vec<(u32, Group)>,
    pub nodes: Vec<(u32, Node)>,
    pub min_x: i32,
    pub min_y: i32,
    pub max_x: i32,
    pub max_y: i32,
    pub constants: Constants,
    pub orbit_steps: Vec<(i64, i64)>,
}

/// Whether a node's placement stays inside the orbit tables: its orbit
/// exists, and its slot index lies under that orbit's slot count.
pub open spec fn position_ok(p: Option<PositionDataV>, slots: Seq<u32>) -> bool {
    match p {
        Some(pd) => (pd.orbit as int) < slots.len() && (pd.orbit_index as u32) < slots[pd.orbit as int],
        None => true,
    }
}

/// The value a raw group decodes to.
pub open spec fn spec_group_val(rg: RawGroup) -> GroupV {
    GroupV { x: rg.x, y: rg.y, orbits: rg.orbits@, nodes: parsed_u32s(rg.nodes@) }
}

/// The coerced group table before deduplication: parsed key, decoded value,
/// in document order.
pub open spec fn spec_group_pairs(gs: Seq<(String, RawGroup)>) -> Seq<(u32, GroupV)> {
    Seq::new(gs.len(), |i: int| (parse_u32_spec(gs[i].0@).unwrap(), spec_group_val(gs[i].1)))
}

/// Whether every group's textual node-id list coerces.
pub open spec fn spec_groups_decode_ok(gs: Seq<(String, RawGroup)>) -> bool {
    forall|i: int| 0 <= i < gs.len() ==> all_parse_u32((#[trigger] gs[i]).1.nodes@)
}

/// Whether every group-table key parses.
pub open spec fn spec_group_keys_ok(gs: Seq<(String, RawGroup)>) -> bool {
    forall|i: int| 0 <= i < gs.len() ==> parse_u32_spec((#[trigger] gs[i]).0@) is Some
}

/// The coerced node table before deduplication: coerced key, classified
/// node, in document order.
pub open spec fn spec_node_pairs(ns: Seq<(String, RawRecord)>) -> Seq<(u32, NodeV)> {
    Seq::new(ns.len(), |i: int| (node_key_spec(ns[i].0@).unwrap(), classify_spec(ns[i].1).unwrap()))
}

/// Whether every node record classifies.
pub open spec fn spec_records_ok(ns: Seq<(String, RawRecord)>) -> bool {
    forall|i: int| 0 <= i < ns.len() ==> classify_spec((#[trigger] ns[i]).1) is Some
}

/// Whether every node-table key coerces.
pub open spec fn spec_node_keys_ok(ns: Seq<(String, RawRecord)>) -> bool {
    forall|i: int| 0 <= i < ns.len() ==> node_key_spec((#[trigger] ns[i]).0@) is Some
}

/// The group table seen through its values' views.
pub open spec fn group_views(s: Seq<(u32, Group)>) -> Seq<(u32, GroupV)> {
    s.map_values(|p: (u32, Group)| (p.0, p.1@))
}

/// The node table seen through its values' views.
pub open spec fn node_views(s: Seq<(u32, Node)>) -> Seq<(u32, NodeV)> {
    s.map_values(|p: (u32, Node)| (p.0, p.1@))
}

/// The document invariant the rest of the raw document must satisfy: the
/// bounding box is ordered, the radius and slot-count sequences are
/// parallel and matched by a step vector each, step vectors are bounded,
/// and every placed node's orbit and slot stay inside those tables.
pub open spec fn spec_bounds_ok(raw: RawTree) -> bool {
    let nodes = dedup_last(spec_node_pairs(raw.nodes@));
    &&& raw.min_x <= raw.max_x
    &&& raw.min_y <= raw.max_y
    &&& raw.constants.orbit_radii@.len() == raw.constants.skills_per_orbit@.len()
    &&& raw.orbit_steps@.len() == raw.constants.skills_per_orbit@.len()
    &&& (forall|i: int|
        0 <= i < raw.orbit_steps@.len() ==> -STEP_LIMIT <= (#[trigger] raw.orbit_steps@[i]).0
            <= STEP_LIMIT && -STEP_LIMIT <= raw.orbit_steps@[i].1 <= STEP_LIMIT)
    &&& (forall|i: int|
        0 <= i < nodes.len() ==> position_ok(
            spec_position_v((#[trigger] nodes[i]).1),
            raw.constants.skills_per_orbit@,
        ))
}

/// Which structural violation aborts the decode of a raw document, checked
/// in the order the decoder works: group values, group keys, node records,
/// node keys, then the document invariant.
pub open spec fn spec_tree_error(raw: RawTree) -> StructuralError {
    if !spec_groups_decode_ok(raw.groups@) {
        StructuralError::BadNumber
    } else if !spec_group_keys_ok(raw.groups@) {
        StructuralError::BadKey
    } else if !spec_records_ok(raw.nodes@) {
        StructuralError::BadRecord
    } else if !spec_node_keys_ok(raw.nodes@) {
        StructuralError::BadKey
    } else {
        StructuralError::BadBounds
    }
}

impl PathOfExileSkillTree {
    /// Well-formedness: what the decoder establishes and every query may
    /// rely on.
    pub open spec fn wf(self) -> bool {
        &&& unique_keys(self.groups@)
        &&& unique_keys(self.nodes@)
        &&& self.min_x <= self.max_x
        &&& self.min_y <= self.max_y
        &&& self.constants.orbit_radii@.len() == self.constants.skills_per_orbit@.len()
        &&& self.orbit_steps@.len() == self.constants.skills_per_orbit@.len()
        &&& (forall|i: int|
            0 <= i < self.orbit_steps@.len() ==> -STEP_LIMIT <= (#[trigger] self.orbit_steps@[
                i
            ]).0 <= STEP_LIMIT && -STEP_LIMIT <= self.orbit_steps@[i].1 <= STEP_LIMIT)
        &&& (forall|i: int|
            0 <= i < self.nodes@.len() ==> position_ok(
                spec_position_v((#[trigger] self.nodes@[i]).1@),
                self.constants.skills_per_orbit@,
            ))
    }

    /// The document extent: width and height of the bounding box, each
    /// non-negative on a well-formed document.
    pub fn get_base_size(&self) -> (r: (i64, i64))
        ensures
            r.0 == self.max_x as int - self.min_x as int,
            r.1 == self.max_y as int - self.min_y as int,
            self.wf() ==> r.0 >= 0 && r.1 >= 0,
    {
        ((self.max_x as i64) - (self.min_x as i64), (self.max_y as i64) - (self.min_y as i64))
    }

    /// Every group's anchor, normalized so the minimum document coordinate
    /// maps to the origin: exactly anchor minus minimum, no rounding, one
    /// entry per group in table order.
    pub fn get_group_locations(&self) -> (r: Vec<(u32, (i64, i64))>)
        ensures
            r@.len() == self.groups@.len(),
            forall|i: int|
                0 <= i < r@.len() ==> (#[trigger] r@[i]).0 == self.groups@[i].0 && r@[i].1.0
                    == self.groups@[i].1.x as int - self.min_x as int && r@[i].1.1
                    == self.groups@[i].1.y as int - self.min_y as int,
    {
        let mut out: Vec<(u32, (i64, i64))> = Vec::new();
        let mut i: usize = 0;
        while i < self.groups.len()
            invariant
                0 <= i <= self.groups@.len(),
                out@.len() == i,
                forall|j: int|
                    0 <= j < i ==> (#[trigger] out@[j]).0 == self.groups@[j].0 && out@[j].1.0
                        == self.groups@[j].1.x as int - self.min_x as int && out@[j].1.1
                        == self.groups@[j].1.y as int - self.min_y as int,
            decreases self.groups@.len() - i,
        {
            let pair = &self.groups[i];
            let adjusted_x = (pair.1.x as i64) - (self.min_x as i64);
            let adjusted_y = (pair.1.y as i64) - (self.min_y as i64);
            out.push((pair.0, (adjusted_x, adjusted_y)));
            i += 1;
        }
        out
    }

    /// The Cartesian offset of every (orbit, slot) pair: orbit `i` has one
    /// offset per slot, and slot `k`'s offset is `k` times the orbit's step
    /// vector — so slot 0 of every orbit is the origin. (The layout law
    /// scales the single-step vector by the slot index; it does not rotate
    /// by the slot angle.)
    pub fn calculate_orbits(&self) -> (r: Vec<Vec<(i64, i64)>>)
        requires
            self.wf(),
        ensures
            r@.len() == self.constants.skills_per_orbit@.len(),
            forall|i: int|
                0 <= i < r@.len() ==> (#[trigger] r@[i])@.len()
                    == self.constants.skills_per_orbit@[i],
            forall|i: int, k: int|
                0 <= i < r@.len() && 0 <= k < r@[i]@.len() ==> (#[trigger] r@[i]@[k]).0 == k
                    * self.orbit_steps@[i].0 && r@[i]@[k].1 == k * self.orbit_steps@[i].1,
            forall|i: int|
                0 <= i < r@.len() && r@[i]@.len() > 0 ==> (#[trigger] r@[i])@[0].0 == 0
                    && r@[i]@[0].1 == 0,
    {
        let mut orbits: Vec<Vec<(i64, i64)>> = Vec::new();
        let mut i: usize = 0;
        while i < self.constants.skills_per_orbit.len()
            invariant
                self.wf(),
                0 <= i <= self.constants.skills_per_orbit@.len(),
                orbits@.len() == i,
                forall|j: int|
                    0 <= j < i ==> (#[trigger] orbits@[j])@.len()
                        == self.constants.skills_per_orbit@[j],
                forall|j: int, k: int|
                    0 <= j < i && 0 <= k < orbits@[j]@.len() ==> (#[trigger] orbits@[j]@[k]).0 == k
                        * self.orbit_steps@[j].0 && orbits@[j]@[k].1 == k * self.orbit_steps@[j].1,
            decreases self.constants.skills_per_orbit@.len() - i,
        {
            let n = self.constants.skills_per_orbit[i];
            let step = self.orbit_steps[i];
            let mut row: Vec<(i64, i64)> = Vec::new();
            let mut k: u32 = 0;
            while k < n
                invariant
                    0 <= k <= n,
                    row@.len() == k,
                    -STEP_LIMIT <= step.0 <= STEP_LIMIT,
                    -STEP_LIMIT <= step.1 <= STEP_LIMIT,
                    forall|m: int|
                        0 <= m < k ==> (#[trigger] row@[m]).0 == m * step.0 && row@[m].1 == m
                            * step.1,
                decreases n - k,
            {
                proof {
                    assert(-0x7fff_ffff_ffff_ffff <= (k as int) * (step.0 as int)
                        <= 0x7fff_ffff_ffff_ffff) by (nonlinear_arith)
                        requires
                            0 <= k < 0x1_0000_0000,
                            -0x4000_0000 <= step.0 <= 0x4000_0000,
                    ;
                    assert(-0x7fff_ffff_ffff_ffff <= (k as int) * (step.1 as int)
                        <= 0x7fff_ffff_ffff_ffff) by (nonlinear_arith)
                        requires
                            0 <= k < 0x1_0000_0000,
                            -0x4000_0000 <= step.1 <= 0x4000_0000,
                    ;
                }
                let x = (k as i64) * step.0;
                let y = (k as i64) * step.1;
                row.push((x, y));
                k += 1;
            }
            orbits.push(row);
            i += 1;
        }
        orbits
    }
}

/// Decode one raw group: coerce its textual node-id list; any element that
/// fails to parse is fatal.
pub fn decode_group(rg: &RawGroup) -> (r: Result<Group, StructuralError>)
    ensures
        r is Ok <==> all_parse_u32(rg.nodes@),
        r is Ok ==> r->Ok_0@ == spec_group_val(*rg),
        r is Err ==> r->Err_0 == StructuralError::BadNumber,
{
    let ids = match from_string_array_to_u32_box(&rg.nodes) {
        Ok(v) => v,
        Err(_) => {
            return Err(StructuralError::BadNumber);
        },
    };
    let mut orbits: Vec<u8> = Vec::new();
    let mut i: usize = 0;
    while i < rg.orbits.len()
        invariant
            0 <= i <= rg.orbits@.len(),
            orbits@ == rg.orbits@.take(i as int),
        decreases rg.orbits@.len() - i,
    {
        orbits.push(rg.orbits[i]);
        proof {
            assert(orbits@ =~= rg.orbits@.take(i + 1));
        }
        i += 1;
    }
    proof {
        assert(rg.orbits@.take(rg.orbits@.len() as int) =~= rg.orbits@);
    }
    Ok(Group { x: rg.x, y: rg.y, orbits, nodes: ids })
}

/// Whether every placed node of the table stays inside the orbit tables.
fn check_positions(nodes: &Vec<(u32, Node)>, slots: &Vec<u32>) -> (r: bool)
    ensures
        r == (forall|i: int|
            0 <= i < nodes@.len() ==> position_ok(
                spec_position_v((#[trigger] nodes@[i]).1@),
                slots@,
            )),
{
    let mut i: usize = 0;
    while i < nodes.len()
        invariant
            0 <= i <= nodes@.len(),
            forall|j: int|
                0 <= j < i ==> position_ok(spec_position_v((#[trigger] nodes@[j]).1@), slots@),
        decreases nodes@.len() - i,
    {
        let pair = &nodes[i];
        proof {
            crate::node::lemma_position_view(pair.1);
        }
        match pair.1.get_position_data() {
            Some(p) => {
                if !((p.orbit as usize) < slots.len()) {
                    return false;
                }
                if !((p.orbit_index as u32) < slots[p.orbit as usize]) {
                    return false;
                }
            },
            None => {},
        }
        i += 1;
    }
    true
}


/// Decode the group table: every value first (its textual node-id list),
/// then every key, keeping the last entry of colliding coerced keys.
pub fn decode_groups_stage(gs: &Vec<(String, RawGroup)>) -> (r: Result<
    Vec<(u32, Group)>,
    StructuralError,
>)
    ensures
        r is Ok <==> spec_groups_decode_ok(gs@) && spec_group_keys_ok(gs@),
        r is Ok ==> group_views(r->Ok_0@) == dedup_last(spec_group_pairs(gs@)) && unique_keys(
            r->Ok_0@,
        ),
        r is Err ==> r->Err_0 == (if !spec_groups_decode_ok(gs@) {
            StructuralError::BadNumber
        } else {
            StructuralError::BadKey
        }),
{
    let mut gvals: Vec<(String, Group)> = Vec::new();
    let mut i: usize = 0;
    while i < gs.len()
        invariant
            0 <= i <= gs@.len(),
            gvals@.len() == i,
            forall|j: int| 0 <= j < i ==> all_parse_u32((#[trigger] gs@[j]).1.nodes@),
            forall|j: int| 0 <= j < i ==> (#[trigger] gvals@[j]).0 == gs@[j].0,
            forall|j: int| 0 <= j < i ==> (#[trigger] gvals@[j]).1@ == spec_group_val(gs@[j].1),
        decreases gs@.len() - i,
    {
        let pair = &gs[i];
        match decode_group(&pair.1) {
            Ok(g) => {
                gvals.push((pair.0.clone(), g));
            },
            Err(_) => {
                proof {
                    assert(!all_parse_u32(gs@[i as int].1.nodes@));
                }
                return Err(StructuralError::BadNumber);
            },
        }
        i += 1;
    }
    proof {
        assert(spec_groups_decode_ok(gs@));
    }
    let ghost gseq = gvals@;
    let groups = match from_string_key_to_u32_with_group(gvals) {
        Ok(g) => g,
        Err(_) => {
            proof {
                let j = choose|j: int| 0 <= j < gseq.len() && parse_u32_spec(
                    #[trigger] gseq[j].0@,
                ) is None;
                assert(gseq[j].0 == gs@[j].0);
                assert(parse_u32_spec(gs@[j].0@) is None);
                assert(!spec_group_keys_ok(gs@));
            }
            return Err(StructuralError::BadKey);
        },
    };
    proof {
        assert forall|j: int| 0 <= j < gs@.len() implies parse_u32_spec(
            (#[trigger] gs@[j]).0@,
        ) is Some by {
            assert(gseq[j].0 == gs@[j].0);
        }
        assert(spec_group_keys_ok(gs@));
        let f = |g: Group| g@;
        let exec_pairs = Seq::new(
            gseq.len(),
            |j: int| (parse_u32_spec(gseq[j].0@).unwrap(), gseq[j].1),
        );
        assert(groups@ == dedup_last(exec_pairs));
        lemma_dedup_map::<Group, GroupV>(exec_pairs, f);
        lemma_dedup_unique(exec_pairs);
        assert(unique_keys(groups@));
        assert(exec_pairs.map_values(|p: (u32, Group)| (p.0, f(p.1))) =~= spec_group_pairs(gs@));
        assert(group_views(groups@) =~= dedup_last(exec_pairs).map_values(
            |p: (u32, Group)| (p.0, f(p.1)),
        ));
        assert(group_views(groups@) == dedup_last(spec_group_pairs(gs@)));
    }
    Ok(groups)
}

/// Decode the node table: classify every record first, then coerce every
/// key, keeping the last entry of colliding coerced keys.
pub fn decode_nodes_stage(ns: &Vec<(String, RawRecord)>) -> (r: Result<
    Vec<(u32, Node)>,
    StructuralError,
>)
    ensures
        r is Ok <==> spec_records_ok(ns@) && spec_node_keys_ok(ns@),
        r is Ok ==> node_views(r->Ok_0@) == dedup_last(spec_node_pairs(ns@)) && unique_keys(
            r->Ok_0@,
        ),
        r is Err ==> r->Err_0 == (if !spec_records_ok(ns@) {
            StructuralError::BadRecord
        } else {
            StructuralError::BadKey
        }),
{
    let mut nvals: Vec<(String, Node)> = Vec::new();
    let mut i: usize = 0;
    while i < ns.len()
        invariant
            0 <= i <= ns@.len(),
            nvals@.len() == i,
            forall|j: int| 0 <= j < i ==> classify_spec((#[trigger] ns@[j]).1) is Some,
            forall|j: int| 0 <= j < i ==> (#[trigger] nvals@[j]).0 == ns@[j].0,
            forall|j: int| 0 <= j < i ==> (#[trigger] nvals@[j]).1@ == classify_spec(
                ns@[j].1,
            ).unwrap(),
        decreases ns@.len() - i,
    {
        let pair = &ns[i];
        match classify_node(&pair.1) {
            Ok(n) => {
                nvals.push((pair.0.clone(), n));
            },
            Err(_) => {
                proof {
                    assert(classify_spec(ns@[i as int].1) is None);
                }
                return Err(StructuralError::BadRecord);
            },
        }
        i += 1;
    }
    proof {
        assert(spec_records_ok(ns@));
    }
    let ghost nseq = nvals@;
    let nodes = match from_string_key_to_u32_with_node(nvals) {
        Ok(n) => n,
        Err(_) => {
            proof {
                let j = choose|j: int| 0 <= j < nseq.len() && node_key_spec(
                    #[trigger] nseq[j].0@,
                ) is None;
                assert(nseq[j].0 == ns@[j].0);
                assert(node_key_spec(ns@[j].0@) is None);
                assert(!spec_node_keys_ok(ns@));
            }
            return Err(StructuralError::BadKey);
        },
    };
    proof {
        assert forall|j: int| 0 <= j < ns@.len() implies node_key_spec(
            (#[trigger] ns@[j]).0@,
        ) is Some by {
            assert(nseq[j].0 == ns@[j].0);
        }
        assert(spec_node_keys_ok(ns@));
        let f = |n: Node| n@;
        let exec_pairs = Seq::new(
            nseq.len(),
            |j: int| (node_key_spec(nseq[j].0@).unwrap(), nseq[j].1),
        );
        assert(nodes@ == dedup_last(exec_pairs));
        lemma_dedup_map::<Node, NodeV>(exec_pairs, f);
        lemma_dedup_unique(exec_pairs);
        assert(unique_keys(nodes@));
        assert(exec_pairs.map_values(|p: (u32, Node)| (p.0, f(p.1))) =~= spec_node_pairs(ns@));
        assert(node_views(nodes@) =~= dedup_last(exec_pairs).map_values(
            |p: (u32, Node)| (p.0, f(p.1)),
        ));
        assert(node_views(nodes@) == dedup_last(spec_node_pairs(ns@)));
    }
    Ok(nodes)
}

/// Decode a whole raw document: decode every group, coerce the group keys,
/// classify every node record, coerce the node keys, and check the
/// document invariant. Any failure aborts the whole load; there is no
/// partial document.
pub fn decode_tree(raw: RawTree) -> (r: Result<PathOfExileSkillTree, StructuralError>)
    ensures
        r is Ok <==> spec_groups_decode_ok(raw.groups@) && spec_group_keys_ok(raw.groups@)
            && spec_records_ok(raw.nodes@) && spec_node_keys_ok(raw.nodes@) && spec_bounds_ok(raw),
        r is Ok ==> {
            let t = r->Ok_0;
            &&& t.tree == raw.tree
            &&& t.min_x == raw.min_x
            &&& t.min_y == raw.min_y
            &&& t.max_x == raw.max_x
            &&& t.max_y == raw.max_y
            &&& t.constants == raw.constants
            &&& t.orbit_steps == raw.orbit_steps
            &&& group_views(t.groups@) == dedup_last(spec_group_pairs(raw.groups@))
            &&& node_views(t.nodes@) == dedup_last(spec_node_pairs(raw.nodes@))
            &&& t.wf()
        },
        r is Err ==> r->Err_0 == spec_tree_error(raw),
{
    let groups = match decode_groups_stage(&raw.groups) {
        Ok(g) => g,
        Err(e) => {
            return Err(e);
        },
    };
    let nodes = match decode_nodes_stage(&raw.nodes) {
        Ok(n) => n,
        Err(e) => {
            return Err(e);
        },
    };
    let ghost dn = dedup_last(spec_node_pairs(raw.nodes@));
    if raw.min_x > raw.max_x || raw.min_y > raw.max_y {
        return Err(StructuralError::BadBounds);
    }
    if raw.constants.orbit_radii.len() != raw.constants.skills_per_orbit.len() {
        return Err(StructuralError::BadBounds);
    }
    if raw.orbit_steps.len() != raw.constants.skills_per_orbit.len() {
        return Err(StructuralError::BadBounds);
    }
    let mut i: usize = 0;
    while i < raw.orbit_steps.len()
        invariant
            0 <= i <= raw.orbit_steps@.len(),
            spec_groups_decode_ok(raw.groups@),
            spec_group_keys_ok(raw.groups@),
            spec_records_ok(raw.nodes@),
            spec_node_keys_ok(raw.nodes@),
            forall|j: int|
                0 <= j < i ==> -STEP_LIMIT <= (#[trigger] raw.orbit_steps@[j]).0 <= STEP_LIMIT
                    && -STEP_LIMIT <= raw.orbit_steps@[j].1 <= STEP_LIMIT,
        decreases raw.orbit_steps@.len() - i,
    {
        let step = raw.orbit_steps[i];
        if step.0 > STEP_LIMIT || step.0 < -STEP_LIMIT || step.1 > STEP_LIMIT || step.1
            < -STEP_LIMIT {
            proof {
                assert(!(-STEP_LIMIT <= raw.orbit_steps@[i as int].0 <= STEP_LIMIT && -STEP_LIMIT
                    <= raw.orbit_steps@[i as int].1 <= STEP_LIMIT));
                assert(!spec_bounds_ok(raw));
            }
            return Err(StructuralError::BadBounds);
        }
        i += 1;
    }
    if !check_positions(&nodes, &raw.constants.skills_per_orbit) {
        proof {
            let j = choose|j: int|
                0 <= j < nodes@.len() && !position_ok(
                    spec_position_v((#[trigger] nodes@[j]).1@),
                    raw.constants.skills_per_orbit@,
                );
            assert(dn == node_views(nodes@));
            assert(dn[j] == (nodes@[j].0, nodes@[j].1@));
            assert(!position_ok(spec_position_v(dn[j].1), raw.constants.skills_per_orbit@));
            assert(!spec_bounds_ok(raw));
        }
        return Err(StructuralError::BadBounds);
    }
    proof {
        assert forall|j: int| 0 <= j < dn.len() implies position_ok(
            spec_position_v((#[trigger] dn[j]).1),
            raw.constants.skills_per_orbit@,
        ) by {
            assert(dn[j] == (nodes@[j].0, nodes@[j].1@));
            assert(position_ok(spec_position_v(nodes@[j].1@), raw.constants.skills_per_orbit@));
        }
        assert(spec_bounds_ok(raw));
    }
    let t = PathOfExileSkillTree {
        tree: raw.tree,
        groups,
        nodes,
        min_x: raw.min_x,
        min_y: raw.min_y,
        max_x: raw.max_x,
        max_y: raw.max_y,
        constants: raw.constants,
        orbit_steps: raw.orbit_steps,
    };
    proof {
        assert(t.wf());
    }
    Ok(t)
}

} // verus!
