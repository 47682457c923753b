//! The node data model: a tagged union over the disjoint record shapes of
//! the document, each variant carrying up to three orthogonal blocks of
//! data (main data, position data, and a variant-specific payload), plus
//! the spec-level views the contracts speak of.

use vstd::prelude::*;

verus! {

/// The main descriptive block: numeric skill identifier, display name, icon
/// reference, and the concatenated stat-description text.
#[derive(Debug, Clone, PartialEq, Eq)]
pub struct NodeMainData {
    pub skill: u32,
    pub name: String,
    pub icon: String,
    pub stats: String,
}

/// The placement block: owning group, orbit, slot on that orbit, and the
/// outgoing and incoming adjacency lists.
#[derive(Debug, Clone, PartialEq, Eq)]
pub struct NodePositionData {
    pub group: u32,
    pub orbit: u8,
    pub orbit_index: u8,
    pub out_nodes: Vec<u32>,
    pub in_nodes: Vec<u32>,
}

/// Granted attribute bonuses, each defaulting to zero when absent.
#[derive(Debug, Clone, Copy, PartialEq, Eq, Structural)]
pub struct Attribute {
    pub granted_strength: u8,
    pub granted_dexterity: u8,
    pub granted_intelligence: u8,
}

/// Payload of an ascendancy node.
#[derive(Debug, Clone, PartialEq, Eq)]
pub struct AscendancyNode {
    pub is_notable: bool,
    pub attribute: Attribute,
    pub flavour_text: Option<String>,
    pub reminder_text: Option<String>,
    pub is_jewel_socket: bool,
    pub ascendancy: String,
    pub is_ascendancy_start: bool,
    pub granted_passive_points: u8,
    pub is_multiple_choice: bool,
    pub is_multiple_choice_option: bool,
}

/// Payload of a class-start node.
#[derive(Debug, Clone, Copy, PartialEq, Eq, Structural)]
pub struct ClassStartNode {
    pub class_start_index: u8,
}

/// Payload of a mastery node: the icon triple and the effect list.
#[derive(Debug, Clone, PartialEq, Eq)]
pub struct MasteryNode {
    pub inactive_icon: String,
    pub active_icon: String,
    pub active_effect_image: String,
    pub mastery_effects: Vec<MasteryEffect>,
}

/// One selectable mastery effect.
#[derive(Debug, Clone, PartialEq, Eq)]
pub struct MasteryEffect {
    pub effect: u32,
    pub stats: String,
    pub reminder_text: Option<String>,
}

/// Payload of a notable node.
#[derive(Debug, Clone, PartialEq, Eq)]
pub struct NotableNode {
    pub reminder_text: Option<String>,
    pub recipe: String,
    pub is_blighted: bool,
    pub attribute: Attribute,
}

/// Payload of a keystone node.
#[derive(Debug, Clone, PartialEq, Eq)]
pub struct KeystoneNode {
    pub flavour_text: Option<String>,
    pub reminder_text: Option<String>,
}

/// Payload of a standalone notable node (no placement).
#[derive(Debug, Clone, PartialEq, Eq)]
pub struct StandaloneNotableNode {
    pub reminder_text: Option<String>,
    pub attribute: Attribute,
}

/// Payload of an expansion jewel socket.
#[derive(Debug, Clone, Copy, PartialEq, Eq)]
pub struct ExpansionJewelNode {
    pub size: u8,
    pub index: u8,
    pub proxy: u32,
    pub parent: Option<u32>,
}

/// Payload of a normal skill node.
#[derive(Debug, Clone, PartialEq, Eq)]
pub struct NormalNode {
    pub reminder_text: Option<String>,
    pub attribute: Attribute,
}

/// One node of the tree: exactly one tagged variant per record. A variant
/// without position data is a standalone shape, carried for reference
/// display only and never placed in the graph.
#[derive(Debug, Clone, PartialEq, Eq)]
pub enum Node {
    Normal(NodeMainData, NodePositionData, NormalNode),
    StandaloneNormal(NodeMainData, NormalNode),
    Notable(NodeMainData, NodePositionData, NotableNode),
    StandaloneNotable(NodeMainData, StandaloneNotableNode),
    Keystone(NodeMainData, NodePositionData, KeystoneNode),
    StandaloneKeystone(NodeMainData, KeystoneNode),
    Mastery(NodeMainData, NodePositionData, MasteryNode),
    JewelSocket(NodeMainData, NodePositionData),
    ExpansionJewelSocket(NodeMainData, NodePositionData, ExpansionJewelNode),
    Ascendancy(NodeMainData, NodePositionData, AscendancyNode),
    ClassStart(NodeMainData, NodePositionData, ClassStartNode),
    Proxy(NodeMainData, NodePositionData),
    Root(NodePositionData),
    DeprecatedMastery(NodeMainData),
}

/// The view of an optional text field.
pub open spec fn view_opt_str(o: Option<String>) -> Option<Seq<char>> {
    match o {
        Some(s) => Some(s@),
        None => None,
    }
}

/// Spec-level image of [`NodeMainData`].
pub struct MainDataV {
    pub skill: u32,
    pub name: Seq<char>,
    pub icon: Seq<char>,
    pub stats: Seq<char>,
}

impl View for NodeMainData {
    type V = MainDataV;

    open spec fn view(&self) -> MainDataV {
        MainDataV { skill: self.skill, name: self.name@, icon: self.icon@, stats: self.stats@ }
    }
}

/// Spec-level image of [`NodePositionData`].
pub struct PositionDataV {
    pub group: u32,
    pub orbit: u8,
    pub orbit_index: u8,
    pub out_nodes: Seq<u32>,
    pub in_nodes: Seq<u32>,
}

impl View for NodePositionData {
    type V = PositionDataV;

    open spec fn view(&self) -> PositionDataV {
        PositionDataV {
            group: self.group,
            orbit: self.orbit,
            orbit_index: self.orbit_index,
            out_nodes: self.out_nodes@,
            in_nodes: self.in_nodes@,
        }
    }
}

/// Spec-level image of [`AscendancyNode`].
pub struct AscendancyV {
    pub is_notable: bool,
    pub attribute: Attribute,
    pub flavour_text: Option<Seq<char>>,
    pub reminder_text: Option<Seq<char>>,
    pub is_jewel_socket: bool,
    pub ascendancy: Seq<char>,
    pub is_ascendancy_start: bool,
    pub granted_passive_points: u8,
    pub is_multiple_choice: bool,
    pub is_multiple_choice_option: bool,
}

impl View for AscendancyNode {
    type V = AscendancyV;

    open spec fn view(&self) -> AscendancyV {
        AscendancyV {
            is_notable: self.is_notable,
            attribute: self.attribute,
            flavour_text: view_opt_str(self.flavour_text),
            reminder_text: view_opt_str(self.reminder_text),
            is_jewel_socket: self.is_jewel_socket,
            ascendancy: self.ascendancy@,
            is_ascendancy_start: self.is_ascendancy_start,
            granted_passive_points: self.granted_passive_points,
            is_multiple_choice: self.is_multiple_choice,
            is_multiple_choice_option: self.is_multiple_choice_option,
        }
    }
}

/// Spec-level image of [`MasteryEffect`].
pub struct MasteryEffectV {
    pub effect: u32,
    pub stats: Seq<char>,
    pub reminder_text: Option<Seq<char>>,
}

impl View for MasteryEffect {
    type V = MasteryEffectV;

    open spec fn view(&self) -> MasteryEffectV {
        MasteryEffectV {
            effect: self.effect,
            stats: self.stats@,
            reminder_text: view_opt_str(self.reminder_text),
        }
    }
}

/// Spec-level image of [`MasteryNode`].
pub struct MasteryV {
    pub inactive_icon: Seq<char>,
    pub active_icon: Seq<char>,
    pub active_effect_image: Seq<char>,
    pub mastery_effects: Seq<MasteryEffectV>,
}

impl View for MasteryNode {
    type V = MasteryV;

    open spec fn view(&self) -> MasteryV {
        MasteryV {
            inactive_icon: self.inactive_icon@,
            active_icon: self.active_icon@,
            active_effect_image: self.active_effect_image@,
            mastery_effects: self.mastery_effects@.map_values(|e: MasteryEffect| e@),
        }
    }
}

/// Spec-level image of [`NotableNode`].
pub struct NotableV {
    pub reminder_text: Option<Seq<char>>,
    pub recipe: Seq<char>,
    pub is_blighted: bool,
    pub attribute: Attribute,
}

impl View for NotableNode {
    type V = NotableV;

    open spec fn view(&self) -> NotableV {
        NotableV {
            reminder_text: view_opt_str(self.reminder_text),
            recipe: self.recipe@,
            is_blighted: self.is_blighted,
            attribute: self.attribute,
        }
    }
}

/// Spec-level image of [`KeystoneNode`].
pub struct KeystoneV {
    pub flavour_text: Option<Seq<char>>,
    pub reminder_text: Option<Seq<char>>,
}

impl View for KeystoneNode {
    type V = KeystoneV;

    open spec fn view(&self) -> KeystoneV {
        KeystoneV {
            flavour_text: view_opt_str(self.flavour_text),
            reminder_text: view_opt_str(self.reminder_text),
        }
    }
}

/// Spec-level image of [`StandaloneNotableNode`].
pub struct StandaloneNotableV {
    pub reminder_text: Option<Seq<char>>,
    pub attribute: Attribute,
}

impl View for StandaloneNotableNode {
    type V = StandaloneNotableV;

    open spec fn view(&self) -> StandaloneNotableV {
        StandaloneNotableV {
            reminder_text: view_opt_str(self.reminder_text),
            attribute: self.attribute,
        }
    }
}

/// Spec-level image of [`NormalNode`].
pub struct NormalV {
    pub reminder_text: Option<Seq<char>>,
    pub attribute: Attribute,
}

impl View for NormalNode {
    type V = NormalV;

    open spec fn view(&self) -> NormalV {
        NormalV {
            reminder_text: view_opt_str(self.reminder_text),
            attribute: self.attribute,
        }
    }
}

/// Spec-level image of [`Node`].
pub enum NodeV {
    Normal(MainDataV, PositionDataV, NormalV),
    StandaloneNormal(MainDataV, NormalV),
    Notable(MainDataV, PositionDataV, NotableV),
    StandaloneNotable(MainDataV, StandaloneNotableV),
    Keystone(MainDataV, PositionDataV, KeystoneV),
    StandaloneKeystone(MainDataV, KeystoneV),
    Mastery(MainDataV, PositionDataV, MasteryV),
    JewelSocket(MainDataV, PositionDataV),
    ExpansionJewelSocket(MainDataV, PositionDataV, ExpansionJewelNode),
    Ascendancy(MainDataV, PositionDataV, AscendancyV),
    ClassStart(MainDataV, PositionDataV, ClassStartNode),
    Proxy(MainDataV, PositionDataV),
    Root(PositionDataV),
    DeprecatedMastery(MainDataV),
}

impl View for Node {
    type V = NodeV;

    open spec fn view(&self) -> NodeV {
        match self {
            Node::Normal(m, p, x) => NodeV::Normal(m@, p@, x@),
            Node::StandaloneNormal(m, x) => NodeV::StandaloneNormal(m@, x@),
            Node::Notable(m, p, x) => NodeV::Notable(m@, p@, x@),
            Node::StandaloneNotable(m, x) => NodeV::StandaloneNotable(m@, x@),
            Node::Keystone(m, p, x) => NodeV::Keystone(m@, p@, x@),
            Node::StandaloneKeystone(m, x) => NodeV::StandaloneKeystone(m@, x@),
            Node::Mastery(m, p, x) => NodeV::Mastery(m@, p@, x@),
            Node::JewelSocket(m, p) => NodeV::JewelSocket(m@, p@),
            Node::ExpansionJewelSocket(m, p, x) => NodeV::ExpansionJewelSocket(m@, p@, *x),
            Node::Ascendancy(m, p, x) => NodeV::Ascendancy(m@, p@, x@),
            Node::ClassStart(m, p, x) => NodeV::ClassStart(m@, p@, *x),
            Node::Proxy(m, p) => NodeV::Proxy(m@, p@),
            Node::Root(p) => NodeV::Root(p@),
            Node::DeprecatedMastery(m) => NodeV::DeprecatedMastery(m@),
        }
    }
}

/// The position block of a node's spec-level image, if its variant
/// carries any.
pub open spec fn spec_position_v(n: NodeV) -> Option<PositionDataV> {
    match n {
        NodeV::Normal(_, p, _) => Some(p),
        NodeV::StandaloneNormal(_, _) => None,
        NodeV::Notable(_, p, _) => Some(p),
        NodeV::StandaloneNotable(_, _) => None,
        NodeV::Keystone(_, p, _) => Some(p),
        NodeV::StandaloneKeystone(_, _) => None,
        NodeV::Mastery(_, p, _) => Some(p),
        NodeV::JewelSocket(_, p) => Some(p),
        NodeV::ExpansionJewelSocket(_, p, _) => Some(p),
        NodeV::Ascendancy(_, p, _) => Some(p),
        NodeV::ClassStart(_, p, _) => Some(p),
        NodeV::Proxy(_, p) => Some(p),
        NodeV::Root(p) => Some(p),
        NodeV::DeprecatedMastery(_) => None,
    }
}

/// A node's view carries a position block exactly when the node does, and
/// the block's view is the view's block.
pub proof fn lemma_position_view(n: Node)
    ensures
        match spec_position(n) {
            Some(p) => spec_position_v(n@) == Some(p@),
            None => spec_position_v(n@) is None,
        },
{
    match n {
        Node::Normal(_, _, _) => {},
        Node::StandaloneNormal(_, _) => {},
        Node::Notable(_, _, _) => {},
        Node::StandaloneNotable(_, _) => {},
        Node::Keystone(_, _, _) => {},
        Node::StandaloneKeystone(_, _) => {},
        Node::Mastery(_, _, _) => {},
        Node::JewelSocket(_, _) => {},
        Node::ExpansionJewelSocket(_, _, _) => {},
        Node::Ascendancy(_, _, _) => {},
        Node::ClassStart(_, _, _) => {},
        Node::Proxy(_, _) => {},
        Node::Root(_) => {},
        Node::DeprecatedMastery(_) => {},
    }
}

/// The position data of a node, if its variant carries any.
pub open spec fn spec_position(n: Node) -> Option<NodePositionData> {
    match n {
        Node::Normal(_, p, _) => Some(p),
        Node::StandaloneNormal(_, _) => None,
        Node::Notable(_, p, _) => Some(p),
        Node::StandaloneNotable(_, _) => None,
        Node::Keystone(_, p, _) => Some(p),
        Node::StandaloneKeystone(_, _) => None,
        Node::Mastery(_, p, _) => Some(p),
        Node::JewelSocket(_, p) => Some(p),
        Node::ExpansionJewelSocket(_, p, _) => Some(p),
        Node::Ascendancy(_, p, _) => Some(p),
        Node::ClassStart(_, p, _) => Some(p),
        Node::Proxy(_, p) => Some(p),
        Node::Root(p) => Some(p),
        Node::DeprecatedMastery(_) => None,
    }
}

/// The main data of a node, if its variant carries any. Only the synthetic
/// root record has none.
pub open spec fn spec_main(n: Node) -> Option<NodeMainData> {
    match n {
        Node::Normal(m, _, _) => Some(m),
        Node::StandaloneNormal(m, _) => Some(m),
        Node::Notable(m, _, _) => Some(m),
        Node::StandaloneNotable(m, _) => Some(m),
        Node::Keystone(m, _, _) => Some(m),
        Node::StandaloneKeystone(m, _) => Some(m),
        Node::Mastery(m, _, _) => Some(m),
        Node::JewelSocket(m, _) => Some(m),
        Node::ExpansionJewelSocket(m, _, _) => Some(m),
        Node::Ascendancy(m, _, _) => Some(m),
        Node::ClassStart(m, _, _) => Some(m),
        Node::Proxy(m, _) => Some(m),
        Node::Root(_) => None,
        Node::DeprecatedMastery(m) => Some(m),
    }
}

/// The display name of a node: its main data's name, or the empty string
/// for the one variant without main data.
pub open spec fn spec_name(n: Node) -> Seq<char> {
    match spec_main(n) {
        Some(m) => m.name@,
        None => Seq::empty(),
    }
}

impl Node {
    /// The position data of this node, if its variant is graph-participating.
    pub fn get_position_data(&self) -> (r: Option<&NodePositionData>)
        ensures
            r matches Some(p) ==> spec_position(*self) == Some(*p),
            r is None ==> spec_position(*self) is None,
    {
        match self {
            Node::Normal(_, p, _) => Some(p),
            Node::StandaloneNormal(_, _) => None,
            Node::Notable(_, p, _) => Some(p),
            Node::StandaloneNotable(_, _) => None,
            Node::Keystone(_, p, _) => Some(p),
            Node::StandaloneKeystone(_, _) => None,
            Node::Mastery(_, p, _) => Some(p),
            Node::JewelSocket(_, p) => Some(p),
            Node::ExpansionJewelSocket(_, p, _) => Some(p),
            Node::Ascendancy(_, p, _) => Some(p),
            Node::ClassStart(_, p, _) => Some(p),
            Node::Proxy(_, p) => Some(p),
            Node::Root(p) => Some(p),
            Node::DeprecatedMastery(_) => None,
        }
    }

    /// The display name of this node; the synthetic root record has none.
    pub fn get_name(&self) -> (r: Option<&String>)
        ensures
            r matches Some(s) ==> (spec_main(*self) matches Some(m) && m.name == *s),
            r is None ==> spec_main(*self) is None,
    {
        match self {
            Node::Normal(m, _, _) => Some(&m.name),
            Node::StandaloneNormal(m, _) => Some(&m.name),
            Node::Notable(m, _, _) => Some(&m.name),
            Node::StandaloneNotable(m, _) => Some(&m.name),
            Node::Keystone(m, _, _) => Some(&m.name),
            Node::StandaloneKeystone(m, _) => Some(&m.name),
            Node::Mastery(m, _, _) => Some(&m.name),
            Node::JewelSocket(m, _) => Some(&m.name),
            Node::ExpansionJewelSocket(m, _, _) => Some(&m.name),
            Node::Ascendancy(m, _, _) => Some(&m.name),
            Node::ClassStart(m, _, _) => Some(&m.name),
            Node::Proxy(m, _) => Some(&m.name),
            Node::Root(_) => None,
            Node::DeprecatedMastery(m) => Some(&m.name),
        }
    }
}

} // verus!
