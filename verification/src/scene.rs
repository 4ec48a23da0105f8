//! The nodes that a scene is made of.
//!
//! A scene lists its nodes in the order in which they are painted. Each node
//! stands before its children, and its depth tells whose child it is: that of
//! the nearest node before it with a smaller depth. Where a node stands on the
//! surface is left to the embedding program, which measures text.

use crate::text::Text;
use vstd::prelude::*;
use vstd::string::*;

verus! {

/// What a node is to assistive technology.
#[derive(Clone, Copy, Debug, PartialEq, Eq, Structural)]
pub enum Role {
    Group,
    Text,
    Heading,
    Button,
    ListItem,
}

/// The kinds of lettering.
#[derive(Clone, Copy, Debug, PartialEq, Eq, Structural)]
pub enum TypeRole {
    Hero,
    Plate,
    Eyebrow,
    Label,
    Caption,
}

/// The colours that the design names.
#[derive(Clone, Copy, Debug, PartialEq, Eq, Structural)]
pub enum Token {
    Transparent,
    Canvas,
    Raised,
    Sunken,
    Scrim,
    BorderHairline,
    BorderStrong,
    TextPrimary,
    TextSecondary,
    TextMuted,
    TextInverse,
    StatusReady,
    StatusAttention,
    RestSurface,
    RestText,
    FocusedRing,
    FocusedText,
    SelectedAccent,
    DisabledBorder,
    UnavailableText,
    UnavailableVeil,
    PlateInk(PlateArt),
    Ground(PlateGround),
    UnderlayRole,
    OverlayRole,
}

/// The grounds that compositions stand on.
#[derive(Clone, Copy, Debug, PartialEq, Eq, Structural)]
pub enum PlateGround {
    A,
    B,
    C,
    D,
    E,
    F,
}

/// The plates that stand in for missing art.
#[derive(Clone, Copy, Debug, PartialEq, Eq, Structural)]
pub enum PlateArt {
    A,
    C,
    D,
}

/// The pictures that nodes show. The art of a title is given by the place of
/// the title.
#[derive(Clone, Copy, Debug, PartialEq, Eq, Structural)]
pub enum Picture {
    WifiGlyph,
    HeroWash,
    FooterFade,
    Plate(PlateArt),
    Art(usize),
}

/// How strong the line around a node is.
#[derive(Clone, Copy, Debug, PartialEq, Eq, Structural)]
pub enum BorderWeight {
    Thin,
    Thick,
    Keycap,
}

/// What a node asks for when it is chosen.
#[derive(Clone, Copy, Debug, PartialEq, Eq, Structural)]
pub enum NodeAction {
    Activate,
    Search,
}

/// The states that a node shows.
#[derive(Clone, Copy, Debug, PartialEq, Eq)]
pub struct NodeState {
    pub focused: bool,
    pub selected: bool,
    pub disabled: bool,
    pub unavailable: bool,
    pub expanded: bool,
}

/// How a node looks.
#[derive(Clone, Copy, Debug, PartialEq, Eq)]
pub struct Look {
    pub token: Token,
    pub ink: Option<Token>,
    pub border: Option<(Token, BorderWeight)>,
    pub lettering: Option<TypeRole>,
    pub picture: Option<Picture>,
    pub centered: bool,
    pub multiline: bool,
    pub elevated: bool,
}

/// A node of a scene.
#[derive(Clone, Debug, PartialEq, Eq)]
pub struct SceneNode {
    pub depth: usize,
    pub id: String,
    pub role: Role,
    pub label: String,
    pub action: Option<NodeAction>,
    pub state: NodeState,
    pub look: Look,
}

/// The model of a node of a scene.
pub ghost struct NodeModel {
    pub depth: usize,
    pub id: Text,
    pub role: Role,
    pub label: Text,
    pub action: Option<NodeAction>,
    pub state: NodeState,
    pub look: Look,
}

impl View for SceneNode {
    type V = NodeModel;

    open spec fn view(&self) -> NodeModel {
        NodeModel {
            depth: self.depth,
            id: self.id@,
            role: self.role,
            label: self.label@,
            action: self.action,
            state: self.state,
            look: self.look,
        }
    }
}

/// A node at the top, at rest, with a surface and nothing else.
pub open spec fn plain(id: Text, role: Role, label: Text, token: Token) -> NodeModel {
    NodeModel {
        depth: 0,
        id,
        role,
        label,
        action: None,
        state: NodeState {
            focused: false,
            selected: false,
            disabled: false,
            unavailable: false,
            expanded: false,
        },
        look: Look {
            token,
            ink: None,
            border: None,
            lettering: None,
            picture: None,
            centered: false,
            multiline: false,
            elevated: false,
        },
    }
}

impl NodeModel {
    /// The node below another.
    pub open spec fn at(self, depth: usize) -> NodeModel {
        NodeModel { depth, ..self }
    }

    /// The node with a lettering.
    pub open spec fn lettered(self, lettering: TypeRole) -> NodeModel {
        NodeModel { look: Look { lettering: Some(lettering), ..self.look }, ..self }
    }

    /// The node with an ink.
    pub open spec fn inked(self, ink: Token) -> NodeModel {
        NodeModel { look: Look { ink: Some(ink), ..self.look }, ..self }
    }

    /// The node with a line around it.
    pub open spec fn framed(self, token: Token, weight: BorderWeight) -> NodeModel {
        NodeModel { look: Look { border: Some((token, weight)), ..self.look }, ..self }
    }

    /// The node with a picture.
    pub open spec fn showing(self, picture: Picture) -> NodeModel {
        NodeModel { look: Look { picture: Some(picture), ..self.look }, ..self }
    }

    /// The node with its text in the middle.
    pub open spec fn centered(self) -> NodeModel {
        NodeModel { look: Look { centered: true, ..self.look }, ..self }
    }

    /// The node whose text may take several lines.
    pub open spec fn multiline(self, when: bool) -> NodeModel {
        NodeModel { look: Look { multiline: when, ..self.look }, ..self }
    }

    /// The node lifted off the surface.
    pub open spec fn elevated(self) -> NodeModel {
        NodeModel { look: Look { elevated: true, ..self.look }, ..self }
    }

    /// The node with the focus or without it.
    pub open spec fn focused(self, when: bool) -> NodeModel {
        NodeModel { state: NodeState { focused: when, ..self.state }, ..self }
    }

    /// The node selected or not.
    pub open spec fn selected(self, when: bool) -> NodeModel {
        NodeModel { state: NodeState { selected: when, ..self.state }, ..self }
    }

    /// The node disabled or not.
    pub open spec fn disabled(self, when: bool) -> NodeModel {
        NodeModel { state: NodeState { disabled: when, ..self.state }, ..self }
    }

    /// The node unavailable or not.
    pub open spec fn unavailable(self, when: bool) -> NodeModel {
        NodeModel { state: NodeState { unavailable: when, ..self.state }, ..self }
    }

    /// The node opened.
    pub open spec fn expanded(self) -> NodeModel {
        NodeModel { state: NodeState { expanded: true, ..self.state }, ..self }
    }

    /// The node that can be activated, or not.
    pub open spec fn activated_by(self, when: bool) -> NodeModel {
        NodeModel {
            action: if when {
                Some(NodeAction::Activate)
            } else {
                None
            },
            ..self
        }
    }

    /// The node that starts a search, or not.
    pub open spec fn searching_by(self, when: bool) -> NodeModel {
        NodeModel {
            action: if when {
                Some(NodeAction::Search)
            } else {
                None
            },
            ..self
        }
    }
}

/// Makes a node at the top, at rest.
pub fn node(id: &str, role: Role, label: &str, token: Token) -> (made: SceneNode)
    ensures
        made@ == plain(id@, role, label@, token),
{
    SceneNode {
        depth: 0,
        id: id.to_owned(),
        role,
        label: label.to_owned(),
        action: None,
        state: NodeState {
            focused: false,
            selected: false,
            disabled: false,
            unavailable: false,
            expanded: false,
        },
        look: Look {
            token,
            ink: None,
            border: None,
            lettering: None,
            picture: None,
            centered: false,
            multiline: false,
            elevated: false,
        },
    }
}

impl SceneNode {
    /// Puts the node below another.
    pub fn at(self, depth: usize) -> (made: SceneNode)
        ensures
            made@ == self@.at(depth),
    {
        SceneNode { depth, ..self }
    }

    /// Gives the node a lettering.
    pub fn lettered(self, lettering: TypeRole) -> (made: SceneNode)
        ensures
            made@ == self@.lettered(lettering),
    {
        SceneNode { look: Look { lettering: Some(lettering), ..self.look }, ..self }
    }

    /// Gives the node an ink.
    pub fn inked(self, ink: Token) -> (made: SceneNode)
        ensures
            made@ == self@.inked(ink),
    {
        SceneNode { look: Look { ink: Some(ink), ..self.look }, ..self }
    }

    /// Draws a line around the node.
    pub fn framed(self, token: Token, weight: BorderWeight) -> (made: SceneNode)
        ensures
            made@ == self@.framed(token, weight),
    {
        SceneNode { look: Look { border: Some((token, weight)), ..self.look }, ..self }
    }

    /// Gives the node a picture.
    pub fn showing(self, picture: Picture) -> (made: SceneNode)
        ensures
            made@ == self@.showing(picture),
    {
        SceneNode { look: Look { picture: Some(picture), ..self.look }, ..self }
    }

    /// Puts the text of the node in the middle.
    pub fn centered(self) -> (made: SceneNode)
        ensures
            made@ == self@.centered(),
    {
        SceneNode { look: Look { centered: true, ..self.look }, ..self }
    }

    /// Lets the text of the node take several lines.
    pub fn multiline(self, when: bool) -> (made: SceneNode)
        ensures
            made@ == self@.multiline(when),
    {
        SceneNode { look: Look { multiline: when, ..self.look }, ..self }
    }

    /// Lifts the node off the surface.
    pub fn elevated(self) -> (made: SceneNode)
        ensures
            made@ == self@.elevated(),
    {
        SceneNode { look: Look { elevated: true, ..self.look }, ..self }
    }

    /// Gives the node the focus or takes it.
    pub fn focused(self, when: bool) -> (made: SceneNode)
        ensures
            made@ == self@.focused(when),
    {
        SceneNode { state: NodeState { focused: when, ..self.state }, ..self }
    }

    /// Selects the node or not.
    pub fn selected(self, when: bool) -> (made: SceneNode)
        ensures
            made@ == self@.selected(when),
    {
        SceneNode { state: NodeState { selected: when, ..self.state }, ..self }
    }

    /// Disables the node or not.
    pub fn disabled(self, when: bool) -> (made: SceneNode)
        ensures
            made@ == self@.disabled(when),
    {
        SceneNode { state: NodeState { disabled: when, ..self.state }, ..self }
    }

    /// Makes the node unavailable or not.
    pub fn unavailable(self, when: bool) -> (made: SceneNode)
        ensures
            made@ == self@.unavailable(when),
    {
        SceneNode { state: NodeState { unavailable: when, ..self.state }, ..self }
    }

    /// Opens the node.
    pub fn expanded(self) -> (made: SceneNode)
        ensures
            made@ == self@.expanded(),
    {
        SceneNode { state: NodeState { expanded: true, ..self.state }, ..self }
    }

    /// Lets the node be activated, or not.
    pub fn activated_by(self, when: bool) -> (made: SceneNode)
        ensures
            made@ == self@.activated_by(when),
    {
        SceneNode {
            action: if when {
                Some(NodeAction::Activate)
            } else {
                None
            },
            ..self
        }
    }

    /// Lets the node start a search, or not.
    pub fn searching_by(self, when: bool) -> (made: SceneNode)
        ensures
            made@ == self@.searching_by(when),
    {
        SceneNode {
            action: if when {
                Some(NodeAction::Search)
            } else {
                None
            },
            ..self
        }
    }

    /// A copy of the node.
    pub fn copy(&self) -> (copy: SceneNode)
        ensures
            copy@ == self@,
    {
        SceneNode {
            depth: self.depth,
            id: self.id.as_str().to_owned(),
            role: self.role,
            label: self.label.as_str().to_owned(),
            action: self.action,
            state: self.state,
            look: self.look,
        }
    }
}

/// The models of a list of nodes.
#[verifier::opaque]
pub open spec fn node_models(nodes: Seq<SceneNode>) -> Seq<NodeModel> {
    Seq::new(nodes.len(), |i: int| nodes[i]@)
}

/// A list has as many models as nodes.
pub broadcast proof fn lemma_node_models_len(nodes: Seq<SceneNode>)
    ensures
        #[trigger] node_models(nodes).len() == nodes.len(),
{
    reveal(node_models);
}

/// Each node of a list has its own model.
pub broadcast proof fn lemma_node_models_index(nodes: Seq<SceneNode>, i: int)
    requires
        0 <= i < nodes.len(),
    ensures
        (#[trigger] node_models(nodes)[i]) == nodes[i]@,
{
    reveal(node_models);
}

pub broadcast group group_node_models {
    lemma_node_models_len,
    lemma_node_models_index,
}

/// A list without nodes.
pub fn no_nodes() -> (nodes: Vec<SceneNode>)
    ensures
        node_models(nodes@) == Seq::<NodeModel>::empty(),
{
    let nodes: Vec<SceneNode> = Vec::new();
    proof {
        reveal(node_models);
        assert(node_models(nodes@) =~= Seq::<NodeModel>::empty());
    }
    nodes
}

/// Puts a node behind a list.
pub fn put(nodes: &mut Vec<SceneNode>, node: SceneNode)
    ensures
        node_models(final(nodes)@) == node_models(old(nodes)@).push(node@),
{
    nodes.push(node);
    proof {
        reveal(node_models);
        assert(node_models(nodes@) =~= node_models(old(nodes)@).push(node@));
    }
}

/// A node where it is wanted, or none.
pub open spec fn maybe(wanted: bool, node: NodeModel) -> Seq<NodeModel> {
    if wanted {
        seq![node]
    } else {
        Seq::empty()
    }
}

/// Puts a node behind a list where it is wanted.
pub fn put_if(nodes: &mut Vec<SceneNode>, wanted: bool, node: SceneNode)
    ensures
        node_models(final(nodes)@) == node_models(old(nodes)@) + maybe(wanted, node@),
{
    let ghost before = node_models(nodes@);
    if wanted {
        put(nodes, node);
        proof {
            assert(before.push(node@) =~= before + seq![node@]);
        }
    } else {
        proof {
            assert(before + Seq::<NodeModel>::empty() =~= before);
        }
    }
}

/// Puts one list behind another.
pub fn put_all(nodes: &mut Vec<SceneNode>, more: Vec<SceneNode>)
    ensures
        node_models(final(nodes)@) == node_models(old(nodes)@) + node_models(more@),
{
    let mut rest = more;
    nodes.append(&mut rest);
    proof {
        reveal(node_models);
        assert(node_models(nodes@) =~= node_models(old(nodes)@) + node_models(more@));
    }
}

} // verus!
