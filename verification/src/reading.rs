//! How scenes are read: which nodes stand in them and what those say.

use crate::manners::law_whatever_acts_shows_its_name;
use crate::scene::NodeModel;
use crate::stage::finished;
use crate::state::ShellModel;
use crate::surface::SurfaceFacts;
use crate::text::Text;
use vstd::prelude::*;

verus! {

/// The nodes of the scene of a state.
pub open spec fn scene_of(
    shell: ShellModel,
    facts: SurfaceFacts,
    footer: Text,
    within: Seq<(usize, usize)>,
) -> Seq<NodeModel> {
    finished(shell.draft(facts, footer), within)
}

/// Whether a node of that id says just that.
pub open spec fn reads(nodes: Seq<NodeModel>, id: Text, words: Text) -> bool {
    exists|node: NodeModel| #[trigger]
        nodes.contains(node) && node.id == id && node.label == words
}

/// Whether a node of that id says just that, can be chosen, and has the focus or
/// has not.
pub open spec fn offers(nodes: Seq<NodeModel>, id: Text, words: Text, focused: bool) -> bool {
    exists|node: NodeModel| #[trigger]
        nodes.contains(node) && node.id == id && node.label == words && node.action is Some
            && node.state.focused == focused
}

/// Whether a node of that id is marked as the selected one, or is not.
pub open spec fn marks(nodes: Seq<NodeModel>, id: Text, selected: bool) -> bool {
    exists|node: NodeModel| #[trigger]
        nodes.contains(node) && node.id == id && node.state.selected == selected
}

/// Whether a node of that id says just that and cannot be chosen.
pub open spec fn refuses(nodes: Seq<NodeModel>, id: Text, words: Text) -> bool {
    exists|node: NodeModel| #[trigger]
        nodes.contains(node) && node.id == id && node.label == words && node.action is None
            && node.state.disabled
}

pub broadcast proof fn lemma_in_joined(
    left: Seq<NodeModel>,
    right: Seq<NodeModel>,
    node: NodeModel,
)
    ensures
        #[trigger] (left + right).contains(node) == (left.contains(node) || right.contains(node)),
{
    let both = left + right;
    if both.contains(node) {
        let i = choose|i: int| 0 <= i < both.len() && both[i] == node;
        if i < left.len() {
            assert(left[i] == node);
        } else {
            assert(right[i - left.len()] == node);
        }
    }
    if left.contains(node) {
        let i = choose|i: int| 0 <= i < left.len() && left[i] == node;
        assert(both[i] == node);
    }
    if right.contains(node) {
        let i = choose|i: int| 0 <= i < right.len() && right[i] == node;
        assert(both[left.len() + i] == node);
    }
}

pub broadcast proof fn lemma_in_pushed(nodes: Seq<NodeModel>, last: NodeModel, node: NodeModel)
    ensures
        #[trigger] nodes.push(last).contains(node) == (nodes.contains(node) || node == last),
{
    let more = nodes.push(last);
    if more.contains(node) {
        let i = choose|i: int| 0 <= i < more.len() && more[i] == node;
        if i < nodes.len() {
            assert(nodes[i] == node);
        }
    }
    if nodes.contains(node) {
        let i = choose|i: int| 0 <= i < nodes.len() && nodes[i] == node;
        assert(more[i] == node);
    }
    assert(more[nodes.len() as int] == last);
}

pub broadcast group group_contained {
    lemma_in_joined,
    lemma_in_pushed,
}

/// What stands in a draft stands in the scene.
pub proof fn lemma_in_scene(
    shell: ShellModel,
    facts: SurfaceFacts,
    footer: Text,
    within: Seq<(usize, usize)>,
    node: NodeModel,
)
    requires
        shell.draft(facts, footer).contains(node),
    ensures
        scene_of(shell, facts, footer, within).contains(node),
{
    let nodes = shell.draft(facts, footer);
    let place = choose|i: int| 0 <= i < nodes.len() && nodes[i] == node;
    law_whatever_acts_shows_its_name(nodes, within, place);
}

/// What stands in the body of a draft stands in the scene.
pub proof fn lemma_in_body(
    shell: ShellModel,
    facts: SurfaceFacts,
    footer: Text,
    within: Seq<(usize, usize)>,
    node: NodeModel,
)
    requires
        shell.body_nodes(facts).contains(node),
    ensures
        scene_of(shell, facts, footer, within).contains(node),
{
    broadcast use group_contained;

    lemma_in_scene(shell, facts, footer, within, node);
}

} // verus!
