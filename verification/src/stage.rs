//! Whole scenes: what is shown when, who owns the focus, how corners are cut.

use crate::cutting::{
    all_digits, blank, ends_with, has_prefix, has_suffix, is_all_digits, is_blank, trim_suffix,
    without_suffix,
};
use crate::scene::{
    maybe, no_nodes, node, node_models, plain, put, put_all, put_if, NodeModel, NodeState, Role,
    SceneNode, Token, TypeRole,
};
use crate::state::{Presentation, Route, ShellCore, ShellModel};
use crate::surface::SurfaceFacts;
use crate::text::{
    ascii_lowercase, ascii_lowered, begins_with, cat, contains_text, holds, same_text,
    strip_prefix, stripped, Text,
};
use vstd::prelude::*;
use vstd::string::*;

verus! {

broadcast use crate::scene::group_node_models;

/// A scene: its nodes on the canvas `quiet-console`, and the id of the one that
/// owns the focus.
#[derive(Clone, Debug, PartialEq, Eq)]
pub struct Scene {
    pub nodes: Vec<SceneNode>,
    pub focus: String,
}

impl ShellModel {
    /// The nodes of the route.
    pub open spec fn route_nodes(self, facts: SurfaceFacts) -> Seq<NodeModel> {
        match self.nav.route {
            Route::Home => self.home_nodes(facts),
            Route::Library => self.library_nodes(facts),
            Route::Search => self.search_nodes(facts),
            Route::Details => self.detail_nodes(facts),
            Route::VariantChooser => self.chooser_nodes(),
            Route::Settings => self.settings_nodes(facts),
            Route::Quick => self.quick_nodes(facts),
        }
    }

    /// What is shown between the rooms and the prompts.
    pub open spec fn body_nodes(self, facts: SurfaceFacts) -> Seq<NodeModel> {
        match self.session.presentation {
            Presentation::FirstRun => self.first_run_nodes(),
            Presentation::Crash => self.crash_nodes(),
            _ => self.route_nodes(facts),
        }
    }

    /// The nodes of a scene, before nameless buttons get their names.
    pub open spec fn draft(self, facts: SurfaceFacts, footer: Text) -> Seq<NodeModel> {
        self.shown_status(facts) + Self::rooms_nodes(self.nav.route) + self.session_nodes()
            + self.body_nodes(facts) + self.prompt_bar(footer)
    }

    /// Whether what the route shows can be had.
    pub open spec fn route_showable(self, facts: SurfaceFacts) -> bool {
        &&& self.nav.route == Route::Search ==> facts.result_cells@.len()
            >= self.titles.search_results.len()
        &&& self.nav.route == Route::Settings ==> {
            &&& self.in_flow() && self.lists_system() ==> self.clock_in_range()
            &&& !self.in_flow() && self.rows_shown(facts) ==> self.room_known()
        }
    }

    /// Whether a scene can be had.
    pub open spec fn showable(self, facts: SurfaceFacts, footer: Text) -> bool {
        &&& facts.wf()
        &&& self.prompts_fit(footer)
        &&& self.nav.route == Route::Settings && self.settings.settings_in_rows
            && self.settings.settings_row_focused ==> self.room_known()
        &&& self.session.presentation != Presentation::FirstRun && self.session.presentation
            != Presentation::Crash ==> self.route_showable(facts)
    }
}

/// Where the nodes below the one at `place` end.
pub open spec fn below_end(nodes: Seq<NodeModel>, place: int, from: int, to: int) -> int
    decreases to - from,
{
    if from >= to || nodes[from].depth <= nodes[place].depth {
        from
    } else {
        below_end(nodes, place, from + 1, to)
    }
}

pub proof fn lemma_below_end(nodes: Seq<NodeModel>, place: int, from: int, to: int)
    requires
        from <= to,
    ensures
        from <= below_end(nodes, place, from, to) <= to,
    decreases to - from,
{
    if from < to && nodes[from].depth > nodes[place].depth {
        lemma_below_end(nodes, place, from + 1, to);
    }
}

/// Whether the node at `inner` stands below the one at `outer`.
pub open spec fn is_below(nodes: Seq<NodeModel>, outer: int, inner: int) -> bool {
    &&& outer < inner
    &&& forall|i: int|
        #![trigger nodes[i]]
        outer < i <= inner ==> nodes[i].depth > nodes[outer].depth
}

/// Whether a node can be read.
pub open spec fn readable(node: NodeModel) -> bool {
    (node.role == Role::Text || node.role == Role::Heading) && !blank(node.label)
}

/// Whether the node at `inner` was found to lie within the one at `outer`.
pub open spec fn lies_within(within: Seq<(usize, usize)>, outer: int, inner: int) -> bool {
    exists|i: int|
        #![trigger within[i]]
        0 <= i < within.len() && within[i].0 == outer && within[i].1 == inner
}

/// Whether a node at `inner`, below the one at `outer` and within it, can be
/// read.
pub open spec fn tells(
    nodes: Seq<NodeModel>,
    within: Seq<(usize, usize)>,
    outer: int,
    inner: int,
) -> bool {
    is_below(nodes, outer, inner) && readable(nodes[inner]) && lies_within(within, outer, inner)
}

/// Whether one of the nodes before `to` can be read below the node at `place`
/// and within it.
pub open spec fn shows_name(
    nodes: Seq<NodeModel>,
    within: Seq<(usize, usize)>,
    place: int,
    to: int,
) -> bool {
    exists|inner: int| inner < to && #[trigger] tells(nodes, within, place, inner)
}

/// Whether a node can be chosen and has a name, but does not show it.
pub open spec fn wants_name(
    nodes: Seq<NodeModel>,
    within: Seq<(usize, usize)>,
    place: int,
    to: int,
) -> bool {
    nodes[place].action is Some && !blank(nodes[place].label) && !shows_name(
        nodes,
        within,
        place,
        to,
    )
}

/// The nodes below a node end where one stands that is no deeper.
pub proof fn lemma_end(nodes: Seq<NodeModel>, place: int, from: int, to: int)
    requires
        place < from <= to,
    ensures
        ({
            let end = below_end(nodes, place, from, to);
            &&& forall|i: int|
                #![trigger nodes[i]]
                from <= i < end ==> nodes[i].depth > nodes[place].depth
            &&& end < to ==> nodes[end].depth <= nodes[place].depth
        }),
    decreases to - from,
{
    if from < to && nodes[from].depth > nodes[place].depth {
        lemma_end(nodes, place, from + 1, to);
    }
}

/// The depth of the children of a node.
pub open spec fn deeper(depth: usize) -> usize {
    if depth < usize::MAX {
        (depth + 1) as usize
    } else {
        depth
    }
}

/// The node that shows the name of another, in the same state. A field of text
/// alone keeps the focus to itself, so that it stays the one node in focus.
pub open spec fn name_node(node: NodeModel) -> NodeModel {
    NodeModel {
        state: if node.role == Role::Text {
            NodeState { focused: false, ..node.state }
        } else {
            node.state
        },
        ..plain("action-name-"@ + node.id, Role::Text, node.label, Token::Canvas).lettered(
            TypeRole::Label,
        ).at(deeper(node.depth))
    }
}

/// The nodes from `from` up to but excluding `to`, with the missing names below
/// the nodes that they belong to.
pub open spec fn with_names(
    nodes: Seq<NodeModel>,
    within: Seq<(usize, usize)>,
    from: int,
    to: int,
) -> Seq<NodeModel>
    decreases to - from,
    via with_names_shrinks
{
    if from >= to {
        Seq::empty()
    } else {
        let end = below_end(nodes, from, from + 1, to);
        seq![nodes[from]] + with_names(nodes, within, from + 1, end) + maybe(
            wants_name(nodes, within, from, to),
            name_node(nodes[from]),
        ) + with_names(nodes, within, end, to)
    }
}

#[via_fn]
proof fn with_names_shrinks(
    nodes: Seq<NodeModel>,
    within: Seq<(usize, usize)>,
    from: int,
    to: int,
) {
    if from < to {
        lemma_below_end(nodes, from, from + 1, to);
    }
}

/// The id of the first node in focus.
pub open spec fn focus_owner(nodes: Seq<NodeModel>) -> Option<Text>
    decreases nodes.len(),
{
    if nodes.len() == 0 {
        None
    } else if nodes[0].state.focused {
        Some(nodes[0].id)
    } else {
        focus_owner(nodes.skip(1))
    }
}

proof fn lemma_focus_of_joined(left: Seq<NodeModel>, right: Seq<NodeModel>)
    ensures
        focus_owner(left + right) == (match focus_owner(left) {
            Some(id) => Some(id),
            None => focus_owner(right),
        }),
    decreases left.len(),
{
    if left.len() == 0 {
        assert(left + right =~= right);
    } else {
        assert((left + right).skip(1) =~= left.skip(1) + right);
        lemma_focus_of_joined(left.skip(1), right);
    }
}

proof fn lemma_focus_of_one(node: NodeModel)
    ensures
        focus_owner(seq![node]) == (if node.state.focused {
            Some(node.id)
        } else {
            None
        }),
{
    assert(seq![node].skip(1) =~= Seq::<NodeModel>::empty());
    reveal_with_fuel(focus_owner, 2);
}

/// The names that are added take the focus from nobody: it stays with the node
/// that had it.
pub proof fn law_names_leave_the_focus_alone(
    nodes: Seq<NodeModel>,
    within: Seq<(usize, usize)>,
    from: int,
    to: int,
)
    requires
        0 <= from <= to <= nodes.len(),
    ensures
        focus_owner(with_names(nodes, within, from, to)) == focus_owner(nodes.subrange(from, to)),
    decreases to - from,
{
    if from < to {
        let end = below_end(nodes, from, from + 1, to);
        lemma_below_end(nodes, from, from + 1, to);
        let head = seq![nodes[from]];
        let inner = with_names(nodes, within, from + 1, end);
        let name = maybe(wants_name(nodes, within, from, to), name_node(nodes[from]));
        let rest = with_names(nodes, within, end, to);
        law_names_leave_the_focus_alone(nodes, within, from + 1, end);
        law_names_leave_the_focus_alone(nodes, within, end, to);
        lemma_focus_of_joined(head + inner + name, rest);
        lemma_focus_of_joined(head + inner, name);
        lemma_focus_of_joined(head, inner);
        lemma_focus_of_one(nodes[from]);
        lemma_focus_of_one(name_node(nodes[from]));
        assert(nodes.subrange(from, to) =~= head + nodes.subrange(from + 1, end)
            + nodes.subrange(end, to));
        lemma_focus_of_joined(head + nodes.subrange(from + 1, end), nodes.subrange(end, to));
        lemma_focus_of_joined(head, nodes.subrange(from + 1, end));
    } else {
        assert(nodes.subrange(from, to) =~= Seq::<NodeModel>::empty());
    }
}

/// The nodes of a finished scene.
pub open spec fn finished(nodes: Seq<NodeModel>, within: Seq<(usize, usize)>) -> Seq<NodeModel> {
    with_names(nodes, within, 0, nodes.len() as int)
}

/// Whether a scene is made of nodes and names.
pub open spec fn stages(scene: Scene, nodes: Seq<NodeModel>, within: Seq<(usize, usize)>) -> bool {
    &&& node_models(scene.nodes@) == finished(nodes, within)
    &&& scene.focus@ == focus_owner(finished(nodes, within)).unwrap_or("quiet-console"@)
}

fn find_below_end(nodes: &Vec<SceneNode>, place: usize, to: usize) -> (end: usize)
    requires
        place < to <= nodes@.len(),
    ensures
        end == below_end(node_models(nodes@), place as int, place + 1, to as int),
        place < end <= to,
{
    let ghost models = node_models(nodes@);
    let mut next: usize = place + 1;
    while next < to && nodes[next].depth > nodes[place].depth
        invariant
            place < next <= to <= nodes@.len(),
            models == node_models(nodes@),
            below_end(models, place as int, place + 1, to as int) == below_end(
                models,
                place as int,
                next as int,
                to as int,
            ),
        decreases to - next,
    {
        next += 1;
    }
    next
}

/// Tells whether one node was found to lie within another.
fn find_within(within: &Vec<(usize, usize)>, outer: usize, inner: usize) -> (found: bool)
    ensures
        found == lies_within(within@, outer as int, inner as int),
{
    let mut next: usize = 0;
    while next < within.len()
        invariant
            next <= within@.len(),
            forall|i: int|
                #![trigger within@[i]]
                0 <= i < next ==> !(within@[i].0 == outer && within@[i].1 == inner),
        decreases within@.len() - next,
    {
        if within[next].0 == outer && within[next].1 == inner {
            assert(within@[next as int].0 == outer);
            return true;
        }
        next += 1;
    }
    false
}

/// Tells whether a node can be read below another and within it.
fn find_name(
    nodes: &Vec<SceneNode>,
    within: &Vec<(usize, usize)>,
    place: usize,
    end: usize,
    to: usize,
) -> (found: bool)
    requires
        place < to <= nodes@.len(),
        place < end <= to,
        end == below_end(node_models(nodes@), place as int, place + 1, to as int),
    ensures
        found == shows_name(node_models(nodes@), within@, place as int, to as int),
{
    let ghost models = node_models(nodes@);
    proof {
        lemma_end(models, place as int, place + 1, to as int);
    }
    let mut next: usize = place + 1;
    while next < end
        invariant
            place < next <= end <= to <= nodes@.len(),
            models == node_models(nodes@),
            forall|i: int|
                #![trigger models[i]]
                place < i < end ==> models[i].depth > models[place as int].depth,
            forall|i: int| i < next ==> !#[trigger] tells(models, within@, place as int, i),
        decreases end - next,
    {
        let reads = match nodes[next].role {
            Role::Text | Role::Heading => !is_blank(nodes[next].label.as_str()),
            _ => false,
        };
        if reads && find_within(within, place, next) {
            assert(tells(models, within@, place as int, next as int));
            return true;
        }
        next += 1;
    }
    assert forall|i: int| i < to implies !#[trigger] tells(models, within@, place as int, i) by {
        if tells(models, within@, place as int, i) && i >= end {
            assert(models[end as int].depth > models[place as int].depth);
        }
    }
    false
}

/// Adds the missing names.
pub fn add_explicit_action_names(
    nodes: &Vec<SceneNode>,
    within: &Vec<(usize, usize)>,
    from: usize,
    to: usize,
) -> (made: Vec<SceneNode>)
    requires
        from <= to <= nodes@.len(),
    ensures
        node_models(made@) == with_names(
            node_models(nodes@),
            within@,
            from as int,
            to as int,
        ),
    decreases to - from,
{
    let mut made = no_nodes();
    if from >= to {
        return made;
    }
    let end: usize = find_below_end(nodes, from, to);
    let first = &nodes[from];
    put(&mut made, first.copy());
    put_all(&mut made, add_explicit_action_names(nodes, within, from + 1, end));
    let wanted = first.action.is_some() && !is_blank(first.label.as_str()) && !find_name(
        nodes,
        within,
        from,
        end,
        to,
    );
    let name = node(
        cat("action-name-", first.id.as_str()).as_str(),
        Role::Text,
        first.label.as_str(),
        Token::Canvas,
    ).lettered(TypeRole::Label).at(first.depth.saturating_add(1));
    let state = match first.role {
        Role::Text => NodeState { focused: false, ..first.state },
        _ => first.state,
    };
    let name = SceneNode { state, ..name };
    put_if(&mut made, wanted, name);
    put_all(&mut made, add_explicit_action_names(nodes, within, end, to));
    made
}

/// Finds the id of the first node in focus.
pub fn find_focus(nodes: &Vec<SceneNode>) -> (id: Option<String>)
    ensures
        crate::text::text_of(id) == focus_owner(node_models(nodes@)),
{
    let ghost models = node_models(nodes@);
    let mut next: usize = 0;
    proof {
        assert(models.skip(0) =~= models);
    }
    while next < nodes.len()
        invariant
            next <= nodes@.len(),
            models == node_models(nodes@),
            focus_owner(models) == focus_owner(models.skip(next as int)),
        decreases nodes@.len() - next,
    {
        if nodes[next].state.focused {
            return Some(nodes[next].id.as_str().to_owned());
        }
        proof {
            assert(models.skip(next as int).skip(1) =~= models.skip(next + 1));
        }
        next += 1;
    }
    None
}

/// Finishes a scene: adds the missing names and finds the owner of the focus.
pub fn finish(nodes: &Vec<SceneNode>, within: &Vec<(usize, usize)>) -> (scene: Scene)
    ensures
        stages(scene, node_models(nodes@), within@),
{
    let made = add_explicit_action_names(nodes, within, 0, nodes.len());
    let focus = match find_focus(&made) {
        Some(id) => id,
        None => "quiet-console".to_owned(),
    };
    Scene { nodes: made, focus }
}

impl ShellCore {
    fn show_route(&self, facts: &SurfaceFacts) -> (nodes: Vec<SceneNode>)
        requires
            self.wf(),
            facts.wf(),
            self@.route_showable(*facts),
        ensures
            node_models(nodes@) == self@.route_nodes(*facts),
    {
        match self.nav.route {
            Route::Home => self.show_home(facts),
            Route::Library => self.show_library(facts),
            Route::Search => self.show_search(facts),
            Route::Details => self.show_details(facts),
            Route::VariantChooser => self.show_chooser(),
            Route::Settings => self.show_settings(facts),
            Route::Quick => self.show_quick(facts),
        }
    }

    /// The nodes of a scene, before nameless buttons get their names.
    pub fn draft_scene(&self, facts: &SurfaceFacts, footer: &str) -> (nodes: Vec<SceneNode>)
        requires
            self.wf(),
            self@.showable(*facts, footer@),
        ensures
            node_models(nodes@) == self@.draft(*facts, footer@),
    {
        let mut nodes = self.show_status(facts);
        put_all(&mut nodes, Self::show_rooms(self.nav.route));
        put_all(&mut nodes, self.show_session_status());
        let body = match self.session.presentation {
            Presentation::FirstRun => self.show_first_run(),
            Presentation::Crash => self.show_crash(),
            _ => self.show_route(facts),
        };
        put_all(&mut nodes, body);
        put_all(&mut nodes, self.show_prompts(footer));
        nodes
    }

    /// The scene that is to be painted; there is none while the shell is not on
    /// the screen. The pairs in `within` tell by their places in the draft which
    /// nodes lie within which. From then on the library is walked by the grid of the surface.
    pub fn scene(&mut self, facts: &SurfaceFacts, within: &Vec<(usize, usize)>, footer: &str) -> (scene:
        Option<Scene>)
        requires
            old(self).wf(),
            old(self)@.session.presentation.has_frame() ==> old(self)@.showable(*facts, footer@),
        ensures
            match scene {
                Some(scene) => {
                    &&& old(self)@.session.presentation.has_frame()
                    &&& final(self)@ == old(self)@.on_grid(facts.grid)
                    &&& stages(scene, final(self)@.draft(*facts, footer@), within@)
                },
                None => {
                    &&& !old(self)@.session.presentation.has_frame()
                    &&& final(self)@ == old(self)@
                },
            },
            final(self).wf(),
    {
        if !self.has_shell_frame() {
            return None;
        }
        self.set_library_grid(facts.grid);
        let nodes = self.draft_scene(facts, footer);
        Some(finish(&nodes, within))
    }
}

/// The ways to cut the corners of a node.
#[derive(Clone, Copy, Debug, PartialEq, Eq, Structural)]
pub enum Corner {
    Small,
    Medium,
    Large,
    Pill,
}

/// Whether an id is a prefix followed by a number.
pub open spec fn numbered(id: Text, prefix: Text) -> bool {
    match stripped(id, prefix) {
        Some(rest) => all_digits(rest),
        None => false,
    }
}

/// Whether a node is the keycap of a prompt.
pub open spec fn is_prompt_keycap(id: Text) -> bool {
    match stripped(id, "home-prompt-keycap-"@) {
        Some(rest) => all_digits(without_suffix(rest, "-border"@)),
        None => false,
    }
}

/// Whether a node is another keycap.
pub open spec fn is_keycap(id: Text) -> bool {
    begins_with(id, "room-keycap-"@) || (holds(id, "keycap"@) && (holds(
        ascii_lowered(id),
        "select"@,
    ) || holds(ascii_lowered(id), "start"@)))
}

/// Whether a node is as round as it can be.
pub open spec fn is_pill(id: Text) -> bool {
    id == "attention"@ || id == "attention-pill"@ || id == "attention-pill-border"@ || id
        == "attention-dot"@ || holds(id, "status-dot"@) || holds(id, "-pip"@) || begins_with(
        id,
        "favorite-pin-"@,
    ) || holds(id, "current-indicator"@) || (begins_with(id, "room-"@) && ends_with(
        id,
        "-underline"@,
    )) || (begins_with(id, "settings-toggle-"@) && (ends_with(id, "-track"@) || ends_with(
        id,
        "-knob"@,
    )))
}

/// Whether a node is a panel or a cover.
pub open spec fn is_panel(id: Text) -> bool {
    id == "detail-cover"@ || begins_with(id, "detail-art-"@) || id == "first-run-panel"@ || id
        == "receipt-panel"@ || id == "quick-panel-surface"@
}

/// Whether a node is a card or a part of one.
pub open spec fn is_card(id: Text) -> bool {
    begins_with(id, "item-"@) || begins_with(id, "library-item-"@) || begins_with(
        id,
        "home-card-label-mask-"@,
    ) || begins_with(id, "home-card-art-"@) || begins_with(id, "home-card-plate-"@) || begins_with(
        id,
        "home-card-veil-"@,
    ) || begins_with(id, "library-card-label-mask-"@) || begins_with(id, "library-card-art-"@)
        || begins_with(id, "library-card-plate-"@) || begins_with(id, "library-card-veil-"@)
}

/// Whether a node is a row or a control.
pub open spec fn is_control(id: Text, acts: bool) -> bool {
    id == "library-search"@ || numbered(id, "library-filter-"@) || numbered(id, "detail-variant-"@)
        || (begins_with(id, "chooser-"@) && id != "chooser-note"@ && id
        != "chooser-scroll-region"@) || (begins_with(id, "settings-nav-"@) && !ends_with(
        id,
        "-label"@,
    )) || (begins_with(id, "settings-row-"@) && !holds(id, "-line-"@) && !ends_with(
        id,
        "-control"@,
    )) || (begins_with(id, "quick-"@) && (acts || id == "quick-capture-screenshot"@)) || id
        == "settings-text-scale-segmented-control"@ || begins_with(id, "comfort-"@)
}

/// How the corners of a node are cut, by its id, by whether it can be chosen
/// and by whether it is wider than a keycap.
pub open spec fn corner_of(id: Text, acts: bool, wide: bool) -> Option<Corner> {
    if is_prompt_keycap(id) {
        Some(
            if wide {
                Corner::Small
            } else {
                Corner::Pill
            },
        )
    } else if is_keycap(id) {
        Some(Corner::Small)
    } else if is_pill(id) {
        Some(Corner::Pill)
    } else if holds(id, "plate-frame-"@) || holds(id, "press-marker"@) {
        Some(Corner::Small)
    } else if is_panel(id) {
        Some(Corner::Large)
    } else if is_card(id) || is_control(id, acts) {
        Some(Corner::Medium)
    } else {
        None
    }
}

fn has_number(id: &str, prefix: &str) -> (answer: bool)
    ensures
        answer == numbered(id@, prefix@),
{
    match strip_prefix(id, prefix) {
        Some(rest) => is_all_digits(rest.as_str()),
        None => false,
    }
}

fn round_prompt(id: &str) -> (answer: bool)
    ensures
        answer == is_prompt_keycap(id@),
{
    match strip_prefix(id, "home-prompt-keycap-") {
        Some(rest) => is_all_digits(trim_suffix(rest.as_str(), "-border").as_str()),
        None => false,
    }
}

fn round_keycap(id: &str) -> (answer: bool)
    ensures
        answer == is_keycap(id@),
{
    let lower = ascii_lowercase(id);
    has_prefix(id, "room-keycap-") || (contains_text(id, "keycap") && (contains_text(
        lower.as_str(),
        "select",
    ) || contains_text(lower.as_str(), "start")))
}

fn round_pill(id: &str) -> (answer: bool)
    ensures
        answer == is_pill(id@),
{
    same_text(id, "attention") || same_text(id, "attention-pill") || same_text(
        id,
        "attention-pill-border",
    ) || same_text(id, "attention-dot") || contains_text(id, "status-dot") || contains_text(
        id,
        "-pip",
    ) || has_prefix(id, "favorite-pin-") || contains_text(id, "current-indicator") || (has_prefix(
        id,
        "room-",
    ) && has_suffix(id, "-underline")) || (has_prefix(id, "settings-toggle-") && (has_suffix(
        id,
        "-track",
    ) || has_suffix(id, "-knob")))
}

fn round_panel(id: &str) -> (answer: bool)
    ensures
        answer == is_panel(id@),
{
    same_text(id, "detail-cover") || has_prefix(id, "detail-art-") || same_text(
        id,
        "first-run-panel",
    ) || same_text(id, "receipt-panel") || same_text(id, "quick-panel-surface")
}

fn round_card(id: &str) -> (answer: bool)
    ensures
        answer == is_card(id@),
{
    has_prefix(id, "item-") || has_prefix(id, "library-item-") || has_prefix(
        id,
        "home-card-label-mask-",
    ) || has_prefix(id, "home-card-art-") || has_prefix(id, "home-card-plate-") || has_prefix(
        id,
        "home-card-veil-",
    ) || has_prefix(id, "library-card-label-mask-") || has_prefix(id, "library-card-art-")
        || has_prefix(id, "library-card-plate-") || has_prefix(id, "library-card-veil-")
}

fn round_control(id: &str, acts: bool) -> (answer: bool)
    ensures
        answer == is_control(id@, acts),
{
    same_text(id, "library-search") || has_number(id, "library-filter-") || has_number(
        id,
        "detail-variant-",
    ) || (has_prefix(id, "chooser-") && !same_text(id, "chooser-note") && !same_text(
        id,
        "chooser-scroll-region",
    )) || (has_prefix(id, "settings-nav-") && !has_suffix(id, "-label")) || (has_prefix(
        id,
        "settings-row-",
    ) && !contains_text(id, "-line-") && !has_suffix(id, "-control")) || (has_prefix(id, "quick-")
        && (acts || same_text(id, "quick-capture-screenshot"))) || same_text(
        id,
        "settings-text-scale-segmented-control",
    ) || has_prefix(id, "comfort-")
}

/// Tells how the corners of a node are cut.
pub fn quiet_console_corner(id: &str, acts: bool, wide: bool) -> (corner: Option<Corner>)
    ensures
        corner == corner_of(id@, acts, wide),
{
    if round_prompt(id) {
        Some(
            if wide {
                Corner::Small
            } else {
                Corner::Pill
            },
        )
    } else if round_keycap(id) {
        Some(Corner::Small)
    } else if round_pill(id) {
        Some(Corner::Pill)
    } else if contains_text(id, "plate-frame-") || contains_text(id, "press-marker") {
        Some(Corner::Small)
    } else if round_panel(id) {
        Some(Corner::Large)
    } else if round_card(id) || round_control(id, acts) {
        Some(Corner::Medium)
    } else {
        None
    }
}

} // verus!
