//! What holds of every node of every scene.

use crate::actions::first_run_rows;
use crate::cards::{art_nodes, cue_nodes, kept, node_place, plate_nodes, ringed, Showcase};
use crate::catalog::{ItemModel, VariantModel};
use crate::chrome::{footer_nodes, prompts_nodes};
use crate::cutting::{blank, lines_of, pieces};
use crate::scene::{maybe, NodeAction, NodeModel, Role};
use crate::settings::RowModel;
use crate::settings_scene::{line_nodes, row_parts, scale_nodes, switch_nodes};
use crate::stage::{
    below_end, finished, lemma_below_end, name_node, shows_name, wants_name, with_names,
};
use crate::state::{Route, SettingsRoom, ShellModel};
use crate::surface::SurfaceFacts;
use crate::text::Text;
use vstd::prelude::*;

verus! {

/// How a node behaves: groups and disabled nodes cannot be chosen, and what
/// starts a search is in focus.
pub open spec fn behaves(node: NodeModel) -> bool {
    &&& node.role == Role::Group ==> node.action is None
    &&& node.state.disabled ==> node.action is None
    &&& node.action == Some(NodeAction::Search) ==> node.state.focused
}

/// Whether all nodes of a list behave.
#[verifier::opaque]
pub open spec fn all_behave(nodes: Seq<NodeModel>) -> bool {
    forall|i: int| 0 <= i < nodes.len() ==> behaves(#[trigger] nodes[i])
}

broadcast proof fn lemma_none()
    ensures
        #[trigger] all_behave(Seq::empty()),
{
    reveal(all_behave);
}

broadcast proof fn lemma_one_more(nodes: Seq<NodeModel>, node: NodeModel)
    requires
        all_behave(nodes),
        behaves(node),
    ensures
        #[trigger] all_behave(nodes.push(node)),
{
    reveal(all_behave);
}

broadcast proof fn lemma_both(left: Seq<NodeModel>, right: Seq<NodeModel>)
    requires
        all_behave(left),
        all_behave(right),
    ensures
        #[trigger] all_behave(left + right),
{
    reveal(all_behave);
}

broadcast proof fn lemma_maybe(wanted: bool, node: NodeModel)
    requires
        wanted ==> behaves(node),
    ensures
        #[trigger] all_behave(maybe(wanted, node)),
{
    reveal(all_behave);
}

broadcast proof fn lemma_literal<const N: usize>(nodes: [NodeModel; N])
    requires
        forall|i: int| 0 <= i < N ==> behaves(#[trigger] nodes@[i]),
    ensures
        #[trigger] all_behave(nodes@),
{
    reveal(all_behave);
}

broadcast group group_behave {
    lemma_literal,
    lemma_none,
    lemma_one_more,
    lemma_both,
    lemma_maybe,
}

proof fn lemma_status(shell: ShellModel, facts: SurfaceFacts)
    ensures
        all_behave(shell.shown_status(facts)),
        all_behave(shell.session_nodes()),
{
    broadcast use group_behave;

}

proof fn lemma_rooms(route: Route)
    ensures
        all_behave(ShellModel::rooms_nodes(route)),
{
    broadcast use group_behave;

    assert(all_behave(ShellModel::keycap_nodes("room-keycap-left"@, "L"@)));
    assert(all_behave(ShellModel::keycap_nodes("room-keycap-right"@, "R"@)));
}

proof fn lemma_prompts(prompts: Seq<Text>, upto: int)
    ensures
        all_behave(prompts_nodes(prompts, upto)),
    decreases upto,
{
    broadcast use group_behave;

    if upto > 0 {
        lemma_prompts(prompts, upto - 1);
    }
}

proof fn lemma_prompt_bar(shell: ShellModel, footer: Text)
    ensures
        all_behave(shell.prompt_bar(footer)),
{
    broadcast use group_behave;

    let own = shell.footer(footer);
    lemma_prompts(pieces(own, " · "@), pieces(own, " · "@).len() as int);
    let parted = crate::cutting::replaced(own, "     "@, " · "@);
    lemma_prompts(pieces(parted, " · "@), pieces(parted, " · "@).len() as int);
    assert(all_behave(footer_nodes(own)));
    assert(all_behave(footer_nodes(parted)));
}

proof fn lemma_art(item: ItemModel, place: usize, showcase: Showcase, cells: int, scale: int)
    ensures
        all_behave(art_nodes(item, place, showcase, cells, scale)),
{
    broadcast use group_behave;

    assert(all_behave(plate_nodes(item, showcase)));
}

proof fn lemma_cues(
    item: ItemModel,
    showcase: Showcase,
    reasons: bool,
    cells: int,
    badge_cells: int,
    reason_cells: Option<int>,
    scale: int,
)
    ensures
        all_behave(cue_nodes(item, showcase, reasons, cells, badge_cells, reason_cells, scale)),
{
    broadcast use group_behave;

}

proof fn lemma_shelf_cards(shell: ShellModel, facts: SurfaceFacts, upto: int)
    ensures
        all_behave(shell.shelf_cards(facts, upto)),
    decreases upto - shell.shelf_from(facts),
{
    broadcast use group_behave;

    if upto > shell.shelf_from(facts) {
        lemma_shelf_cards(shell, facts, upto - 1);
        let item_place = crate::library::shelf(shell.titles.items)[upto - 1];
        let item = shell.titles.items[item_place as int];
        let scale = shell.comfort.text_scale;
        lemma_art(item, item_place, Showcase::Shelf, facts.shelf_cells as int, scale);
        lemma_cues(
            item,
            Showcase::Shelf,
            facts.caption_fits,
            facts.shelf_cells as int,
            facts.shelf_badge_cells as int,
            Some(facts.shelf_reason_cells as int),
            scale,
        );
        assert(all_behave(shell.shelf_card(facts, upto - 1)));
    }
}

proof fn lemma_home(shell: ShellModel, facts: SurfaceFacts)
    ensures
        all_behave(shell.home_nodes(facts)),
{
    broadcast use group_behave;

    let count = crate::library::shelf(shell.titles.items).len() as int;
    lemma_shelf_cards(
        shell,
        facts,
        crate::navigation::least(shell.shelf_from(facts) + shell.shelf_shown(facts), count),
    );
    assert(all_behave(shell.hero_nodes()));
    if let Some(message) = shell.attention() {
        assert(all_behave(crate::home_scene::attention_nodes(message)));
    }
}

proof fn lemma_kept(nodes: Seq<NodeModel>, upto: int)
    requires
        all_behave(nodes),
        upto <= nodes.len(),
    ensures
        all_behave(kept(nodes, upto)),
    decreases upto,
{
    broadcast use group_behave;

    if upto > 0 {
        lemma_kept(nodes, upto - 1);
        assert(behaves(nodes[upto - 1])) by {
            reveal(all_behave);
        }
    }
}

proof fn lemma_node_place(nodes: Seq<NodeModel>, id: Text, from: int)
    requires
        0 <= from,
    ensures
        node_place(nodes, id, from) matches Some(place) ==> from <= place < nodes.len(),
    decreases nodes.len() - from,
{
    if from < nodes.len() && nodes[from].id != id {
        lemma_node_place(nodes, id, from + 1);
    }
}

proof fn lemma_ringed(nodes: Seq<NodeModel>, id: Text)
    requires
        all_behave(nodes),
    ensures
        all_behave(ringed(nodes, id)),
{
    reveal(all_behave);
    lemma_node_place(nodes, id, 0);
    assert forall|i: int| 0 <= i < ringed(nodes, id).len() implies behaves(
        #[trigger] ringed(nodes, id)[i],
    ) by {
        assert(behaves(nodes[i]));
    }
}

proof fn lemma_cards(shell: ShellModel, facts: SurfaceFacts, upto: int)
    ensures
        all_behave(shell.cards_before(facts, upto)),
    decreases upto,
{
    broadcast use group_behave;

    if upto > 0 {
        let place = upto - 1;
        lemma_cards(shell, facts, place);
        let item_place = shell.titles.library_items[place];
        let item = shell.titles.items[item_place as int];
        let scale = shell.comfort.text_scale;
        let art = art_nodes(item, item_place, Showcase::Library, facts.card_cells as int, scale);
        let cues = cue_nodes(
            item,
            Showcase::Library,
            true,
            facts.card_cells as int,
            facts.card_badge_cells as int,
            None,
            scale,
        );
        lemma_art(item, item_place, Showcase::Library, facts.card_cells as int, scale);
        lemma_cues(
            item,
            Showcase::Library,
            true,
            facts.card_cells as int,
            facts.card_badge_cells as int,
            None,
            scale,
        );
        assert(all_behave(art + cues));
        lemma_kept(art + cues, (art + cues).len() as int);
        lemma_ringed(
            kept(art + cues, (art + cues).len() as int),
            crate::cards::card_id(Showcase::Library, "-art-"@, item.id),
        );
        assert(all_behave(shell.card_face(facts, place)));
        assert(all_behave(shell.card_nodes(facts, place)));
    }
}

proof fn lemma_library(shell: ShellModel, facts: SurfaceFacts)
    ensures
        all_behave(shell.library_nodes(facts)),
{
    broadcast use group_behave;

    lemma_cards(shell, facts, shell.titles.library_items.len() as int);
    assert(all_behave(shell.chip_nodes(facts, 0)));
    assert(all_behave(shell.chip_nodes(facts, 1)));
    assert(all_behave(shell.chip_nodes(facts, 2)));
    assert(all_behave(shell.chip_nodes(facts, 3)));
    assert(all_behave(shell.toolbar_nodes(facts)));
}

proof fn lemma_results(shell: ShellModel, facts: SurfaceFacts, upto: int)
    ensures
        all_behave(shell.results_before(facts, upto)),
    decreases upto - shell.results_from(facts),
{
    broadcast use group_behave;

    if upto > shell.results_from(facts) {
        lemma_results(shell, facts, upto - 1);
        assert(all_behave(shell.result_nodes(facts, upto - 1)));
    }
}

proof fn lemma_search(shell: ShellModel, facts: SurfaceFacts)
    ensures
        all_behave(shell.search_nodes(facts)),
{
    broadcast use group_behave;

    lemma_results(
        shell,
        facts,
        crate::navigation::least(
            shell.results_from(facts) + facts.result_capacity,
            shell.titles.search_results.len() as int,
        ),
    );
    assert(all_behave(shell.query_nodes()));
}

proof fn lemma_variants(shell: ShellModel, variants: Seq<VariantModel>, upto: int)
    ensures
        all_behave(shell.variants_before(variants, upto)),
    decreases upto - crate::navigation::window_start(variants),
{
    broadcast use group_behave;

    if upto > crate::navigation::window_start(variants) {
        lemma_variants(shell, variants, upto - 1);
        assert(all_behave(shell.variant_nodes(variants, upto - 1)));
    }
}

proof fn lemma_details(shell: ShellModel, facts: SurfaceFacts)
    ensures
        all_behave(shell.detail_nodes(facts)),
{
    broadcast use group_behave;

    if let Some(place) = shell.nav.selected_item {
        let item = shell.titles.items[place];
        lemma_art(item, place as usize, Showcase::Details, 0, shell.comfort.text_scale);
        assert(all_behave(shell.portrait_nodes(place)));
        lemma_variants(shell, item.variants, crate::navigation::window_end(item.variants));
        assert(all_behave(shell.ways_nodes(item.variants)));
        assert(all_behave(shell.pin_button(item, true)));
        assert(all_behave(shell.pin_button(item, shell.nav.focus == shell.pin_focus())));
        assert(all_behave(shell.deed_nodes(item)));
        assert(all_behave(shell.shown_facts(facts, item)));
    }
}

proof fn lemma_choices(shell: ShellModel, variants: Seq<VariantModel>, upto: int)
    ensures
        all_behave(shell.choices_before(variants, upto)),
    decreases upto - shell.choices_from(variants),
{
    broadcast use group_behave;

    if upto > shell.choices_from(variants) {
        lemma_choices(shell, variants, upto - 1);
    }
}

proof fn lemma_chooser(shell: ShellModel)
    ensures
        all_behave(shell.chooser_nodes()),
{
    broadcast use group_behave;

    if let Some(place) = shell.nav.selected_item {
        let variants = shell.titles.items[place].variants;
        lemma_choices(
            shell,
            variants,
            crate::navigation::least(
                shell.choices_from(variants) + 5,
                crate::titles::ready_places(variants, 0).len() as int,
            ),
        );
    }
}

proof fn lemma_entries(shell: ShellModel, rooms: Seq<SettingsRoom>, upto: int)
    ensures
        all_behave(shell.entries_before(rooms, upto)),
    decreases upto,
{
    broadcast use group_behave;

    if upto > 0 {
        lemma_entries(shell, rooms, upto - 1);
        assert(all_behave(shell.entry_nodes(rooms[upto - 1], upto - 1)));
    }
}

proof fn lemma_row_parts(row: RowModel, scale: int, focused: bool)
    ensures
        all_behave(row_parts(row, scale, focused)),
{
    broadcast use group_behave;

    let lines = lines_of(row.label);
    assert(all_behave(line_nodes(row, lines, scale)));
    assert(all_behave(scale_nodes(row, lines, scale, focused)));
    assert(all_behave(switch_nodes(row, lines, scale, focused, true)));
    assert(all_behave(switch_nodes(row, lines, scale, focused, false)));
}

proof fn lemma_rows(shell: ShellModel, facts: SurfaceFacts, upto: int)
    ensures
        all_behave(shell.rows_before(facts, upto)),
    decreases upto - shell.rows_from(facts),
{
    broadcast use group_behave;

    if upto > shell.rows_from(facts) {
        lemma_rows(shell, facts, upto - 1);
        let row = shell.settings_rows()[upto - 1];
        lemma_row_parts(
            row,
            shell.comfort.text_scale,
            shell.settings.settings_row_focused && shell.nav.focus == upto - 1 && row.action
                is Some,
        );
        assert(all_behave(shell.row_nodes(row, upto - 1)));
    }
}

proof fn lemma_labels(shell: ShellModel, upto: int)
    ensures
        all_behave(shell.labels_before(upto)),
    decreases upto,
{
    broadcast use group_behave;

    if upto > 0 {
        lemma_labels(shell, upto - 1);
    }
}

proof fn lemma_flow(shell: ShellModel)
    ensures
        all_behave(shell.flow_nodes()),
{
    broadcast use group_behave;

    lemma_labels(shell, shell.label_count());
    assert(all_behave(shell.note_nodes()));
}

proof fn lemma_settings(shell: ShellModel, facts: SurfaceFacts)
    ensures
        all_behave(shell.settings_nodes(facts)),
{
    broadcast use group_behave;

    lemma_flow(shell);
    lemma_entries(shell, shell.rooms(), shell.rooms().len() as int);
    lemma_rows(
        shell,
        facts,
        crate::navigation::least(
            shell.rows_from(facts) + facts.row_capacity,
            shell.settings_rows().len() as int,
        ),
    );
    assert(all_behave(shell.section_nodes(facts)));
}

proof fn lemma_comfort(shell: ShellModel, upto: int)
    ensures
        all_behave(shell.comfort_before(upto)),
    decreases upto,
{
    broadcast use group_behave;

    if upto > 0 {
        lemma_comfort(shell, upto - 1);
    }
}

proof fn lemma_panels(shell: ShellModel, facts: SurfaceFacts)
    ensures
        all_behave(shell.quick_nodes(facts)),
        all_behave(shell.first_run_nodes()),
        all_behave(shell.crash_nodes()),
{
    broadcast use group_behave;

    lemma_comfort(shell, first_run_rows(shell.comfort.display_preferences).len() as int);
    assert(all_behave(shell.idle_nodes()));
    assert(all_behave(shell.panel_rows()));
}

proof fn lemma_draft(shell: ShellModel, facts: SurfaceFacts, footer: Text)
    ensures
        all_behave(shell.draft(facts, footer)),
{
    broadcast use group_behave;

    lemma_status(shell, facts);
    lemma_rooms(shell.nav.route);
    lemma_prompt_bar(shell, footer);
    lemma_home(shell, facts);
    lemma_library(shell, facts);
    lemma_search(shell, facts);
    lemma_details(shell, facts);
    lemma_chooser(shell);
    lemma_settings(shell, facts);
    lemma_panels(shell, facts);
    assert(all_behave(shell.route_nodes(facts)));
    assert(all_behave(shell.body_nodes(facts)));
}

proof fn lemma_named(nodes: Seq<NodeModel>, within: Seq<(usize, usize)>, from: int, to: int)
    requires
        all_behave(nodes),
        0 <= from,
        to <= nodes.len(),
    ensures
        all_behave(with_names(nodes, within, from, to)),
    decreases to - from,
{
    broadcast use group_behave;

    if from < to {
        lemma_below_end(nodes, from, from + 1, to);
        let end = below_end(nodes, from, from + 1, to);
        lemma_named(nodes, within, from + 1, end);
        lemma_named(nodes, within, end, to);
        assert(behaves(nodes[from])) by {
            reveal(all_behave);
        }
    }
}

/// In every scene groups and disabled nodes cannot be chosen, and what starts a
/// search is in focus.
pub proof fn law_scenes_behave(
    shell: ShellModel,
    facts: SurfaceFacts,
    footer: Text,
    within: Seq<(usize, usize)>,
)
    ensures
        all_behave(finished(shell.draft(facts, footer), within)),
{
    let nodes = shell.draft(facts, footer);
    lemma_draft(shell, facts, footer);
    lemma_named(nodes, within, 0, nodes.len() as int);
}

proof fn lemma_holds_joined(left: Seq<NodeModel>, right: Seq<NodeModel>, node: NodeModel)
    requires
        left.contains(node) || right.contains(node),
    ensures
        (left + right).contains(node),
{
    if left.contains(node) {
        let place = choose|i: int| 0 <= i < left.len() && left[i] == node;
        assert((left + right)[place] == node);
    } else {
        let place = choose|i: int| 0 <= i < right.len() && right[i] == node;
        assert((left + right)[left.len() + place] == node);
    }
}

proof fn lemma_named_holds(
    nodes: Seq<NodeModel>,
    within: Seq<(usize, usize)>,
    from: int,
    to: int,
    place: int,
)
    requires
        0 <= from <= place < to <= nodes.len(),
    ensures
        with_names(nodes, within, from, to).contains(nodes[place]),
        wants_name(nodes, within, place, nodes.len() as int) ==> with_names(nodes, within, from, to).contains(
            name_node(nodes[place]),
        ),
    decreases to - from,
{
    lemma_below_end(nodes, from, from + 1, to);
    let end = below_end(nodes, from, from + 1, to);
    let head = seq![nodes[from]];
    let inner = with_names(nodes, within, from + 1, end);
    let name = maybe(wants_name(nodes, within, from, to), name_node(nodes[from]));
    let rest = with_names(nodes, within, end, to);
    let node = nodes[place];
    let shown = name_node(node);
    if place == from {
        assert(head[0] == node);
        lemma_holds_joined(head, inner, node);
        lemma_holds_joined(head + inner, name, node);
        lemma_holds_joined(head + inner + name, rest, node);
        if wants_name(nodes, within, place, nodes.len() as int) {
            assert(name[0] == shown);
            lemma_holds_joined(head + inner, name, shown);
            lemma_holds_joined(head + inner + name, rest, shown);
        }
    } else if place < end {
        lemma_named_holds(nodes, within, from + 1, end, place);
        lemma_holds_joined(head, inner, node);
        lemma_holds_joined(head + inner, name, node);
        lemma_holds_joined(head + inner + name, rest, node);
        if wants_name(nodes, within, place, nodes.len() as int) {
            lemma_holds_joined(head, inner, shown);
            lemma_holds_joined(head + inner, name, shown);
            lemma_holds_joined(head + inner + name, rest, shown);
        }
    } else {
        lemma_named_holds(nodes, within, end, to, place);
        lemma_holds_joined(head + inner + name, rest, node);
        if wants_name(nodes, within, place, nodes.len() as int) {
            lemma_holds_joined(head + inner + name, rest, shown);
        }
    }
}

/// Finishing a scene loses no node, and whatever can be chosen and has a name
/// shows it: by a node below it and within it, or by one of its own.
pub proof fn law_whatever_acts_shows_its_name(
    nodes: Seq<NodeModel>,
    within: Seq<(usize, usize)>,
    place: int,
)
    requires
        0 <= place < nodes.len(),
    ensures
        finished(nodes, within).contains(nodes[place]),
        nodes[place].action is Some && !blank(nodes[place].label) ==> shows_name(
            nodes,
            within,
            place,
            nodes.len() as int,
        ) || finished(nodes, within).contains(name_node(nodes[place])),
{
    lemma_named_holds(nodes, within, 0, nodes.len() as int, place);
}

} // verus!
