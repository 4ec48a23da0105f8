//! Who owns the focus: in every scene at most one node that can be chosen.

use crate::actions::first_run_rows;
use crate::cards::{art_nodes, card_id, cue_nodes, kept, node_place, plate_nodes, ringed, Showcase};
use crate::catalog::{ItemModel, VariantModel};
use crate::chrome::{footer_nodes, prompts_nodes};
use crate::cutting::{lines_of, pieces};
use crate::detail_scene::ready_count;
use crate::library::shelf;
use crate::navigation::{least, ready_between, window_end, window_start};
use crate::scene::{maybe, NodeModel};
use crate::settings::RowModel;
use crate::settings_scene::{line_nodes, row_parts, scale_nodes, switch_nodes};
use crate::stage::{below_end, finished, lemma_below_end, name_node, wants_name, with_names};
use crate::state::{Presentation, Route, SettingsRoom, ShellModel};
use crate::surface::SurfaceFacts;
use crate::text::Text;
use crate::titles::{lemma_first_ready, ready_places};
use vstd::prelude::*;

verus! {

/// Whether a node is in focus and can be chosen.
pub open spec fn owns_focus(node: NodeModel) -> bool {
    node.state.focused && node.action is Some
}

/// Whether no node of a list can be chosen.
#[verifier::opaque]
pub open spec fn inert(nodes: Seq<NodeModel>) -> bool {
    forall|i: int| 0 <= i < nodes.len() ==> (#[trigger] nodes[i]).action is None
}

/// Whether no node of a list owns the focus.
#[verifier::opaque]
pub open spec fn idle(nodes: Seq<NodeModel>) -> bool {
    forall|i: int| 0 <= i < nodes.len() ==> !owns_focus(#[trigger] nodes[i])
}

/// Whether at most one node of a list owns the focus.
#[verifier::opaque]
pub open spec fn undivided(nodes: Seq<NodeModel>) -> bool {
    forall|i: int, j: int|
        #![trigger nodes[i], nodes[j]]
        0 <= i < j < nodes.len() ==> !owns_focus(nodes[i]) || !owns_focus(nodes[j])
}

broadcast proof fn lemma_inert_none()
    ensures
        #[trigger] inert(Seq::empty()),
{
    reveal(inert);
}

broadcast proof fn lemma_inert_push(nodes: Seq<NodeModel>, node: NodeModel)
    requires
        inert(nodes),
        node.action is None,
    ensures
        #[trigger] inert(nodes.push(node)),
{
    reveal(inert);
}

broadcast proof fn lemma_inert_both(left: Seq<NodeModel>, right: Seq<NodeModel>)
    requires
        inert(left),
        inert(right),
    ensures
        #[trigger] inert(left + right),
{
    reveal(inert);
}

broadcast proof fn lemma_inert_maybe(wanted: bool, node: NodeModel)
    requires
        node.action is None,
    ensures
        #[trigger] inert(maybe(wanted, node)),
{
    reveal(inert);
}

broadcast proof fn lemma_inert_literal<const N: usize>(nodes: [NodeModel; N])
    requires
        forall|i: int| 0 <= i < N ==> (#[trigger] nodes@[i]).action is None,
    ensures
        #[trigger] inert(nodes@),
{
    reveal(inert);
}

broadcast group group_inert {
    lemma_inert_none,
    lemma_inert_push,
    lemma_inert_both,
    lemma_inert_maybe,
    lemma_inert_literal,
}

broadcast proof fn lemma_idle_inert(nodes: Seq<NodeModel>)
    requires
        inert(nodes),
    ensures
        #[trigger] idle(nodes),
{
    reveal(inert);
    reveal(idle);
}

broadcast proof fn lemma_idle_none()
    ensures
        #[trigger] idle(Seq::empty()),
{
    reveal(idle);
}

broadcast proof fn lemma_idle_push(nodes: Seq<NodeModel>, node: NodeModel)
    requires
        idle(nodes),
        !owns_focus(node),
    ensures
        #[trigger] idle(nodes.push(node)),
{
    reveal(idle);
}

broadcast proof fn lemma_idle_both(left: Seq<NodeModel>, right: Seq<NodeModel>)
    requires
        idle(left),
        idle(right),
    ensures
        #[trigger] idle(left + right),
{
    reveal(idle);
}

broadcast proof fn lemma_idle_maybe(wanted: bool, node: NodeModel)
    requires
        !owns_focus(node),
    ensures
        #[trigger] idle(maybe(wanted, node)),
{
    reveal(idle);
}

broadcast proof fn lemma_idle_literal<const N: usize>(nodes: [NodeModel; N])
    requires
        forall|i: int| 0 <= i < N ==> !owns_focus(#[trigger] nodes@[i]),
    ensures
        #[trigger] idle(nodes@),
{
    reveal(idle);
}

broadcast group group_idle {
    lemma_idle_inert,
    lemma_idle_none,
    lemma_idle_push,
    lemma_idle_both,
    lemma_idle_maybe,
    lemma_idle_literal,
}

broadcast proof fn lemma_undivided_idle(nodes: Seq<NodeModel>)
    requires
        idle(nodes),
    ensures
        #[trigger] undivided(nodes),
{
    reveal(idle);
    reveal(undivided);
}

broadcast proof fn lemma_undivided_push(nodes: Seq<NodeModel>, node: NodeModel)
    requires
        (undivided(nodes) && !owns_focus(node)) || idle(nodes),
    ensures
        #[trigger] undivided(nodes.push(node)),
{
    reveal(idle);
    reveal(undivided);
}

broadcast proof fn lemma_undivided_both(left: Seq<NodeModel>, right: Seq<NodeModel>)
    requires
        (undivided(left) && idle(right)) || (idle(left) && undivided(right)),
    ensures
        #[trigger] undivided(left + right),
{
    reveal(idle);
    reveal(undivided);
}

broadcast proof fn lemma_undivided_maybe(wanted: bool, node: NodeModel)
    ensures
        #[trigger] undivided(maybe(wanted, node)),
{
    reveal(undivided);
}

broadcast proof fn lemma_undivided_literal<const N: usize>(nodes: [NodeModel; N])
    requires
        forall|i: int, j: int|
            #![trigger nodes@[i], nodes@[j]]
            0 <= i < j < N ==> !owns_focus(nodes@[i]) || !owns_focus(nodes@[j]),
    ensures
        #[trigger] undivided(nodes@),
{
    reveal(undivided);
}

broadcast group group_undivided {
    lemma_undivided_idle,
    lemma_undivided_push,
    lemma_undivided_both,
    lemma_undivided_maybe,
    lemma_undivided_literal,
}

proof fn lemma_status(shell: ShellModel, facts: SurfaceFacts)
    ensures
        inert(shell.shown_status(facts)),
        inert(shell.session_nodes()),
{
    broadcast use group_inert;

}

proof fn lemma_rooms(route: Route)
    ensures
        inert(ShellModel::rooms_nodes(route)),
{
    broadcast use group_inert;

    assert(inert(ShellModel::keycap_nodes("room-keycap-left"@, "L"@)));
    assert(inert(ShellModel::keycap_nodes("room-keycap-right"@, "R"@)));
}

proof fn lemma_prompts(prompts: Seq<Text>, upto: int)
    ensures
        inert(prompts_nodes(prompts, upto)),
    decreases upto,
{
    broadcast use group_inert;

    if upto > 0 {
        lemma_prompts(prompts, upto - 1);
    }
}

proof fn lemma_prompt_bar(shell: ShellModel, footer: Text)
    ensures
        inert(shell.prompt_bar(footer)),
{
    broadcast use group_inert;

    let own = shell.footer(footer);
    lemma_prompts(pieces(own, " · "@), pieces(own, " · "@).len() as int);
    let parted = crate::cutting::replaced(own, "     "@, " · "@);
    lemma_prompts(pieces(parted, " · "@), pieces(parted, " · "@).len() as int);
    assert(inert(footer_nodes(own)));
    assert(inert(footer_nodes(parted)));
}

proof fn lemma_art(item: ItemModel, place: usize, showcase: Showcase, cells: int, scale: int)
    ensures
        inert(art_nodes(item, place, showcase, cells, scale)),
{
    broadcast use group_inert;

    assert(inert(plate_nodes(item, showcase)));
}

proof fn lemma_cues(
    item: ItemModel,
    showcase: Showcase,
    reasons: bool,
    cells: int,
    badge_cells: int,
    reason_cells: Option<int>,
    scale: int,
)
    ensures
        inert(cue_nodes(item, showcase, reasons, cells, badge_cells, reason_cells, scale)),
{
    broadcast use group_inert;

}

proof fn lemma_shelf_card(shell: ShellModel, facts: SurfaceFacts, place: int)
    ensures
        undivided(shell.shelf_card(facts, place)),
        shell.nav.focus != place ==> idle(shell.shelf_card(facts, place)),
{
    broadcast use {group_inert, group_idle, group_undivided};

    let item_place = shelf(shell.titles.items)[place];
    let item = shell.titles.items[item_place as int];
    let scale = shell.comfort.text_scale;
    let art = art_nodes(item, item_place, Showcase::Shelf, facts.shelf_cells as int, scale);
    let cues = cue_nodes(
        item,
        Showcase::Shelf,
        facts.caption_fits,
        facts.shelf_cells as int,
        facts.shelf_badge_cells as int,
        Some(facts.shelf_reason_cells as int),
        scale,
    );
    lemma_art(item, item_place, Showcase::Shelf, facts.shelf_cells as int, scale);
    lemma_cues(
        item,
        Showcase::Shelf,
        facts.caption_fits,
        facts.shelf_cells as int,
        facts.shelf_badge_cells as int,
        Some(facts.shelf_reason_cells as int),
        scale,
    );
    assert(idle(art) && idle(cues));
}

proof fn lemma_shelf_cards(shell: ShellModel, facts: SurfaceFacts, upto: int)
    ensures
        undivided(shell.shelf_cards(facts, upto)),
        shell.nav.focus >= upto ==> idle(shell.shelf_cards(facts, upto)),
    decreases upto - shell.shelf_from(facts),
{
    broadcast use {group_idle, group_undivided};

    if upto > shell.shelf_from(facts) {
        lemma_shelf_cards(shell, facts, upto - 1);
        lemma_shelf_card(shell, facts, upto - 1);
    }
}

proof fn lemma_home(shell: ShellModel, facts: SurfaceFacts)
    ensures
        undivided(shell.home_nodes(facts)),
{
    broadcast use {group_inert, group_idle, group_undivided};

    let count = shelf(shell.titles.items).len() as int;
    lemma_shelf_cards(
        shell,
        facts,
        least(shell.shelf_from(facts) + shell.shelf_shown(facts), count),
    );
    assert(inert(shell.hero_nodes()));
    if let Some(message) = shell.attention() {
        assert(inert(crate::home_scene::attention_nodes(message)));
    }
}

proof fn lemma_kept(nodes: Seq<NodeModel>, upto: int)
    requires
        inert(nodes),
        upto <= nodes.len(),
    ensures
        inert(kept(nodes, upto)),
    decreases upto,
{
    broadcast use group_inert;

    if upto > 0 {
        lemma_kept(nodes, upto - 1);
        assert(nodes[upto - 1].action is None) by {
            reveal(inert);
        }
    }
}

proof fn lemma_node_place(nodes: Seq<NodeModel>, id: Text, from: int)
    requires
        0 <= from,
    ensures
        node_place(nodes, id, from) matches Some(place) ==> from <= place < nodes.len(),
    decreases nodes.len() - from,
{
    if from < nodes.len() && nodes[from].id != id {
        lemma_node_place(nodes, id, from + 1);
    }
}

proof fn lemma_ringed(nodes: Seq<NodeModel>, id: Text)
    requires
        inert(nodes),
    ensures
        inert(ringed(nodes, id)),
{
    reveal(inert);
    lemma_node_place(nodes, id, 0);
    assert forall|i: int| 0 <= i < ringed(nodes, id).len() implies (#[trigger] ringed(
        nodes,
        id,
    )[i]).action is None by {
        assert(nodes[i].action is None);
    }
}

proof fn lemma_card(shell: ShellModel, facts: SurfaceFacts, place: int)
    ensures
        undivided(shell.card_nodes(facts, place)),
        shell.nav.focus != place + 5 ==> idle(shell.card_nodes(facts, place)),
{
    broadcast use {group_inert, group_idle, group_undivided};

    let item_place = shell.titles.library_items[place];
    let item = shell.titles.items[item_place as int];
    let scale = shell.comfort.text_scale;
    let art = art_nodes(item, item_place, Showcase::Library, facts.card_cells as int, scale);
    let cues = cue_nodes(
        item,
        Showcase::Library,
        true,
        facts.card_cells as int,
        facts.card_badge_cells as int,
        None,
        scale,
    );
    lemma_art(item, item_place, Showcase::Library, facts.card_cells as int, scale);
    lemma_cues(
        item,
        Showcase::Library,
        true,
        facts.card_cells as int,
        facts.card_badge_cells as int,
        None,
        scale,
    );
    assert(inert(art + cues));
    lemma_kept(art + cues, (art + cues).len() as int);
    lemma_ringed(
        kept(art + cues, (art + cues).len() as int),
        card_id(Showcase::Library, "-art-"@, item.id),
    );
    assert(inert(shell.card_face(facts, place)));
}

proof fn lemma_cards(shell: ShellModel, facts: SurfaceFacts, upto: int)
    ensures
        undivided(shell.cards_before(facts, upto)),
        shell.nav.focus < 5 || shell.nav.focus >= upto + 5 ==> idle(
            shell.cards_before(facts, upto),
        ),
    decreases upto,
{
    broadcast use {group_idle, group_undivided};

    if upto > 0 {
        lemma_cards(shell, facts, upto - 1);
        lemma_card(shell, facts, upto - 1);
    }
}

proof fn lemma_chip(shell: ShellModel, facts: SurfaceFacts, index: int)
    ensures
        undivided(shell.chip_nodes(facts, index)),
        shell.nav.focus != index + 1 ==> idle(shell.chip_nodes(facts, index)),
{
    broadcast use {group_inert, group_idle, group_undivided};

}

proof fn lemma_library(shell: ShellModel, facts: SurfaceFacts)
    ensures
        undivided(shell.library_nodes(facts)),
{
    broadcast use {group_inert, group_idle, group_undivided};

    lemma_cards(shell, facts, shell.titles.library_items.len() as int);
    lemma_chip(shell, facts, 0);
    lemma_chip(shell, facts, 1);
    lemma_chip(shell, facts, 2);
    lemma_chip(shell, facts, 3);
    assert(undivided(shell.toolbar_nodes(facts)));
    assert(shell.nav.focus >= 5 ==> idle(shell.toolbar_nodes(facts)));
}

proof fn lemma_results(shell: ShellModel, facts: SurfaceFacts, upto: int)
    ensures
        undivided(shell.results_before(facts, upto)),
        shell.nav.focus >= upto ==> idle(shell.results_before(facts, upto)),
    decreases upto - shell.results_from(facts),
{
    broadcast use {group_idle, group_undivided};

    if upto > shell.results_from(facts) {
        lemma_results(shell, facts, upto - 1);
        assert(undivided(shell.result_nodes(facts, upto - 1)));
        assert(shell.nav.focus != upto - 1 ==> idle(shell.result_nodes(facts, upto - 1)));
    }
}

proof fn lemma_search(shell: ShellModel, facts: SurfaceFacts)
    ensures
        undivided(shell.search_nodes(facts)),
{
    broadcast use {group_inert, group_idle, group_undivided};

    let count = shell.titles.search_results.len() as int;
    let upto = least(shell.results_from(facts) + facts.result_capacity, count);
    lemma_results(shell, facts, upto);
    assert(undivided(shell.query_nodes()));
    if count == 0 {
        assert(idle(shell.results_before(facts, upto)));
    } else {
        assert(idle(shell.query_nodes()));
    }
}

proof fn lemma_one_more_between(variants: Seq<VariantModel>, from: int, to: int)
    requires
        0 <= from < to <= variants.len(),
    ensures
        ready_between(variants, from, to).len() == ready_between(variants, from, to - 1).len() + (
        if variants[to - 1].availability is Ready {
            1int
        } else {
            0int
        }),
    decreases to - from,
{
    if from + 1 < to {
        lemma_one_more_between(variants, from + 1, to);
    } else {
        reveal_with_fuel(ready_between, 2);
    }
}

proof fn lemma_ready_counts(variants: Seq<VariantModel>, from: int, to: int)
    requires
        0 <= from,
        to <= variants.len(),
    ensures
        ready_count(variants, from, to) == ready_between(variants, from, to).len(),
        ready_count(variants, from, to) >= 0,
    decreases to - from,
{
    if from < to {
        lemma_ready_counts(variants, from, to - 1);
        lemma_one_more_between(variants, from, to);
    }
}

proof fn lemma_variants(shell: ShellModel, variants: Seq<VariantModel>, upto: int)
    requires
        upto <= variants.len(),
    ensures
        undivided(shell.variants_before(variants, upto)),
        shell.nav.focus >= ready_count(variants, window_start(variants), upto) ==> idle(
            shell.variants_before(variants, upto),
        ),
    decreases upto - window_start(variants),
{
    broadcast use {group_idle, group_undivided};

    if upto > window_start(variants) {
        lemma_variants(shell, variants, upto - 1);
        assert(undivided(shell.variant_nodes(variants, upto - 1)));
        assert(!shell.variant_focused(variants, upto - 1) ==> idle(
            shell.variant_nodes(variants, upto - 1),
        ));
    }
}

proof fn lemma_none_ready(shell: ShellModel, variants: Seq<VariantModel>, upto: int)
    requires
        ready_places(variants, 0).len() == 0,
        upto <= variants.len(),
    ensures
        idle(shell.variants_before(variants, upto)),
    decreases upto - window_start(variants),
{
    broadcast use group_idle;

    if upto > window_start(variants) {
        lemma_none_ready(shell, variants, upto - 1);
        lemma_first_ready(variants, 0);
        assert(!(variants[upto - 1].availability is Ready));
        assert(idle(shell.variant_nodes(variants, upto - 1)));
    }
}

proof fn lemma_deeds(shell: ShellModel, item: ItemModel)
    requires
        shell.nav.selected_item matches Some(place) && shell.titles.items[place] == item,
    ensures
        undivided(shell.deed_nodes(item)),
        ready_places(item.variants, 0).len() > 0 && shell.nav.focus < shell.detail_rows().len()
            ==> idle(shell.deed_nodes(item)),
{
    broadcast use {group_inert, group_idle, group_undivided};

    let pinned = shell.nav.focus == shell.pin_focus();
    assert(undivided(shell.pin_button(item, pinned)));
    assert(!pinned ==> idle(shell.pin_button(item, pinned)));
    assert(undivided(shell.pin_button(item, true)));
}

proof fn lemma_details(shell: ShellModel, facts: SurfaceFacts)
    ensures
        undivided(shell.detail_nodes(facts)),
{
    broadcast use {group_inert, group_idle, group_undivided};

    if let Some(place) = shell.nav.selected_item {
        let item = shell.titles.items[place];
        let variants = item.variants;
        lemma_art(item, place as usize, Showcase::Details, 0, shell.comfort.text_scale);
        assert(inert(shell.portrait_nodes(place)));
        lemma_variants(shell, variants, window_end(variants));
        lemma_ready_counts(variants, window_start(variants), window_end(variants));
        lemma_deeds(shell, item);
        if ready_places(variants, 0).len() == 0 {
            lemma_none_ready(shell, variants, window_end(variants));
        }
        assert(inert(shell.shown_facts(facts, item)));
        assert(undivided(shell.ways_nodes(variants)));
        assert(idle(shell.ways_nodes(variants)) || idle(shell.deed_nodes(item)));
    }
}

proof fn lemma_choices(shell: ShellModel, variants: Seq<VariantModel>, upto: int)
    ensures
        undivided(shell.choices_before(variants, upto)),
        shell.nav.focus >= upto ==> idle(shell.choices_before(variants, upto)),
    decreases upto - shell.choices_from(variants),
{
    broadcast use {group_idle, group_undivided};

    if upto > shell.choices_from(variants) {
        lemma_choices(shell, variants, upto - 1);
    }
}

proof fn lemma_chooser(shell: ShellModel)
    ensures
        undivided(shell.chooser_nodes()),
{
    broadcast use {group_inert, group_idle, group_undivided};

    if let Some(place) = shell.nav.selected_item {
        let variants = shell.titles.items[place].variants;
        lemma_choices(
            shell,
            variants,
            least(shell.choices_from(variants) + 5, ready_places(variants, 0).len() as int),
        );
    }
}

proof fn lemma_entries(shell: ShellModel, rooms: Seq<SettingsRoom>, upto: int)
    ensures
        undivided(shell.entries_before(rooms, upto)),
        shell.settings.settings_in_rows || shell.nav.focus >= upto ==> idle(
            shell.entries_before(rooms, upto),
        ),
    decreases upto,
{
    broadcast use {group_idle, group_undivided};

    if upto > 0 {
        lemma_entries(shell, rooms, upto - 1);
        let entry = shell.entry_nodes(rooms[upto - 1], upto - 1);
        assert(undivided(entry));
        assert(shell.settings.settings_in_rows || shell.nav.focus != upto - 1 ==> idle(entry));
    }
}

proof fn lemma_row_parts(row: RowModel, scale: int, focused: bool)
    ensures
        inert(row_parts(row, scale, focused)),
{
    broadcast use group_inert;

    let lines = lines_of(row.label);
    assert(inert(line_nodes(row, lines, scale)));
    assert(inert(scale_nodes(row, lines, scale, focused)));
    assert(inert(switch_nodes(row, lines, scale, focused, true)));
    assert(inert(switch_nodes(row, lines, scale, focused, false)));
}

proof fn lemma_rows(shell: ShellModel, facts: SurfaceFacts, upto: int)
    ensures
        idle(shell.rows_before(facts, upto)),
    decreases upto - shell.rows_from(facts),
{
    broadcast use group_idle;

    if upto > shell.rows_from(facts) {
        lemma_rows(shell, facts, upto - 1);
        let row = shell.settings_rows()[upto - 1];
        lemma_row_parts(
            row,
            shell.comfort.text_scale,
            shell.settings.settings_row_focused && shell.nav.focus == upto - 1 && row.action
                is Some,
        );
        assert(idle(shell.row_nodes(row, upto - 1)));
    }
}

proof fn lemma_labels(shell: ShellModel, upto: int)
    ensures
        undivided(shell.labels_before(upto)),
        shell.nav.focus >= upto ==> idle(shell.labels_before(upto)),
    decreases upto,
{
    broadcast use {group_idle, group_undivided};

    if upto > 0 {
        lemma_labels(shell, upto - 1);
    }
}

proof fn lemma_flow(shell: ShellModel)
    ensures
        undivided(shell.flow_nodes()),
{
    broadcast use {group_inert, group_idle, group_undivided};

    let count = shell.label_count();
    lemma_labels(shell, count);
    assert(undivided(shell.note_nodes()));
    assert(shell.nav.focus < count ==> idle(shell.note_nodes()));
}

proof fn lemma_settings(shell: ShellModel, facts: SurfaceFacts)
    ensures
        undivided(shell.settings_nodes(facts)),
{
    broadcast use {group_inert, group_idle, group_undivided};

    lemma_flow(shell);
    lemma_entries(shell, shell.rooms(), shell.rooms().len() as int);
    lemma_rows(
        shell,
        facts,
        least(
            shell.rows_from(facts) + facts.row_capacity,
            shell.settings_rows().len() as int,
        ),
    );
    assert(idle(shell.section_nodes(facts)));
}

proof fn lemma_comfort(shell: ShellModel, upto: int)
    ensures
        undivided(shell.comfort_before(upto)),
        shell.nav.focus >= upto ==> idle(shell.comfort_before(upto)),
    decreases upto,
{
    broadcast use {group_idle, group_undivided};

    if upto > 0 {
        lemma_comfort(shell, upto - 1);
    }
}

proof fn lemma_panel_row(id: Text, label: Text, focused: bool, enabled: bool)
    ensures
        undivided(crate::panel_scene::panel_row_nodes(id, label, focused, enabled)),
        !focused ==> idle(crate::panel_scene::panel_row_nodes(id, label, focused, enabled)),
{
    broadcast use {group_idle, group_undivided};

}

proof fn lemma_panel(shell: ShellModel)
    ensures
        undivided(shell.panel_rows()),
{
    broadcast use {group_inert, group_idle, group_undivided};

    let focus = shell.nav.focus;
    lemma_panel_row("quick-0"@, "Open focused item"@, focus == 0, true);
    lemma_panel_row("quick-1"@, "Browse the library"@, focus == 1, true);
    lemma_panel_row(
        "quick-power-power-off"@,
        "Power off"@,
        focus == 2,
        shell.supports(crate::ports::PowerAction::PowerOff),
    );
    lemma_panel_row(
        "quick-power-restart"@,
        "Restart"@,
        focus == 3,
        shell.supports(crate::ports::PowerAction::Restart),
    );
    lemma_panel_row("quick-power-sleep"@, "Sleep"@, focus == 4, true);
    lemma_panel_row(
        "quick-capture-screenshot"@,
        "Capture screenshot"@,
        focus == shell.screenshot_row(),
        true,
    );
    assert(undivided(shell.idle_nodes()));
    assert(focus != shell.idle_row() ==> idle(shell.idle_nodes()));
}

proof fn lemma_panels(shell: ShellModel, facts: SurfaceFacts)
    ensures
        undivided(shell.quick_nodes(facts)),
        undivided(shell.first_run_nodes()),
        undivided(shell.crash_nodes()),
{
    broadcast use {group_inert, group_idle, group_undivided};

    lemma_comfort(shell, first_run_rows(shell.comfort.display_preferences).len() as int);
    lemma_panel(shell);
}

proof fn lemma_draft(shell: ShellModel, facts: SurfaceFacts, footer: Text)
    ensures
        undivided(shell.draft(facts, footer)),
{
    broadcast use {group_inert, group_idle, group_undivided};

    lemma_status(shell, facts);
    lemma_rooms(shell.nav.route);
    lemma_prompt_bar(shell, footer);
    match shell.session.presentation {
        Presentation::FirstRun | Presentation::Crash => {
            lemma_panels(shell, facts);
        },
        _ => {
            match shell.nav.route {
                Route::Home => lemma_home(shell, facts),
                Route::Library => lemma_library(shell, facts),
                Route::Search => lemma_search(shell, facts),
                Route::Details => lemma_details(shell, facts),
                Route::VariantChooser => lemma_chooser(shell),
                Route::Settings => lemma_settings(shell, facts),
                Route::Quick => lemma_panels(shell, facts),
            }
        },
    }
    assert(undivided(shell.body_nodes(facts)));
}

proof fn lemma_named(nodes: Seq<NodeModel>, within: Seq<(usize, usize)>, from: int, to: int)
    requires
        0 <= from <= to <= nodes.len(),
    ensures
        undivided(nodes.subrange(from, to)) ==> undivided(with_names(nodes, within, from, to)),
        idle(nodes.subrange(from, to)) ==> idle(with_names(nodes, within, from, to)),
    decreases to - from,
{
    broadcast use {group_idle, group_undivided};

    if from < to {
        lemma_below_end(nodes, from, from + 1, to);
        let end = below_end(nodes, from, from + 1, to);
        lemma_named(nodes, within, from + 1, end);
        lemma_named(nodes, within, end, to);
        let all = nodes.subrange(from, to);
        let inner = nodes.subrange(from + 1, end);
        let rest = nodes.subrange(end, to);
        lemma_parts(all, end - from);
        assert(all.subrange(1, end - from) =~= inner);
        assert(all.subrange(end - from, to - from) =~= rest);
        assert(all[0] == nodes[from]);
        let name = maybe(wants_name(nodes, within, from, to), name_node(nodes[from]));
        assert(idle(name));
    }
}

/// What a list leaves to its first node and to the two parts behind it.
proof fn lemma_parts(nodes: Seq<NodeModel>, middle: int)
    requires
        1 <= middle <= nodes.len(),
    ensures
        ({
            let inner = nodes.subrange(1, middle);
            let rest = nodes.subrange(middle, nodes.len() as int);
            &&& idle(nodes) ==> !owns_focus(nodes[0]) && idle(inner) && idle(rest)
            &&& undivided(nodes) ==> undivided(inner) && undivided(rest)
            &&& undivided(nodes) && owns_focus(nodes[0]) ==> idle(inner) && idle(rest)
            &&& undivided(nodes) ==> idle(inner) || idle(rest)
        }),
{
    reveal(idle);
    reveal(undivided);
    let inner = nodes.subrange(1, middle);
    let rest = nodes.subrange(middle, nodes.len() as int);
    assert forall|i: int| 0 <= i < inner.len() implies #[trigger] inner[i] == nodes[i + 1] by {}
    assert forall|i: int| 0 <= i < rest.len() implies #[trigger] rest[i] == nodes[i + middle] by {}
    if undivided(nodes) && !idle(inner) && !idle(rest) {
        let i = choose|i: int| 0 <= i < inner.len() && owns_focus(#[trigger] inner[i]);
        let j = choose|j: int| 0 <= j < rest.len() && owns_focus(#[trigger] rest[j]);
        assert(owns_focus(nodes[i + 1]) && owns_focus(nodes[j + middle]));
    }
    if undivided(nodes) {
        assert forall|i: int, j: int|
            #![trigger inner[i], inner[j]]
            0 <= i < j < inner.len() implies !owns_focus(inner[i]) || !owns_focus(inner[j]) by {
            assert(inner[i] == nodes[i + 1] && inner[j] == nodes[j + 1]);
        }
        assert forall|i: int, j: int|
            #![trigger rest[i], rest[j]]
            0 <= i < j < rest.len() implies !owns_focus(rest[i]) || !owns_focus(rest[j]) by {
            assert(rest[i] == nodes[i + middle] && rest[j] == nodes[j + middle]);
        }
    }
}

/// In every scene at most one node that can be chosen is in focus.
pub proof fn law_one_node_owns_the_focus(
    shell: ShellModel,
    facts: SurfaceFacts,
    footer: Text,
    within: Seq<(usize, usize)>,
)
    ensures
        undivided(finished(shell.draft(facts, footer), within)),
{
    let nodes = shell.draft(facts, footer);
    lemma_draft(shell, facts, footer);
    lemma_named(nodes, within, 0, nodes.len() as int);
    assert(nodes.subrange(0, nodes.len() as int) =~= nodes);
}

} // verus!
