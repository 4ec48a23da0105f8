//! What the library, the search, the details and the choice of variants say of
//! titles.

use crate::answers::{at_ease, lemma_ready_counted, lemma_ready_total, ready_before};
use crate::cards::{
    art_nodes, badge_words, cue_nodes, initial, pin_node, plate_nodes, wants_network, Showcase,
};
use crate::catalog::{AvailabilityModel, ItemModel, VariantModel};
use crate::cutting::raised_text;
use crate::detail_scene::{ready_count, readiness_words, source_words, variant_sub, version_words};
use crate::home_scene::law_window_shows_the_focus;
use crate::library::shelf;
use crate::library_scene::law_library_shows_the_focus;
use crate::listing::law_chips_count_what_they_list;
use crate::navigation::{least, window_end, window_start};
use crate::playtime::playtime_text;
use crate::reading::{lemma_in_body, marks, offers, reads, scene_of};
use crate::scene::{NodeModel, Picture, Role, Token};
use crate::state::{most_items, LibraryFilter, Presentation, Route, ShellModel};
use crate::surface::SurfaceFacts;
use crate::text::{decimal_text, humanized, Text};
use crate::titles::{
    availability_of, availability_words, capability_of, first_ready, kind_name, kind_word,
    ready_label, ready_places, tagged, ReadyVariantCapability,
};
use vstd::prelude::*;
use vstd::string::*;

verus! {

broadcast use crate::reading::group_contained;

proof fn lemma_library(shell: ShellModel, facts: SurfaceFacts, node: NodeModel)
    requires
        at_ease(shell),
        shell.nav.route == Route::Library,
        shell.library_nodes(facts).contains(node),
    ensures
        shell.body_nodes(facts).contains(node),
{
}

proof fn lemma_toolbar(shell: ShellModel, facts: SurfaceFacts, node: NodeModel)
    requires
        shell.toolbar_nodes(facts).contains(node),
    ensures
        shell.library_nodes(facts).contains(node),
{
}

proof fn lemma_chip(shell: ShellModel, facts: SurfaceFacts, index: int)
    requires
        0 <= index < 4,
    ensures
        shell.toolbar_nodes(facts).contains(shell.chip_nodes(facts, index)[0]),
{
    let chip = shell.chip_nodes(facts, index);
    assert(chip.contains(chip[0]));
    assert(index == 0 || index == 1 || index == 2 || index == 3);
}

/// The toolbar of the library says how many titles can be searched, and its chips
/// what they list: by last use, by the alphabet, the games and everything else,
/// the last two with the number of titles that they list. The chip of the list
/// that is shown is marked, and only that one.
pub proof fn law_toolbar_says_what_it_lists(
    shell: ShellModel,
    facts: SurfaceFacts,
    footer: Text,
    within: Seq<(usize, usize)>,
)
    requires
        at_ease(shell),
        shell.nav.route == Route::Library,
        shell.titles.items.len() <= most_items(),
    ensures
        ({
            let scene = scene_of(shell, facts, footer, within);
            let focus = shell.nav.focus;
            let filter = shell.titles.library_filter;
            let games = shell.filtering(LibraryFilter::Games).titles.library_items.len();
            let rest = shell.filtering(LibraryFilter::EverythingElse).titles.library_items.len();
            &&& offers(
                scene,
                "library-search"@,
                "⌕  Search "@ + decimal_text(shell.titles.items.len()) + " titles"@,
                focus == 0,
            )
            &&& offers(scene, "library-filter-"@ + decimal_text(0), "Recent"@, focus == 1)
            &&& offers(scene, "library-filter-"@ + decimal_text(1), "A–Z"@, focus == 2)
            &&& offers(
                scene,
                "library-filter-"@ + decimal_text(2),
                "Games"@ + " · "@ + decimal_text(games),
                focus == 3,
            )
            &&& offers(
                scene,
                "library-filter-"@ + decimal_text(3),
                "Everything else"@ + " · "@ + decimal_text(rest),
                focus == 4,
            )
            &&& marks(
                scene,
                "library-filter-"@ + decimal_text(0),
                filter == LibraryFilter::Recent,
            )
            &&& marks(
                scene,
                "library-filter-"@ + decimal_text(1),
                filter == LibraryFilter::Alphabetical,
            )
            &&& marks(scene, "library-filter-"@ + decimal_text(2), filter == LibraryFilter::Games)
            &&& marks(
                scene,
                "library-filter-"@ + decimal_text(3),
                filter == LibraryFilter::EverythingElse,
            )
        }),
{
    law_chips_count_what_they_list(shell);
    let search = shell.toolbar_nodes(facts)[0];
    assert(shell.toolbar_nodes(facts).contains(search));
    lemma_toolbar(shell, facts, search);
    lemma_library(shell, facts, search);
    lemma_in_body(shell, facts, footer, within, search);
    let first = shell.chip_nodes(facts, 0)[0];
    lemma_chip(shell, facts, 0);
    lemma_toolbar(shell, facts, first);
    lemma_library(shell, facts, first);
    lemma_in_body(shell, facts, footer, within, first);
    let second = shell.chip_nodes(facts, 1)[0];
    lemma_chip(shell, facts, 1);
    lemma_toolbar(shell, facts, second);
    lemma_library(shell, facts, second);
    lemma_in_body(shell, facts, footer, within, second);
    let third = shell.chip_nodes(facts, 2)[0];
    lemma_chip(shell, facts, 2);
    lemma_toolbar(shell, facts, third);
    lemma_library(shell, facts, third);
    lemma_in_body(shell, facts, footer, within, third);
    let fourth = shell.chip_nodes(facts, 3)[0];
    lemma_chip(shell, facts, 3);
    lemma_toolbar(shell, facts, fourth);
    lemma_library(shell, facts, fourth);
    lemma_in_body(shell, facts, footer, within, fourth);
}

proof fn lemma_library_card(shell: ShellModel, facts: SurfaceFacts, upto: int, place: int)
    requires
        0 <= place < upto,
        shell.card_shown(facts, place),
    ensures
        shell.cards_before(facts, upto).contains(shell.card_nodes(facts, place)[0]),
    decreases upto,
{
    if place < upto - 1 {
        lemma_library_card(shell, facts, upto - 1, place);
    } else {
        let card = shell.card_nodes(facts, place);
        assert(card.contains(card[0]));
    }
}

/// Every card of the library that is shown says its title and can be chosen, and
/// the one in focus is shown.
pub proof fn law_library_cards_say_their_title(
    shell: ShellModel,
    facts: SurfaceFacts,
    footer: Text,
    within: Seq<(usize, usize)>,
    place: int,
)
    requires
        at_ease(shell),
        shell.nav.route == Route::Library,
        facts.wf(),
        0 <= place < shell.titles.library_items.len(),
        shell.card_shown(facts, place) || shell.nav.focus == place + 5,
    ensures
        ({
            let item = shell.titles.items[shell.titles.library_items[place] as int];
            offers(
                scene_of(shell, facts, footer, within),
                "library-item-"@ + item.id,
                item.title,
                shell.nav.focus == place + 5,
            )
        }),
{
    if shell.nav.focus == place + 5 {
        law_library_shows_the_focus(shell, facts);
    }
    lemma_library_card(shell, facts, shell.titles.library_items.len() as int, place);
    let card = shell.card_nodes(facts, place)[0];
    assert(shell.library_nodes(facts).contains(card));
    lemma_library(shell, facts, card);
    lemma_in_body(shell, facts, footer, within, card);
}

proof fn lemma_search(shell: ShellModel, facts: SurfaceFacts, node: NodeModel)
    requires
        at_ease(shell),
        shell.nav.route == Route::Search,
        shell.search_nodes(facts).contains(node),
    ensures
        shell.body_nodes(facts).contains(node),
{
}

proof fn lemma_result(shell: ShellModel, facts: SurfaceFacts, upto: int, place: int)
    requires
        shell.results_from(facts) <= place < upto,
    ensures
        shell.results_before(facts, upto).contains(shell.result_nodes(facts, place)[0]),
    decreases upto - place,
{
    if place < upto - 1 {
        lemma_result(shell, facts, upto - 1, place);
    } else {
        let row = shell.result_nodes(facts, place);
        assert(row.contains(row[0]));
    }
}

/// The search says what is searched for, and that nothing was found where nothing
/// was.
pub proof fn law_search_says_what_it_looks_for(
    shell: ShellModel,
    facts: SurfaceFacts,
    footer: Text,
    within: Seq<(usize, usize)>,
)
    requires
        at_ease(shell),
        shell.nav.route == Route::Search,
    ensures
        ({
            let scene = scene_of(shell, facts, footer, within);
            &&& reads(scene, "search-query"@, shell.titles.search_query + "│"@)
            &&& shell.titles.search_results.len() == 0 && shell.titles.items.len() > 0 ==> reads(
                scene,
                "search-empty"@,
                "Nothing matches — check the spelling, or browse the Library."@,
            )
            &&& shell.titles.search_results.len() == 0 && shell.titles.items.len() == 0 ==> reads(
                scene,
                "search-empty"@,
                "Your shelf is empty — nothing to search yet."@,
            )
            &&& shell.titles.search_results.len() == 0 ==> offers(
                scene,
                "search-query"@,
                shell.titles.search_query + "│"@,
                true,
            )
        }),
{
    let nodes = shell.query_nodes();
    assert(nodes.contains(nodes[1]));
    assert(shell.search_nodes(facts).contains(nodes[1]));
    lemma_search(shell, facts, nodes[1]);
    lemma_in_body(shell, facts, footer, within, nodes[1]);
    if shell.titles.search_results.len() == 0 {
        assert(nodes.contains(nodes[3]));
        assert(shell.search_nodes(facts).contains(nodes[3]));
        lemma_search(shell, facts, nodes[3]);
        lemma_in_body(shell, facts, footer, within, nodes[3]);
    }
}

/// The result in focus is shown. It says its title, its kind and how available it
/// is, and can be chosen.
pub proof fn law_the_result_in_focus_is_told(
    shell: ShellModel,
    facts: SurfaceFacts,
    footer: Text,
    within: Seq<(usize, usize)>,
)
    requires
        at_ease(shell),
        shell.nav.route == Route::Search,
        0 <= shell.nav.focus < shell.titles.search_results.len(),
        facts.result_capacity >= 1,
    ensures
        ({
            let item = shell.titles.items[shell.titles.search_results[shell.nav.focus] as int];
            offers(
                scene_of(shell, facts, footer, within),
                "search-result-"@ + item.id,
                item.title + (" · "@ + kind_name(item.kind) + " · "@ + availability_words(
                    availability_of(item),
                    shell.session.presentation == Presentation::Starting,
                )),
                true,
            )
        }),
{
    let focus = shell.nav.focus;
    let count = shell.titles.search_results.len() as int;
    let capacity = facts.result_capacity as int;
    law_window_shows_the_focus(focus, capacity, count);
    let upto = least(shell.results_from(facts) + capacity, count);
    lemma_result(shell, facts, upto, focus);
    let row = shell.result_nodes(facts, focus)[0];
    assert(shell.search_nodes(facts).contains(row));
    lemma_search(shell, facts, row);
    lemma_in_body(shell, facts, footer, within, row);
}

proof fn lemma_details(shell: ShellModel, facts: SurfaceFacts, node: NodeModel)
    requires
        at_ease(shell),
        shell.nav.route == Route::Details,
        shell.detail_nodes(facts).contains(node),
    ensures
        shell.body_nodes(facts).contains(node),
{
}

/// The details say the title, where it comes from and how ready it is, and
/// describe it where its tags do.
pub proof fn law_details_say_what_a_title_is(
    shell: ShellModel,
    facts: SurfaceFacts,
    footer: Text,
    within: Seq<(usize, usize)>,
    place: int,
)
    requires
        at_ease(shell),
        shell.nav.route == Route::Details,
        shell.nav.selected_item == Some(place),
    ensures
        ({
            let scene = scene_of(shell, facts, footer, within);
            let item = shell.titles.items[place];
            let starting = shell.session.presentation == Presentation::Starting;
            &&& reads(scene, "detail-title"@, item.title)
            &&& reads(scene, "detail-provenance"@, source_words(item))
            &&& availability_of(item) is Ready ==> reads(
                scene,
                "detail-availability-reason"@,
                "● Ready"@ + (match item.last_played_fact {
                    Some(fact) => " · "@ + fact,
                    None => Seq::empty(),
                }) + (match item.size_fact {
                    Some(fact) => " · "@ + fact,
                    None => Seq::empty(),
                }),
            )
            &&& !(availability_of(item) is Ready) ==> reads(
                scene,
                "detail-availability-reason"@,
                "⊘ "@ + availability_words(availability_of(item), starting),
            )
            &&& item.description matches Some(words) ==> reads(
                scene,
                "detail-description"@,
                words,
            )
        }),
{
    let item = shell.titles.items[place];
    let nodes = shell.portrait_nodes(place);
    assert(nodes.contains(nodes[0]));
    assert(nodes.contains(nodes[1]));
    assert(shell.detail_nodes(facts).contains(nodes[0]));
    assert(shell.detail_nodes(facts).contains(nodes[1]));
    lemma_details(shell, facts, nodes[0]);
    lemma_details(shell, facts, nodes[1]);
    lemma_in_body(shell, facts, footer, within, nodes[0]);
    lemma_in_body(shell, facts, footer, within, nodes[1]);
    let readiness = crate::scene::plain(
        "detail-availability-reason"@,
        Role::Text,
        readiness_words(item, shell.is_starting()),
        Token::Canvas,
    ).unavailable(!(availability_of(item) is Ready));
    assert(nodes.contains(readiness));
    assert(shell.detail_nodes(facts).contains(readiness));
    lemma_details(shell, facts, readiness);
    lemma_in_body(shell, facts, footer, within, readiness);
    if availability_of(item) is Ready {
        let played = match item.last_played_fact {
            Some(fact) => " · "@ + fact,
            None => Seq::empty(),
        };
        let size = match item.size_fact {
            Some(fact) => " · "@ + fact,
            None => Seq::empty(),
        };
        assert(readiness.label =~= "● Ready"@ + played + size);
    }
    if let Some(words) = item.description {
        let told = crate::scene::plain(
            "detail-description"@,
            Role::Text,
            item.description.unwrap_or(""@),
            Token::Canvas,
        ).multiline(true).inked(Token::TextSecondary);
        assert(nodes.contains(told));
        assert(shell.detail_nodes(facts).contains(told));
        lemma_details(shell, facts, told);
        lemma_in_body(shell, facts, footer, within, told);
    }
}

/// The details offer to play where one variant can be launched and to choose where
/// several can, and say that nothing can be launched otherwise. They offer to make
/// the title a favorite, or no favorite where it is one.
pub proof fn law_details_offer_to_play_and_to_pin(
    shell: ShellModel,
    facts: SurfaceFacts,
    footer: Text,
    within: Seq<(usize, usize)>,
    place: int,
)
    requires
        at_ease(shell),
        shell.nav.route == Route::Details,
        shell.nav.selected_item == Some(place),
    ensures
        ({
            let scene = scene_of(shell, facts, footer, within);
            let item = shell.titles.items[place];
            let count = ready_before(item.variants, item.variants.len() as int);
            let rows = shell.detail_rows().len();
            let pin = if item.favorite {
                "★ Unpin"@
            } else {
                "★ Pin to favorites"@
            };
            &&& count == 1 ==> offers(scene, "detail-open"@, "▶ Play"@, shell.nav.focus == rows)
            &&& count > 1 ==> offers(
                scene,
                "detail-open"@,
                "Choose how to play"@,
                shell.nav.focus == rows,
            )
            &&& count > 0 ==> offers(scene, "detail-pin"@, pin, shell.nav.focus == rows + 1)
            &&& count == 0 ==> reads(
                scene,
                "detail-unavailable"@,
                "No launch action is available"@,
            ) && offers(scene, "detail-pin"@, pin, true)
        }),
{
    let item = shell.titles.items[place];
    lemma_ready_total(item.variants, 0);
    let nodes = shell.deed_nodes(item);
    let pin = shell.pin_button(
        item,
        if ready_places(item.variants, 0).len() > 0 {
            shell.nav.focus == shell.pin_focus()
        } else {
            true
        },
    )[0];
    assert(nodes.contains(nodes[0]));
    assert(nodes.contains(pin));
    assert(shell.detail_nodes(facts).contains(nodes[0]));
    assert(shell.detail_nodes(facts).contains(pin));
    lemma_details(shell, facts, nodes[0]);
    lemma_details(shell, facts, pin);
    lemma_in_body(shell, facts, footer, within, nodes[0]);
    lemma_in_body(shell, facts, footer, within, pin);
}

/// Where a history tells how long a title was played, its details say it as far as
/// there is room.
pub proof fn law_details_say_how_long_a_title_was_played(
    shell: ShellModel,
    facts: SurfaceFacts,
    footer: Text,
    within: Seq<(usize, usize)>,
    place: int,
)
    requires
        at_ease(shell),
        shell.nav.route == Route::Details,
        shell.nav.selected_item == Some(place),
        facts.facts_fit,
        shell.titles.playtime.contains_key(shell.titles.items[place].id),
    ensures
        reads(
            scene_of(shell, facts, footer, within),
            "detail-playtime"@,
            playtime_text(shell.titles.playtime[shell.titles.items[place].id]),
        ),
{
    let item = shell.titles.items[place];
    let told = crate::scene::plain(
        "detail-playtime"@,
        Role::Text,
        shell.played_words(item),
        Token::Canvas,
    );
    assert(shell.shown_facts(facts, item).contains(told));
    assert(shell.detail_nodes(facts).contains(told));
    lemma_details(shell, facts, told);
    lemma_in_body(shell, facts, footer, within, told);
}

/// Where there is room for all facts, the details say who made the title, which
/// version is installed and that it works offline where it does.
pub proof fn law_details_tell_the_facts(
    shell: ShellModel,
    facts: SurfaceFacts,
    footer: Text,
    within: Seq<(usize, usize)>,
    place: int,
    variant: int,
)
    requires
        at_ease(shell),
        shell.nav.route == Route::Details,
        shell.nav.selected_item == Some(place),
        facts.facts_fit,
        !facts.small(),
        first_ready(shell.titles.items[place].variants, 0) == Some(variant),
    ensures
        ({
            let scene = scene_of(shell, facts, footer, within);
            let item = shell.titles.items[place];
            let chosen = item.variants[variant];
            &&& item.developer matches Some(maker) ==> reads(scene, "detail-fact-developer"@, maker)
            &&& item.developer is None ==> reads(
                scene,
                "detail-fact-developer"@,
                humanized(chosen.provenance.provider_id),
            )
            &&& capability_of(chosen.provenance.runtime_family) == ReadyVariantCapability::Native
                ==> {
                &&& reads(scene, "detail-fact-offline"@, "Yes"@)
                &&& chosen.provenance.app_version matches Some(version) ==> reads(
                    scene,
                    "detail-fact-installed"@,
                    "Version "@ + version,
                )
                &&& chosen.provenance.app_version is None ==> reads(
                    scene,
                    "detail-fact-installed"@,
                    "Current version"@,
                )
            }
        }),
{
    let item = shell.titles.items[place];
    let chosen = item.variants[variant];
    let nodes = shell.full_facts(item, chosen);
    assert(shell.shown_facts(facts, item) == nodes);
    let maker = crate::scene::plain(
        "detail-fact-developer"@,
        Role::Text,
        item.developer.unwrap_or(humanized(chosen.provenance.provider_id)),
        Token::Canvas,
    );
    assert(nodes.contains(maker));
    assert(shell.detail_nodes(facts).contains(maker));
    lemma_details(shell, facts, maker);
    lemma_in_body(shell, facts, footer, within, maker);
    if capability_of(chosen.provenance.runtime_family) == ReadyVariantCapability::Native {
        let offline = crate::scene::plain(
            "detail-fact-offline"@,
            Role::Text,
            "Yes"@,
            Token::Canvas,
        );
        let installed = crate::scene::plain(
            "detail-fact-installed"@,
            Role::Text,
            version_words(chosen),
            Token::Canvas,
        );
        assert(nodes.contains(offline));
        assert(nodes.contains(installed));
        assert(shell.detail_nodes(facts).contains(offline));
        assert(shell.detail_nodes(facts).contains(installed));
        lemma_details(shell, facts, offline);
        lemma_details(shell, facts, installed);
        lemma_in_body(shell, facts, footer, within, offline);
        lemma_in_body(shell, facts, footer, within, installed);
    }
}

proof fn lemma_counted(variants: Seq<VariantModel>, from: int, to: int)
    requires
        0 <= from <= to,
    ensures
        ready_count(variants, from, to) == ready_before(variants, to) - ready_before(
            variants,
            from,
        ),
    decreases to - from,
{
    if from < to {
        lemma_counted(variants, from, to - 1);
    }
}

proof fn lemma_variant(shell: ShellModel, variants: Seq<VariantModel>, upto: int, variant: int)
    requires
        window_start(variants) <= variant < upto,
    ensures
        shell.variants_before(variants, upto).contains(shell.variant_nodes(variants, variant)[0]),
    decreases upto - variant,
{
    if variant < upto - 1 {
        lemma_variant(shell, variants, upto - 1, variant);
    } else {
        let row = shell.variant_nodes(variants, variant);
        assert(row.contains(row[0]));
    }
}

/// The row of a shown variant says its name. Where it can be launched, the row can
/// be chosen and has the focus at the place that launches it; the first variant
/// that can be launched is marked, and no other.
pub proof fn law_details_say_the_ways_to_play(
    shell: ShellModel,
    facts: SurfaceFacts,
    footer: Text,
    within: Seq<(usize, usize)>,
    place: int,
    variant: int,
)
    requires
        at_ease(shell),
        shell.nav.route == Route::Details,
        shell.nav.selected_item == Some(place),
        window_start(shell.titles.items[place].variants) <= variant < window_end(
            shell.titles.items[place].variants,
        ),
        window_start(shell.titles.items[place].variants) >= 0,
    ensures
        ({
            let scene = scene_of(shell, facts, footer, within);
            let variants = shell.titles.items[place].variants;
            let shown = variants[variant];
            let id = "detail-variant-"@ + decimal_text(variant as nat);
            let row = ready_before(variants, variant) - ready_before(
                variants,
                window_start(variants),
            );
            &&& shown.availability is Ready ==> offers(
                scene,
                id,
                ready_label(shown) + " · "@ + variant_sub(
                    shown,
                    shell.session.presentation == Presentation::Starting,
                ),
                shell.nav.focus == row,
            )
            &&& !(shown.availability is Ready) ==> reads(scene, id, "⊘ "@ + humanized(shown.id))
            &&& marks(scene, id, first_ready(variants, 0) == Some(variant))
        }),
{
    let variants = shell.titles.items[place].variants;
    let node = shell.variant_nodes(variants, variant)[0];
    lemma_variant(shell, variants, window_end(variants), variant);
    lemma_counted(variants, window_start(variants), variant + 1);
    assert(shell.ways_nodes(variants).contains(node));
    assert(shell.detail_nodes(facts).contains(node));
    lemma_details(shell, facts, node);
    lemma_in_body(shell, facts, footer, within, node);
}

/// What is said of a variant: where it comes from, its version, and that it works
/// offline where it is installed; or else what it needs.
pub proof fn law_variants_are_described(variant: VariantModel, starting: bool)
    ensures
        ({
            let family = variant.provenance.runtime_family;
            let name = humanized(variant.id);
            let from = capability_of(family);
            &&& from == ReadyVariantCapability::Native ==> ready_label(variant) == name
                + " · Installed on this device"@
            &&& from == ReadyVariantCapability::Stream ==> ready_label(variant) == name
                + " · Stream from your PC"@
            &&& from == ReadyVariantCapability::Unknown && family.len() > 0 ==> ready_label(variant)
                == name + " · "@ + humanized(family)
            &&& from == ReadyVariantCapability::Unknown && family.len() == 0 ==> ready_label(
                variant,
            ) == name
            &&& !(variant.availability is Ready) ==> variant_sub(variant, starting)
                == availability_words(variant.availability, starting)
            &&& variant.availability is Ready && family.len() > 0 ==> variant_sub(variant, starting)
                == (match variant.provenance.app_version {
                Some(version) => "Version "@ + version,
                None => "Current version"@,
            }) + (" · "@ + humanized(family)) + (if from == ReadyVariantCapability::Native {
                " · works offline"@
            } else {
                ""@
            })
        }),
{
}

/// What a title is said to come from: its kind, its provider and its manifest, all
/// of the first variant.
pub proof fn law_sources_are_named(item: ItemModel)
    ensures
        item.variants.len() == 0 ==> source_words(item) == kind_word(item.kind)
            + " · Source unavailable"@,
        item.variants.len() > 0 ==> source_words(item) == kind_word(item.kind) + " · "@ + humanized(
            item.variants[0].provenance.provider_id,
        ) + " · "@ + (match item.variants[0].descriptor_stem {
            Some(stem) => humanized(stem),
            None => "Manifest"@,
        }),
{
}

/// The details show two variants where there are two, next to each other, the
/// first that can be launched among them.
pub proof fn law_details_show_two_ways_to_play(variants: Seq<VariantModel>)
    ensures
        0 <= window_start(variants) <= window_end(variants) <= variants.len(),
        variants.len() >= 2 ==> window_end(variants) - window_start(variants) == 2,
        variants.len() == 1 ==> window_end(variants) - window_start(variants) == 1,
        first_ready(variants, 0) matches Some(place) ==> window_start(variants) <= place
            < window_end(variants),
        first_ready(variants, 0) is None ==> window_start(variants) == 0,
{
    crate::titles::lemma_first_ready(variants, 0);
}

proof fn lemma_choice(shell: ShellModel, variants: Seq<VariantModel>, upto: int, choice: int)
    requires
        shell.choices_from(variants) <= choice < upto,
    ensures
        shell.choices_before(variants, upto).contains(
            shell.choice_node(variants[ready_places(variants, 0)[choice]], choice),
        ),
    decreases upto - choice,
{
    if choice < upto - 1 {
        lemma_choice(shell, variants, upto - 1, choice);
    }
}

/// In the choice of variants, the one that activating would launch is shown by its
/// name and has the focus.
pub proof fn law_the_choice_in_focus_is_named(
    shell: ShellModel,
    facts: SurfaceFacts,
    footer: Text,
    within: Seq<(usize, usize)>,
    place: int,
    variant: int,
)
    requires
        at_ease(shell),
        shell.nav.route == Route::VariantChooser,
        shell.nav.selected_item == Some(place),
        0 <= variant < shell.titles.items[place].variants.len(),
        shell.titles.items[place].variants[variant].availability is Ready,
        shell.nav.focus == ready_before(shell.titles.items[place].variants, variant),
    ensures
        ({
            let chosen = shell.titles.items[place].variants[variant];
            offers(
                scene_of(shell, facts, footer, within),
                "chooser-"@ + chosen.id,
                humanized(chosen.id) + " · Ready"@,
                true,
            )
        }),
{
    let variants = shell.titles.items[place].variants;
    let focus = shell.nav.focus;
    let count = ready_places(variants, 0).len() as int;
    lemma_ready_counted(variants, 0, variant);
    law_window_shows_the_focus(focus, 5, count);
    let upto = least(shell.choices_from(variants) + 5, count);
    lemma_choice(shell, variants, upto, focus);
    let node = shell.choice_node(variants[ready_places(variants, 0)[focus]], focus);
    assert(shell.chooser_nodes().contains(node));
    assert(shell.body_nodes(facts).contains(node));
    lemma_in_body(shell, facts, footer, within, node);
}

/// A card says what keeps its title from starting: a network, a setup, an update
/// or that it is unavailable. A title that is ready but needs a network says that,
/// and one that is ready and needs nothing says nothing.
pub proof fn law_cards_say_what_is_missing(
    item: ItemModel,
    showcase: Showcase,
    reasons: bool,
    cells: int,
    badge_cells: int,
    reason_cells: Option<int>,
)
    ensures
        ({
            let nodes = cue_nodes(
                item,
                showcase,
                reasons,
                cells,
                badge_cells,
                reason_cells,
                100,
            );
            let id = showcase.prefix() + "-badge-"@ + item.id;
            match availability_of(item) {
                AvailabilityModel::Ready => if wants_network(item) {
                    reads(nodes, id, "⊘ Network"@)
                } else {
                    nodes.len() == 0
                },
                AvailabilityModel::NeedsNetwork { .. } => reads(nodes, id, "⊘ Network"@),
                AvailabilityModel::NeedsSetup { .. } => reads(nodes, id, "⊘ Setup"@),
                AvailabilityModel::IncompatibleRuntime { .. } => reads(nodes, id, "◉ Update"@),
                AvailabilityModel::UnsupportedCapability { .. } => reads(
                    nodes,
                    id,
                    "⊘ Unavailable"@,
                ),
            }
        }),
        reasons && reason_cells is None && (availability_of(item) is NeedsNetwork
            || availability_of(item) is NeedsSetup || availability_of(
            item,
        ) is UnsupportedCapability) ==> reads(
            cue_nodes(item, showcase, reasons, cells, badge_cells, reason_cells, 100),
            showcase.prefix() + "-reason-"@ + item.id,
            "⊘ "@ + availability_words(availability_of(item), false),
        ),
{
    let nodes = cue_nodes(item, showcase, reasons, cells, badge_cells, reason_cells, 100);
    let availability = availability_of(item);
    if availability is Ready {
        if wants_network(item) {
            assert(nodes.contains(crate::cards::badge_node(item, showcase, "⊘ Network"@)));
        }
    } else {
        assert(nodes.contains(crate::cards::badge_node(item, showcase, badge_words(availability))));
        if reasons && reason_cells is None && !(availability is IncompatibleRuntime) {
            assert(nodes.contains(
                crate::cards::reason_node(
                    item,
                    showcase,
                    "⊘ "@ + availability_words(availability, false),
                ),
            ));
        }
    }
}

/// A title needs a network where the variant that stands for it says so and does
/// not call it optional.
pub proof fn law_ready_titles_say_that_they_need_a_network(item: ItemModel, variant: int, need: int)
    requires
        first_ready(item.variants, 0) == Some(variant),
    ensures
        (forall|i: int|
            0 <= i < item.variants[variant].requirements.len()
                ==> (#[trigger] item.variants[variant].requirements[i]).optional
                || item.variants[variant].requirements[i].capability != "network"@)
            ==> !wants_network(item),
        0 <= need < item.variants[variant].requirements.len()
            && item.variants[variant].requirements[need].capability == "network"@
            && !item.variants[variant].requirements[need].optional ==> wants_network(item),
{
    crate::titles::lemma_first_ready(item.variants, 0);
}

/// A plate shows the first character of its title, or a question mark where there
/// is none, and its kind in capitals: the one that its tags name, or its own.
pub proof fn law_plates_show_initial_and_kind(item: ItemModel, showcase: Showcase)
    ensures
        ({
            let nodes = plate_nodes(item, showcase);
            &&& item.title.len() > 0 ==> reads(
                nodes,
                showcase.prefix() + "-initial-plate-"@ + item.id,
                seq![item.title[0]],
            )
            &&& item.title.len() == 0 ==> reads(
                nodes,
                showcase.prefix() + "-initial-plate-"@ + item.id,
                "?"@,
            )
            &&& tagged(item.tags, "kind-label:"@) matches Some(kind) ==> reads(
                nodes,
                showcase.prefix() + "-plate-kind-"@ + item.id,
                raised_text(kind),
            )
            &&& tagged(item.tags, "kind-label:"@) is None ==> reads(
                nodes,
                showcase.prefix() + "-plate-kind-"@ + item.id,
                raised_text(kind_word(item.kind)),
            )
        }),
{
    let nodes = plate_nodes(item, showcase);
    assert(nodes.contains(nodes[1]));
    assert(nodes.contains(nodes[2]));
    if item.title.len() > 0 {
        assert(initial(item.title) =~= seq![item.title[0]]);
    }
}

/// A card shows the picture of its title where there is one that was not rejected,
/// and a plate otherwise.
pub proof fn law_cards_show_a_picture_or_a_plate(
    item: ItemModel,
    place: usize,
    showcase: Showcase,
    cells: int,
    scale: int,
)
    ensures
        ({
            let nodes = art_nodes(item, place, showcase, cells, scale);
            let id = showcase.prefix() + "-art-"@ + item.id;
            &&& nodes[0].id == id
            &&& item.art is Some && !item.art_failed ==> nodes[0].look.picture == Some(
                Picture::Art(place),
            ) && nodes[0].label == item.title + " cover art"@
            &&& item.art is None || item.art_failed ==> nodes[0].look.picture is Some
                && nodes[0].look.picture->0 is Plate
            &&& showcase == Showcase::Shelf && scale == 100 ==> reads(
                nodes,
                showcase.prefix() + "-title-"@ + item.id,
                item.title,
            )
        }),
{
    let nodes = art_nodes(item, place, showcase, cells, scale);
    if showcase == Showcase::Shelf && scale == 100 {
        assert(nodes.contains(crate::cards::title_node(item, showcase, cells, scale)));
    }
}

/// A favorite has a star on its card, at home and in the library.
pub proof fn law_favorites_have_a_star(shell: ShellModel, facts: SurfaceFacts, place: int)
    ensures
        ({
            let item = shell.titles.items[shelf(shell.titles.items)[place] as int];
            item.favorite ==> reads(
                shell.shelf_card(facts, place),
                "favorite-pin-"@ + item.id,
                "★"@,
            )
        }),
        ({
            let item = shell.titles.items[shell.titles.library_items[place] as int];
            item.favorite ==> reads(
                shell.card_nodes(facts, place),
                "favorite-pin-"@ + item.id,
                "★"@,
            )
        }),
{
    let shelved = shell.titles.items[shelf(shell.titles.items)[place] as int];
    if shelved.favorite {
        assert(shell.shelf_card(facts, place).contains(pin_node(shelved)));
    }
    let listed = shell.titles.items[shell.titles.library_items[place] as int];
    if listed.favorite {
        assert(shell.card_nodes(facts, place).contains(pin_node(listed)));
    }
}

/// Where a title has more variants than its details show, they say how many more.
pub proof fn law_details_count_what_they_do_not_show(
    shell: ShellModel,
    facts: SurfaceFacts,
    footer: Text,
    within: Seq<(usize, usize)>,
    place: int,
)
    requires
        at_ease(shell),
        shell.nav.route == Route::Details,
        shell.nav.selected_item == Some(place),
        shell.titles.items[place].variants.len() > 2,
    ensures
        reads(
            scene_of(shell, facts, footer, within),
            "detail-variant-fold"@,
            "+"@ + decimal_text((shell.titles.items[place].variants.len() - 2) as nat)
                + " more ways to play"@,
        ),
{
    let variants = shell.titles.items[place].variants;
    law_details_show_two_ways_to_play(variants);
    let fold = crate::scene::plain(
        "detail-variant-fold"@,
        Role::Text,
        "+"@ + decimal_text((variants.len() - 2) as nat) + " more ways to play"@,
        Token::TextMuted,
    );
    assert(shell.ways_nodes(variants).contains(fold));
    assert(shell.detail_nodes(facts).contains(fold));
    lemma_details(shell, facts, fold);
    lemma_in_body(shell, facts, footer, within, fold);
}

/// The words that stand on the search, the details and the choice of variants
/// whatever else is so.
pub proof fn law_standing_words_of_the_titles(
    shell: ShellModel,
    facts: SurfaceFacts,
    footer: Text,
    within: Seq<(usize, usize)>,
)
    requires
        at_ease(shell),
    ensures
        ({
            let scene = scene_of(shell, facts, footer, within);
            &&& shell.nav.route == Route::Search ==> {
                &&& reads(scene, "route-heading"@, "SEARCH"@)
                &&& reads(
                    scene,
                    "search-hint"@,
                    "SEARCH · Titles and tags · Back returns to where you were"@,
                )
            }
            &&& shell.nav.route == Route::VariantChooser ==> reads(
                scene,
                "route-heading"@,
                "HOW DO YOU WANT TO PLAY?"@,
            )
            &&& shell.nav.route == Route::VariantChooser && shell.nav.selected_item is Some
                ==> reads(
                scene,
                "chooser-note"@,
                "Ready right now. Back leaves without opening anything."@,
            )
            &&& shell.nav.route == Route::Details && shell.nav.selected_item is Some ==> reads(
                scene,
                "detail-ways-heading"@,
                "WAYS TO PLAY"@,
            )
        }),
{
    let body = shell.body_nodes(facts);
    if shell.nav.route == Route::Search {
        let nodes = shell.query_nodes();
        assert(nodes.contains(nodes[0]));
        assert(nodes.contains(nodes[2]));
        assert(body.contains(nodes[0]));
        assert(body.contains(nodes[2]));
        lemma_in_body(shell, facts, footer, within, nodes[0]);
        lemma_in_body(shell, facts, footer, within, nodes[2]);
    }
    if shell.nav.route == Route::VariantChooser {
        let nodes = shell.chooser_nodes();
        assert(nodes.contains(nodes[0]));
        lemma_in_body(shell, facts, footer, within, nodes[0]);
        if shell.nav.selected_item is Some {
            assert(nodes.contains(nodes[1]));
            lemma_in_body(shell, facts, footer, within, nodes[1]);
        }
    }
    if shell.nav.route == Route::Details && shell.nav.selected_item is Some {
        let nodes = shell.portrait_nodes(shell.nav.selected_item->0);
        let heading = nodes[nodes.len() - 1];
        assert(nodes.contains(heading));
        assert(shell.detail_nodes(facts).contains(heading));
        lemma_details(shell, facts, heading);
        lemma_in_body(shell, facts, footer, within, heading);
    }
}

/// Where there is room for all facts, each stands under its heading.
pub proof fn law_facts_stand_under_their_headings(
    shell: ShellModel,
    item: ItemModel,
    variant: VariantModel,
)
    ensures
        ({
            let nodes = shell.full_facts(item, variant);
            &&& reads(nodes, "detail-fact-"@ + "developer"@ + "-heading"@, "DEVELOPER"@)
            &&& shell.titles.playtime.contains_key(item.id) ==> reads(
                nodes,
                "detail-fact-"@ + "time-played"@ + "-heading"@,
                "TIME PLAYED"@,
            )
            &&& capability_of(variant.provenance.runtime_family) == ReadyVariantCapability::Native
                ==> reads(nodes, "detail-fact-"@ + "installed"@ + "-heading"@, "INSTALLED"@)
                && reads(nodes, "detail-fact-"@ + "offline"@ + "-heading"@, "WORKS OFFLINE"@)
        }),
{
    let nodes = shell.full_facts(item, variant);
    let maker = ShellModel::fact_nodes(
        "developer"@,
        "DEVELOPER"@,
        "detail-fact-developer"@,
        item.developer.unwrap_or(humanized(variant.provenance.provider_id)),
    );
    assert(maker.contains(maker[0]));
    assert(nodes.contains(maker[0]));
    if shell.titles.playtime.contains_key(item.id) {
        let played = ShellModel::fact_nodes(
            "time-played"@,
            "TIME PLAYED"@,
            "detail-playtime"@,
            shell.played_words(item),
        );
        assert(played.contains(played[0]));
        assert(nodes.contains(played[0]));
    }
    if capability_of(variant.provenance.runtime_family) == ReadyVariantCapability::Native {
        let installed = ShellModel::fact_nodes(
            "installed"@,
            "INSTALLED"@,
            "detail-fact-installed"@,
            version_words(variant),
        );
        let offline = ShellModel::fact_nodes(
            "offline"@,
            "WORKS OFFLINE"@,
            "detail-fact-offline"@,
            "Yes"@,
        );
        assert(installed.contains(installed[0]));
        assert(offline.contains(offline[0]));
        assert(nodes.contains(installed[0]));
        assert(nodes.contains(offline[0]));
    }
}

} // verus!
