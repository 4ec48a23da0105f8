//! What stands around every screen: the status, the rooms, what the shell was told
//! to say and the prompts.

use crate::chrome::{
    bound_button, clock_text, footer_nodes, prompt_nodes, prompts_nodes,
};
use crate::cutting::{cut_once, part_place, pieces, without_lead};
use crate::reading::{lemma_in_scene, reads, scene_of};
use crate::scene::{NodeModel, Role, Token};
use crate::state::{BindingModel, Route, ShellModel};
use crate::surface::SurfaceFacts;
use crate::text::{decimal_text, joined, stands_at, Text};
use crate::titles::ready_places;
use vstd::prelude::*;
use vstd::string::*;

verus! {

broadcast use crate::reading::group_contained;

/// Words that are joined stand one behind the other with the separator between
/// them.
pub proof fn law_joined_words_stand_in_a_row(words: Seq<Text>, last: Text, separator: Text)
    ensures
        joined(Seq::empty(), separator) == Seq::<char>::empty(),
        joined(seq![last], separator) == last,
        words.len() > 0 ==> joined(words.push(last), separator) == joined(words, separator)
            + separator + last,
{
    assert(words.push(last).drop_last() =~= words);
}

proof fn lemma_two(first: Text, second: Text, separator: Text)
    ensures
        joined(seq![first, second], separator) == first + separator + second,
{
    assert(seq![first, second] =~= seq![first].push(second));
    law_joined_words_stand_in_a_row(seq![first], second, separator);
}

proof fn lemma_three(first: Text, second: Text, third: Text, separator: Text)
    ensures
        joined(seq![first, second, third], separator) == first + separator + second + separator
            + third,
{
    assert(seq![first, second, third] =~= seq![first, second].push(third));
    law_joined_words_stand_in_a_row(seq![first, second], third, separator);
    lemma_two(first, second, separator);
}

proof fn lemma_four(first: Text, second: Text, third: Text, fourth: Text, separator: Text)
    ensures
        joined(seq![first, second, third, fourth], separator) == first + separator + second
            + separator + third + separator + fourth,
{
    assert(seq![first, second, third, fourth] =~= seq![first, second, third].push(fourth));
    law_joined_words_stand_in_a_row(seq![first, second, third], fourth, separator);
    lemma_three(first, second, third, separator);
}

/// The status says how full the battery is, whether the session service is out of
/// reach, and what time it is, as far as these are known and there is room. A glyph
/// tells that the device is on a network.
pub proof fn law_status_says_what_is_known(
    shell: ShellModel,
    facts: SurfaceFacts,
    footer: Text,
    within: Seq<(usize, usize)>,
    percent: u8,
)
    requires
        facts.status_fits,
    ensures
        ({
            let scene = scene_of(shell, facts, footer, within);
            let charge = decimal_text(percent as nat);
            let away = shell.session.authority_unavailable || shell.session.safe_return_failed;
            &&& shell.power.battery_percent == Some(percent) ==> {
                match shell.system.time_state {
                    Ok(state) => if away {
                        reads(
                            scene,
                            "status-cluster"@,
                            charge + "     "@ + "!"@ + "     "@ + clock_text(state.wall_clock),
                        )
                    } else {
                        reads(
                            scene,
                            "status-cluster"@,
                            charge + "     "@ + clock_text(state.wall_clock),
                        )
                    },
                    Err(_) => if away {
                        reads(scene, "status-cluster"@, charge + "     "@ + "!"@)
                    } else {
                        reads(scene, "status-cluster"@, charge)
                    },
                }
            }
            &&& shell.power.battery_percent is None ==> {
                match shell.system.time_state {
                    Ok(state) => if away {
                        reads(
                            scene,
                            "status-cluster"@,
                            "!"@ + "     "@ + clock_text(state.wall_clock),
                        )
                    } else {
                        reads(scene, "status-cluster"@, clock_text(state.wall_clock))
                    },
                    Err(_) => away ==> reads(scene, "status-cluster"@, "!"@),
                }
            }
            &&& (shell.network.network_state matches Ok(state) && state.connected_ssid is Some)
                ==> reads(scene, "wifi-glyph"@, "Wi-Fi connected"@)
            &&& shell.power.battery_percent is Some ==> reads(
                scene,
                "battery-outline"@,
                "Battery"@,
            )
        }),
{
    let nodes = shell.status_nodes();
    let parts = shell.status_parts();
    let draft = shell.draft(facts, footer);
    let charge = decimal_text(percent as nat);
    let time = match shell.system.time_state {
        Ok(state) => clock_text(state.wall_clock),
        Err(_) => Seq::empty(),
    };
    lemma_two(charge, "!"@, "     "@);
    lemma_two(charge, time, "     "@);
    lemma_two("!"@, time, "     "@);
    lemma_three(charge, "!"@, time, "     "@);
    if parts.len() > 0 {
        let status = nodes[nodes.len() - 1];
        assert(nodes.contains(status));
        assert(draft.contains(status));
        lemma_in_scene(shell, facts, footer, within, status);
        if shell.power.battery_percent == Some(percent) {
            if shell.out_of_reach() {
                if shell.system.time_state is Ok {
                    assert(parts =~= seq![charge, "!"@, time]);
                } else {
                    assert(parts =~= seq![charge, "!"@]);
                }
            } else {
                if shell.system.time_state is Ok {
                    assert(parts =~= seq![charge, time]);
                } else {
                    assert(parts =~= seq![charge]);
                }
            }
        }
        if shell.power.battery_percent is None {
            if shell.out_of_reach() {
                if shell.system.time_state is Ok {
                    assert(parts =~= seq!["!"@, time]);
                } else {
                    assert(parts =~= seq!["!"@]);
                }
            } else {
                assert(parts =~= seq![time]);
            }
        }
    }
    if shell.on_network() {
        assert(nodes.contains(nodes[1]));
        assert(draft.contains(nodes[1]));
        lemma_in_scene(shell, facts, footer, within, nodes[1]);
    }
    if shell.power.battery_percent is Some {
        let outline = crate::scene::plain(
            "battery-outline"@,
            Role::Group,
            "Battery"@,
            Token::BorderStrong,
        ).at(1);
        assert(nodes.contains(outline));
        assert(draft.contains(outline));
        lemma_in_scene(shell, facts, footer, within, outline);
    }
}

/// The rooms are named on every screen, and a line stands under the one that the
/// route belongs to.
pub proof fn law_the_room_of_the_route_is_underlined(
    shell: ShellModel,
    facts: SurfaceFacts,
    footer: Text,
    within: Seq<(usize, usize)>,
)
    ensures
        ({
            let scene = scene_of(shell, facts, footer, within);
            let route = shell.nav.route;
            &&& reads(scene, "room-home"@, "Home"@)
            &&& reads(scene, "room-library"@, "Library"@)
            &&& reads(scene, "room-settings"@, "Settings"@)
            &&& reads(scene, "room-keycap-left"@, "L"@)
            &&& reads(scene, "room-keycap-right"@, "R"@)
            &&& route == Route::Home ==> reads(scene, "room-home"@ + "-underline"@, ""@)
            &&& route == Route::Library || route == Route::Search || route == Route::Details
                || route == Route::VariantChooser ==> reads(
                scene,
                "room-library"@ + "-underline"@,
                ""@,
            )
            &&& route == Route::Settings ==> reads(scene, "room-settings"@ + "-underline"@, ""@)
        }),
{
    let route = shell.nav.route;
    let nodes = ShellModel::rooms_nodes(route);
    let draft = shell.draft(facts, footer);
    let home = ShellModel::room_nodes("room-home"@, "Home"@, route == Route::Home);
    let in_library = route == Route::Library || route == Route::Search || route == Route::Details
        || route == Route::VariantChooser;
    let library = ShellModel::room_nodes("room-library"@, "Library"@, in_library);
    let settings = ShellModel::room_nodes(
        "room-settings"@,
        "Settings"@,
        route == Route::Settings,
    );
    let left = ShellModel::keycap_nodes("room-keycap-left"@, "L"@);
    let right = ShellModel::keycap_nodes("room-keycap-right"@, "R"@);
    assert(home.contains(home[0]) && library.contains(library[0]) && settings.contains(settings[0]));
    assert(left.contains(left[2]) && right.contains(right[2]));
    assert(nodes.contains(home[0]) && nodes.contains(library[0]) && nodes.contains(settings[0]));
    assert(nodes.contains(left[2]) && nodes.contains(right[2]));
    lemma_in_scene(shell, facts, footer, within, home[0]);
    lemma_in_scene(shell, facts, footer, within, library[0]);
    lemma_in_scene(shell, facts, footer, within, settings[0]);
    lemma_in_scene(shell, facts, footer, within, left[2]);
    lemma_in_scene(shell, facts, footer, within, right[2]);
    if route == Route::Home {
        assert(home.contains(home[1]));
        assert(nodes.contains(home[1]));
        lemma_in_scene(shell, facts, footer, within, home[1]);
    }
    if in_library {
        assert(library.contains(library[1]));
        assert(nodes.contains(library[1]));
        lemma_in_scene(shell, facts, footer, within, library[1]);
    }
    if route == Route::Settings {
        assert(settings.contains(settings[1]));
        assert(nodes.contains(settings[1]));
        lemma_in_scene(shell, facts, footer, within, settings[1]);
    }
}

/// What the shell was told to say stands on every screen.
pub proof fn law_what_is_to_be_said_is_said(
    shell: ShellModel,
    facts: SurfaceFacts,
    footer: Text,
    within: Seq<(usize, usize)>,
)
    ensures
        ({
            let scene = scene_of(shell, facts, footer, within);
            &&& shell.session.safe_return_failed ==> reads(
                scene,
                "session-status"@,
                "The session service isn't reachable; Safe Return can retry"@,
            )
            &&& !shell.session.safe_return_failed ==> (shell.session.session_status matches Some(
                words,
            ) ==> reads(scene, "session-status"@, words))
        }),
{
    if let Some(words) = shell.spoken_status() {
        let nodes = shell.session_nodes();
        assert(nodes.contains(nodes[0]));
        assert(shell.draft(facts, footer).contains(nodes[0]));
        lemma_in_scene(shell, facts, footer, within, nodes[0]);
    }
}

/// Whether a button is the first one that an action is bound to.
pub open spec fn bound_to(shell: ShellModel, action: Text, button: Text) -> bool {
    exists|place: int|
        {
            &&& 0 <= place < shell.settings.control_bindings.len()
            &&& (#[trigger] shell.settings.control_bindings[place]).action == action
            &&& shell.settings.control_bindings[place].binding == button
            &&& forall|i: int|
                0 <= i < place ==> (#[trigger] shell.settings.control_bindings[i]).action != action
        }
}

proof fn lemma_button(bindings: Seq<BindingModel>, action: Text, from: int, place: int)
    requires
        0 <= from <= place < bindings.len(),
        bindings[place].action == action,
        forall|i: int| 0 <= i < place ==> (#[trigger] bindings[i]).action != action,
    ensures
        bound_button(bindings, action, from) == Some(bindings[place].binding),
    decreases place - from,
{
    if from < place {
        lemma_button(bindings, action, from + 1, place);
    }
}

proof fn lemma_bound(shell: ShellModel, action: Text, button: Text)
    requires
        bound_to(shell, action, button),
    ensures
        bound_button(shell.settings.control_bindings, action, 0) == Some(button),
{
    let bindings = shell.settings.control_bindings;
    let place = choose|place: int|
        {
            &&& 0 <= place < shell.settings.control_bindings.len()
            &&& (#[trigger] shell.settings.control_bindings[place]).action == action
            &&& shell.settings.control_bindings[place].binding == button
            &&& forall|i: int|
                0 <= i < place ==> (#[trigger] shell.settings.control_bindings[i]).action != action
        };
    lemma_button(bindings, action, 0, place);
}

proof fn lemma_prompts_shown(
    shell: ShellModel,
    facts: SurfaceFacts,
    supplied: Text,
    within: Seq<(usize, usize)>,
)
    requires
        shell.nav.route != Route::Search,
        shell.nav.route != Route::Details,
    ensures
        reads(scene_of(shell, facts, supplied, within), "prompts"@, shell.footer(supplied)),
{
    let bar = shell.prompt_bar(supplied);
    assert(bar.contains(bar[1]));
    assert(shell.draft(facts, supplied).contains(bar[1]));
    lemma_in_scene(shell, facts, supplied, within, bar[1]);
}

/// At home the prompts say which buttons search, open the quick panel and open the
/// title in focus, and what else was supplied behind its first gap.
pub proof fn law_home_prompts_name_the_buttons(
    shell: ShellModel,
    facts: SurfaceFacts,
    supplied: Text,
    within: Seq<(usize, usize)>,
    search: Text,
    quick: Text,
    open: Text,
    item: int,
)
    requires
        shell.nav.route == Route::Home,
        shell.focused_item() == Some(item),
        bound_to(shell, "Search.open"@, search),
        bound_to(shell, "Quick"@, quick),
        bound_to(shell, "Activate"@, open),
    ensures
        ({
            let scene = scene_of(shell, facts, supplied, within);
            let verb = if ready_places(shell.titles.items[item].variants, 0).len() == 0 {
                "Details"@
            } else {
                "Open"@
            };
            let own = (search + " "@ + "Search"@) + " · "@ + (quick + " "@ + "Quick"@) + " · "@ + (
            open + " "@ + verb);
            &&& supplied.len() == 0 ==> reads(scene, "prompts"@, own)
            &&& supplied.len() > 0 && cut_once(supplied, "     "@) is None ==> reads(
                scene,
                "prompts"@,
                own + " · "@ + supplied,
            )
            &&& cut_once(supplied, "     "@) matches Some(cut) ==> cut.after.len() > 0 ==> reads(
                scene,
                "prompts"@,
                own + " · "@ + cut.after,
            )
        }),
{
    lemma_bound(shell, "Search.open"@, search);
    lemma_bound(shell, "Quick"@, quick);
    lemma_bound(shell, "Activate"@, open);
    lemma_prompts_shown(shell, facts, supplied, within);
    let verb = if ready_places(shell.titles.items[item].variants, 0).len() == 0 {
        "Details"@
    } else {
        "Open"@
    };
    let first = search + " "@ + "Search"@;
    let second = quick + " "@ + "Quick"@;
    let third = open + " "@ + verb;
    let rest = match cut_once(supplied, "     "@) {
        Some(cut) => cut.after,
        None => supplied,
    };
    lemma_three(first, second, third, " · "@);
    lemma_four(first, second, third, rest, " · "@);
    let words = Seq::<Text>::empty() + shell.prompts_for(true, "Search.open"@, "Search"@)
        + shell.prompts_for(true, "Quick"@, "Quick"@) + shell.prompts_for(true, "Activate"@, verb)
        + crate::chrome::maybe_text(rest.len() > 0, rest);
    if rest.len() > 0 {
        assert(words =~= seq![first, second, third, rest]);
    } else {
        assert(words =~= seq![first, second, third]);
    }
    assert(shell.footer(supplied) == joined(words, " · "@));
    if supplied.len() == 0 {
        reveal_strlit("     ");
        assert(part_place(supplied, "     "@, 0) is None);
    }
}

/// In the library the prompts say which buttons search and change the filter, and
/// on a card which one opens the details.
pub proof fn law_library_prompts_name_the_buttons(
    shell: ShellModel,
    facts: SurfaceFacts,
    supplied: Text,
    within: Seq<(usize, usize)>,
    search: Text,
    filter: Text,
    open: Text,
)
    requires
        shell.nav.route == Route::Library,
        bound_to(shell, "Search.open"@, search),
        bound_to(shell, "Filter.next"@, filter),
        bound_to(shell, "Activate"@, open),
    ensures
        ({
            let scene = scene_of(shell, facts, supplied, within);
            let own = (search + " "@ + "Search"@) + "     "@ + (filter + " "@ + "Filter"@);
            &&& shell.nav.focus < 5 ==> reads(scene, "prompts"@, own)
            &&& shell.nav.focus >= 5 ==> reads(
                scene,
                "prompts"@,
                own + "     "@ + (open + " "@ + "Details"@),
            )
        }),
{
    lemma_bound(shell, "Search.open"@, search);
    lemma_bound(shell, "Filter.next"@, filter);
    lemma_bound(shell, "Activate"@, open);
    lemma_prompts_shown(shell, facts, supplied, within);
    let first = search + " "@ + "Search"@;
    let second = filter + " "@ + "Filter"@;
    let third = open + " "@ + "Details"@;
    lemma_two(first, second, "     "@);
    lemma_three(first, second, third, "     "@);
    let words = Seq::<Text>::empty() + shell.prompts_for(true, "Search.open"@, "Search"@)
        + shell.prompts_for(true, "Filter.next"@, "Filter"@) + shell.prompts_for(
        shell.nav.focus >= 5,
        "Activate"@,
        "Details"@,
    );
    if shell.nav.focus >= 5 {
        assert(words =~= seq![first, second, third]);
    } else {
        assert(words =~= seq![first, second]);
    }
}

/// In the settings the prompts say which button goes back, and on a row that does
/// something which one changes it.
pub proof fn law_settings_prompts_name_the_buttons(
    shell: ShellModel,
    facts: SurfaceFacts,
    supplied: Text,
    within: Seq<(usize, usize)>,
    back: Text,
    change: Text,
)
    requires
        shell.nav.route == Route::Settings,
        bound_to(shell, "Back"@, back),
        bound_to(shell, "Activate"@, change),
        0 <= shell.nav.focus < shell.row_count(),
    ensures
        ({
            let scene = scene_of(shell, facts, supplied, within);
            let changes = shell.settings.settings_in_rows && shell.settings.settings_row_focused
                && shell.row_action(shell.nav.focus) is Some;
            &&& !changes ==> reads(scene, "prompts"@, back + " "@ + "Back"@)
            &&& changes ==> reads(
                scene,
                "prompts"@,
                (back + " "@ + "Back"@) + " · "@ + (change + " "@ + "Change"@),
            )
        }),
{
    lemma_bound(shell, "Back"@, back);
    lemma_bound(shell, "Activate"@, change);
    lemma_prompts_shown(shell, facts, supplied, within);
    let changes = shell.settings.settings_in_rows && shell.settings.settings_row_focused
        && shell.row_action(shell.nav.focus) is Some;
    let first = back + " "@ + "Back"@;
    let second = change + " "@ + "Change"@;
    lemma_two(first, second, " · "@);
    let words = Seq::<Text>::empty() + shell.prompts_for(true, "Back"@, "Back"@)
        + shell.prompts_for(changes, "Activate"@, "Change"@);
    if changes {
        assert(words =~= seq![first, second]);
    } else {
        assert(words =~= seq![first]);
    }
}

/// In the details the prompts say which button goes back, which makes the title a
/// favorite or no favorite, and what activating does: play, pin or unpin.
pub proof fn law_detail_prompts_name_the_buttons(
    shell: ShellModel,
    supplied: Text,
    back: Text,
    favorite: Text,
    act: Text,
    place: int,
)
    requires
        shell.nav.route == Route::Details,
        shell.nav.selected_item == Some(place),
        bound_to(shell, "Back"@, back),
        bound_to(shell, "Quick"@, favorite),
        bound_to(shell, "Activate"@, act),
    ensures
        ({
            let item = shell.titles.items[place];
            let plays = ready_places(item.variants, 0).len() > 0;
            let like = if item.favorite {
                "Unfavorite"@
            } else {
                "Favorite"@
            };
            let own = (back + " "@ + "Back"@) + " · "@ + (favorite + " "@ + like);
            &&& shell.nav.focus == shell.focus_count() - 1 ==> shell.footer(supplied) == own
                + " · "@ + (act + " "@ + (if item.favorite {
                "Unpin"@
            } else {
                "Pin"@
            }))
            &&& shell.nav.focus != shell.focus_count() - 1 && plays ==> shell.footer(supplied)
                == own + " · "@ + (act + " "@ + "Play"@)
            &&& shell.nav.focus != shell.focus_count() - 1 && !plays ==> shell.footer(supplied)
                == own
        }),
{
    lemma_bound(shell, "Back"@, back);
    lemma_bound(shell, "Quick"@, favorite);
    lemma_bound(shell, "Activate"@, act);
    let item = shell.titles.items[place];
    let like = if item.favorite {
        "Unfavorite"@
    } else {
        "Favorite"@
    };
    let first = back + " "@ + "Back"@;
    let second = favorite + " "@ + like;
    let third = act + " "@ + shell.detail_verb().unwrap_or(""@);
    lemma_two(first, second, " · "@);
    lemma_three(first, second, third, " · "@);
    let words = Seq::<Text>::empty() + shell.prompts_for(true, "Back"@, "Back"@)
        + shell.prompts_for(true, "Quick"@, like) + shell.prompts_for(
        shell.detail_verb() is Some,
        "Activate"@,
        shell.detail_verb().unwrap_or(""@),
    );
    if shell.detail_verb() is Some {
        assert(words =~= seq![first, second, third]);
    } else {
        assert(words =~= seq![first, second]);
    }
}

/// Elsewhere the prompts are those that were supplied.
pub proof fn law_other_prompts_are_supplied(
    shell: ShellModel,
    facts: SurfaceFacts,
    supplied: Text,
    within: Seq<(usize, usize)>,
)
    requires
        shell.nav.route == Route::Quick || shell.nav.route == Route::VariantChooser,
    ensures
        reads(scene_of(shell, facts, supplied, within), "prompts"@, supplied),
{
    lemma_prompts_shown(shell, facts, supplied, within);
}

/// Whether a text is a prompt: a button without a gap, a gap, and a verb that does
/// not begin with one, with no dot in them.
pub open spec fn is_plain_prompt(prompt: Text, button: Text, verb: Text) -> bool {
    &&& prompt == button + seq![' '] + verb
    &&& forall|i: int| 0 <= i < button.len() ==> #[trigger] button[i] != ' '
    &&& verb.len() > 0
    &&& !crate::text::is_space(verb[0])
    &&& forall|i: int| 0 <= i < prompt.len() ==> #[trigger] prompt[i] != '·'
}

proof fn lemma_first_part(text: Text, part: Text, from: int, place: int)
    requires
        0 <= from <= place,
        stands_at(text, part, place),
        forall|k: int| from <= k < place ==> !stands_at(text, part, k),
        part.len() > 0,
    ensures
        part_place(text, part, from) == Some(place),
    decreases place - from,
{
    if from < place {
        assert(!stands_at(text, part, from));
        lemma_first_part(text, part, from + 1, place);
    }
}

proof fn lemma_first_piece(prompt: Text, rest: Text)
    requires
        forall|i: int| 0 <= i < prompt.len() ==> #[trigger] prompt[i] != '·',
    ensures
        pieces(prompt + " · "@ + rest, " · "@) == seq![prompt] + pieces(rest, " · "@),
{
    reveal_strlit(" · ");
    let text = prompt + " · "@ + rest;
    let place = prompt.len() as int;
    assert(text.subrange(place, place + 3) =~= " · "@);
    assert forall|k: int| 0 <= k < place implies !stands_at(text, " · "@, k) by {
        if stands_at(text, " · "@, k) {
            let found = text.subrange(k, k + 3);
            assert(found[1] == '·');
            assert(found[1] == text[k + 1]);
            if k + 1 < place {
                assert(text[k + 1] == prompt[k + 1]);
            } else {
                assert(text[k + 1] == " · "@[0]);
            }
        }
    }
    lemma_first_part(text, " · "@, 0, place);
    assert(text.take(place) =~= prompt);
    assert(text.skip(place + 3) =~= rest);
}

proof fn lemma_only_piece(prompt: Text)
    requires
        forall|i: int| 0 <= i < prompt.len() ==> #[trigger] prompt[i] != '·',
    ensures
        pieces(prompt, " · "@) == seq![prompt],
{
    reveal_strlit(" · ");
    lemma_no_part(prompt, 0);
}

proof fn lemma_no_part(prompt: Text, from: int)
    requires
        0 <= from,
        forall|i: int| 0 <= i < prompt.len() ==> #[trigger] prompt[i] != '·',
    ensures
        part_place(prompt, " · "@, from) is None,
    decreases prompt.len() - from,
{
    reveal_strlit(" · ");
    if from + 3 <= prompt.len() {
        if stands_at(prompt, " · "@, from) {
            let found = prompt.subrange(from, from + 3);
            assert(found[1] == '·');
            assert(found[1] == prompt[from + 1]);
        }
        lemma_no_part(prompt, from + 1);
    }
}

proof fn lemma_joined_from_the_front(words: Seq<Text>, separator: Text)
    requires
        words.len() >= 2,
    ensures
        joined(words, separator) == words[0] + separator + joined(words.skip(1), separator),
    decreases words.len(),
{
    let shorter = words.drop_last();
    let rest = words.skip(1);
    assert(rest.drop_last() =~= shorter.skip(1));
    if words.len() == 2 {
        assert(joined(rest, separator) == words[1]);
        assert(joined(shorter, separator) == words[0]);
    } else {
        lemma_joined_from_the_front(shorter, separator);
        assert(joined(words, separator) =~= words[0] + separator + (joined(
            shorter.skip(1),
            separator,
        ) + separator + words.last()));
    }
}

proof fn lemma_pieces_are_the_prompts(prompts: Seq<Text>)
    requires
        prompts.len() > 0,
        forall|k: int, i: int|
            0 <= k < prompts.len() && 0 <= i < prompts[k].len() ==> #[trigger] prompts[k][i]
                != '·',
    ensures
        pieces(joined(prompts, " · "@), " · "@) == prompts,
    decreases prompts.len(),
{
    if prompts.len() == 1 {
        lemma_only_piece(prompts[0]);
        assert(seq![prompts[0]] =~= prompts);
    } else {
        let rest = prompts.skip(1);
        assert forall|k: int, i: int| 0 <= k < rest.len() && 0 <= i < rest[k].len() implies
            #[trigger] rest[k][i] != '·' by {
            assert(rest[k] == prompts[k + 1]);
            assert(prompts[k + 1][i] != '·');
        }
        lemma_pieces_are_the_prompts(rest);
        lemma_joined_from_the_front(prompts, " · "@);
        lemma_first_piece(prompts[0], joined(rest, " · "@));
        assert(seq![prompts[0]] + rest =~= prompts);
    }
}

proof fn lemma_prompt_shown(prompts: Seq<Text>, upto: int, place: int, node: NodeModel)
    requires
        0 <= place < upto,
        prompt_nodes(prompts[place], place).contains(node),
    ensures
        prompts_nodes(prompts, upto).contains(node),
    decreases upto,
{
    if place < upto - 1 {
        lemma_prompt_shown(prompts, upto - 1, place, node);
    }
}

/// Prompts that stand behind each other with dots between them are shown one by
/// one, in their order: each as the button on a keycap and the verb beside it.
pub proof fn law_prompts_are_shown_one_by_one(
    prompts: Seq<Text>,
    place: int,
    button: Text,
    verb: Text,
)
    requires
        0 <= place < prompts.len(),
        is_plain_prompt(prompts[place], button, verb),
        forall|k: int, i: int|
            0 <= k < prompts.len() && 0 <= i < prompts[k].len() ==> #[trigger] prompts[k][i]
                != '·',
    ensures
        ({
            let nodes = footer_nodes(joined(prompts, " · "@));
            let number = decimal_text(place as nat);
            &&& reads(nodes, "home-prompt-keycap-"@ + number, button)
            &&& reads(nodes, "home-prompt-verb-"@ + number, verb)
        }),
{
    lemma_pieces_are_the_prompts(prompts);
    lemma_prompt(prompts[place], button, verb, place);
    let nodes = prompt_nodes(prompts[place], place);
    assert(nodes.contains(nodes[1]));
    assert(nodes.contains(nodes[2]));
    lemma_prompt_shown(prompts, prompts.len() as int, place, nodes[1]);
    lemma_prompt_shown(prompts, prompts.len() as int, place, nodes[2]);
}

proof fn lemma_prompt(prompt: Text, button: Text, verb: Text, index: int)
    requires
        is_plain_prompt(prompt, button, verb),
    ensures
        ({
            let nodes = prompt_nodes(prompt, index);
            &&& nodes.len() == 3
            &&& nodes[1].id == "home-prompt-keycap-"@ + decimal_text(index as nat)
            &&& nodes[1].label == button
            &&& nodes[2].id == "home-prompt-verb-"@ + decimal_text(index as nat)
            &&& nodes[2].label == verb
        }),
{
    reveal_strlit(" ");
    let place = button.len() as int;
    assert(" "@ =~= seq![' ']);
    assert(prompt.subrange(place, place + 1) =~= " "@);
    assert forall|k: int| 0 <= k < place implies !stands_at(prompt, " "@, k) by {
        if stands_at(prompt, " "@, k) {
            assert(prompt.subrange(k, k + 1)[0] == ' ');
            assert(prompt[k] == button[k]);
        }
    }
    lemma_first_part(prompt, " "@, 0, place);
    assert(prompt.take(place) =~= button);
    assert(prompt.skip(place + 1) =~= verb);
    assert(without_lead(verb) == verb);
}

/// Home without a title in focus prompts for nothing.
pub proof fn law_an_empty_home_prompts_for_nothing(
    shell: ShellModel,
    facts: SurfaceFacts,
    supplied: Text,
    within: Seq<(usize, usize)>,
)
    requires
        shell.nav.route == Route::Home,
        shell.focused_item() is None,
    ensures
        reads(scene_of(shell, facts, supplied, within), "prompts"@, Seq::empty()),
{
    lemma_prompts_shown(shell, facts, supplied, within);
}

/// The prompts of a route stand in its scene one by one: at home as they are, and in
/// the library, the search, the details and the quick panel with its gaps read as
/// dots.
pub proof fn law_prompts_stand_in_the_scene(
    shell: ShellModel,
    facts: SurfaceFacts,
    supplied: Text,
    within: Seq<(usize, usize)>,
    node: NodeModel,
)
    ensures
        shell.nav.route == Route::Home && footer_nodes(shell.footer(supplied)).contains(node)
            ==> scene_of(shell, facts, supplied, within).contains(node),
        (shell.nav.route == Route::Library || shell.nav.route == Route::Search || shell.nav.route
            == Route::Details || shell.nav.route == Route::Quick) && footer_nodes(
            joined(pieces(shell.footer(supplied), "     "@), " · "@),
        ).contains(node) ==> scene_of(shell, facts, supplied, within).contains(node),
{
    let bar = shell.prompt_bar(supplied);
    if bar.contains(node) {
        assert(shell.draft(facts, supplied).contains(node));
        lemma_in_scene(shell, facts, supplied, within, node);
    }
}

proof fn lemma_part_found(text: Text, part: Text, from: int)
    requires
        0 <= from,
        part.len() > 0,
    ensures
        match part_place(text, part, from) {
            Some(place) => {
                &&& from <= place
                &&& stands_at(text, part, place)
                &&& forall|k: int| from <= k < place ==> !stands_at(text, part, k)
            },
            None => forall|k: int| from <= k ==> !stands_at(text, part, k),
        },
    decreases text.len() - from,
{
    if from + part.len() <= text.len() && !stands_at(text, part, from) {
        lemma_part_found(text, part, from + 1);
    }
}

/// A text is cut at the first place of a separator: what stands before holds it
/// nowhere, and before, separator and after are the text.
pub proof fn law_texts_are_cut_at_the_first_place(text: Text, separator: Text)
    requires
        separator.len() > 0,
    ensures
        cut_once(text, separator) matches Some(cut) ==> {
            &&& cut.before + separator + cut.after == text
            &&& forall|k: int| 0 <= k < cut.before.len() ==> !stands_at(text, separator, k)
        },
        cut_once(text, separator) is None ==> forall|k: int| !stands_at(text, separator, k),
{
    lemma_part_found(text, separator, 0);
    if let Some(place) = part_place(text, separator, 0) {
        let before = text.take(place);
        let after = text.skip(place + separator.len());
        assert(text.subrange(place, place + separator.len()) == separator);
        assert(before + separator + after =~= text) by {
            assert forall|i: int| 0 <= i < text.len() implies text[i] == (before + separator
                + after)[i] by {
                if place <= i < place + separator.len() {
                    assert(text[i] == text.subrange(place, place + separator.len())[i - place]);
                }
            }
        }
    }
}

/// The pieces of a text, joined by the separator that parts them, are the text.
pub proof fn law_pieces_make_up_the_text(text: Text, separator: Text)
    requires
        separator.len() > 0,
    ensures
        joined(pieces(text, separator), separator) == text,
        pieces(text, separator).len() > 0,
    decreases text.len(),
{
    law_texts_are_cut_at_the_first_place(text, separator);
    if let Some(cut) = cut_once(text, separator) {
        law_pieces_make_up_the_text(cut.after, separator);
        let rest = pieces(cut.after, separator);
        let all = seq![cut.before] + rest;
        lemma_joined_from_the_front(all, separator);
        assert(all.skip(1) =~= rest);
    }
}

} // verus!
