//! What scenes say of the state: the words that stand on each screen, and what
//! they stand for.

use crate::actions::first_run_rows;
use crate::answers::{at_ease, device_supports, lemma_supports, minutes};
use crate::catalog::{AppKind, AvailabilityModel};
use crate::home_scene::{attention_nodes, law_window_shows_the_focus};
use crate::library::shelf;
use crate::panel_scene::power_verb;
use crate::ports::{ActionModel, EventModel, PowerAction};
use crate::preferences::preference_words;
use crate::reading::{lemma_in_body, offers, reads, refuses, scene_of};
use crate::scene::NodeModel;
use crate::state::{most_items, EffectModel, PowerDialog, Presentation, Route, ShellModel};
use crate::surface::SurfaceFacts;
use crate::text::{ascii_lowered, decimal_text, holds, words_in, Breaks, Text};
use crate::titles::{
    availability_of, availability_words, capability_cue, capability_of, first_ready, kind_name,
    kind_word, ReadyVariantCapability,
};
use vstd::prelude::*;
use vstd::string::*;

verus! {

broadcast use crate::reading::group_contained;

/// The question before a power action names the action that confirming it asks
/// for. It offers to cancel and to confirm; the first asks for nothing and the
/// second for just that action.
pub proof fn law_questions_name_what_they_ask_for(
    shell: ShellModel,
    facts: SurfaceFacts,
    footer: Text,
    within: Seq<(usize, usize)>,
    action: PowerAction,
)
    requires
        shell.session.presentation == Presentation::Ready,
        shell.nav.route == Route::Quick,
        shell.power.power_dialog == PowerDialog::Confirm(action),
    ensures
        ({
            let scene = scene_of(shell, facts, footer, within);
            let asked = shell.step(ActionModel::Activate).1;
            &&& action == PowerAction::PowerOff ==> reads(
                scene,
                "power-confirm-title"@,
                "Ready to power off?"@,
            )
            &&& action == PowerAction::Restart ==> reads(
                scene,
                "power-confirm-title"@,
                "Ready to restart?"@,
            )
            &&& action == PowerAction::Sleep ==> reads(
                scene,
                "power-confirm-title"@,
                "Ready to sleep?"@,
            )
            &&& offers(scene, "power-confirm-0"@, "Cancel"@, shell.nav.focus == 0)
            &&& offers(scene, "power-confirm-1"@, "Confirm"@, shell.nav.focus == 1)
            &&& shell.nav.focus == 0 ==> asked is None
            &&& shell.nav.focus == 1 ==> asked == Some(EffectModel::RequestPower(action))
        }),
{
    let nodes = shell.question_nodes(action);
    let body = shell.body_nodes(facts);
    assert(body == nodes);
    assert(body.contains(nodes[0]));
    assert(body.contains(nodes[1]));
    assert(body.contains(nodes[2]));
    lemma_in_body(shell, facts, footer, within, nodes[0]);
    lemma_in_body(shell, facts, footer, within, nodes[1]);
    lemma_in_body(shell, facts, footer, within, nodes[2]);
    lemma_questions();
}

proof fn lemma_questions()
    ensures
        "Ready to "@ + power_verb(PowerAction::PowerOff) + "?"@ == "Ready to power off?"@,
        "Ready to "@ + power_verb(PowerAction::Restart) + "?"@ == "Ready to restart?"@,
        "Ready to "@ + power_verb(PowerAction::Sleep) + "?"@ == "Ready to sleep?"@,
{
    reveal_strlit("Ready to ");
    reveal_strlit("power off");
    reveal_strlit("restart");
    reveal_strlit("sleep");
    reveal_strlit("?");
    reveal_strlit("Ready to power off?");
    reveal_strlit("Ready to restart?");
    reveal_strlit("Ready to sleep?");
    assert("Ready to "@ + power_verb(PowerAction::PowerOff) + "?"@ =~= "Ready to power off?"@);
    assert("Ready to "@ + power_verb(PowerAction::Restart) + "?"@ =~= "Ready to restart?"@);
    assert("Ready to "@ + power_verb(PowerAction::Sleep) + "?"@ =~= "Ready to sleep?"@);
}

/// The rows of the quick panel say what they do and which of them has the focus.
/// Powering off and restarting can be chosen where the device supports them, and
/// sleeping is shown where it does.
pub proof fn law_quick_rows_say_what_they_do(
    shell: ShellModel,
    facts: SurfaceFacts,
    footer: Text,
    within: Seq<(usize, usize)>,
)
    requires
        at_ease(shell),
        shell.nav.route == Route::Quick,
    ensures
        ({
            let scene = scene_of(shell, facts, footer, within);
            let focus = shell.nav.focus;
            let idle: int = if device_supports(shell, PowerAction::Sleep) {
                5
            } else {
                4
            };
            let last = if shell.power.idle_policy_loaded {
                idle + 1
            } else {
                idle
            };
            &&& offers(scene, "quick-0"@, "Open focused item"@, focus == 0)
            &&& offers(scene, "quick-1"@, "Browse the library"@, focus == 1)
            &&& if device_supports(shell, PowerAction::PowerOff) {
                offers(scene, "quick-power-power-off"@, "Power off"@, focus == 2)
            } else {
                refuses(scene, "quick-power-power-off"@, "Power off"@)
            }
            &&& if device_supports(shell, PowerAction::Restart) {
                offers(scene, "quick-power-restart"@, "Restart"@, focus == 3)
            } else {
                refuses(scene, "quick-power-restart"@, "Restart"@)
            }
            &&& device_supports(shell, PowerAction::Sleep) ==> offers(
                scene,
                "quick-power-sleep"@,
                "Sleep"@,
                focus == 4,
            )
            &&& offers(scene, "quick-capture-screenshot"@, "Capture screenshot"@, focus == last)
            &&& shell.power.power_status matches Some(words) ==> reads(
                scene,
                "quick-power-status"@,
                words,
            )
        }),
{
    lemma_supports(shell, PowerAction::PowerOff);
    lemma_supports(shell, PowerAction::Restart);
    lemma_supports(shell, PowerAction::Sleep);
    let body = shell.body_nodes(facts);
    let rows = shell.panel_rows();
    let focus = shell.nav.focus;
    let off = shell.supports(PowerAction::PowerOff);
    let again = shell.supports(PowerAction::Restart);
    let first = crate::panel_scene::panel_row("quick-0"@, "Open focused item"@, focus == 0, true);
    let second = crate::panel_scene::panel_row("quick-1"@, "Browse the library"@, focus == 1, true);
    let third = crate::panel_scene::panel_row(
        "quick-power-power-off"@,
        "Power off"@,
        focus == 2,
        off,
    );
    let fourth = crate::panel_scene::panel_row(
        "quick-power-restart"@,
        "Restart"@,
        focus == 3,
        again,
    );
    let sleep = crate::panel_scene::panel_row("quick-power-sleep"@, "Sleep"@, focus == 4, true);
    let shot = crate::panel_scene::panel_row(
        "quick-capture-screenshot"@,
        "Capture screenshot"@,
        focus == shell.screenshot_row(),
        true,
    );
    assert(rows.contains(first));
    assert(rows.contains(second));
    assert(rows.contains(third));
    assert(rows.contains(fourth));
    assert(rows.contains(shot));
    if shell.supports(PowerAction::Sleep) {
        assert(rows.contains(sleep));
        assert(body.contains(sleep));
        lemma_in_body(shell, facts, footer, within, sleep);
    }
    lemma_in_body(shell, facts, footer, within, first);
    lemma_in_body(shell, facts, footer, within, second);
    lemma_in_body(shell, facts, footer, within, third);
    lemma_in_body(shell, facts, footer, within, fourth);
    lemma_in_body(shell, facts, footer, within, shot);
    if let Some(words) = shell.power.power_status {
        let status = crate::scene::plain(
            "quick-power-status"@,
            crate::scene::Role::Text,
            words,
            crate::scene::Token::StatusAttention,
        );
        assert(body.contains(status));
        lemma_in_body(shell, facts, footer, within, status);
    }
}

/// The row of the idle policy says after how many minutes the device sleeps by
/// itself, or that it does not.
pub proof fn law_idle_row_says_when_the_device_sleeps(
    shell: ShellModel,
    facts: SurfaceFacts,
    footer: Text,
    within: Seq<(usize, usize)>,
    count: nat,
)
    requires
        at_ease(shell),
        shell.nav.route == Route::Quick,
        shell.power.idle_policy_loaded,
    ensures
        ({
            let scene = scene_of(shell, facts, footer, within);
            let focused = shell.nav.focus == (if device_supports(shell, PowerAction::Sleep) {
                5int
            } else {
                4int
            });
            let after = shell.power.applied_idle_policy.sleep_after;
            &&& after is None ==> offers(
                scene,
                "quick-power-idle"@,
                "Auto-sleep · "@ + "Off"@,
                focused,
            )
            &&& after == Some(minutes(count)) ==> offers(
                scene,
                "quick-power-idle"@,
                "Auto-sleep · "@ + (decimal_text(count) + " min"@),
                focused,
            )
        }),
{
    lemma_supports(shell, PowerAction::Sleep);
    let body = shell.body_nodes(facts);
    let rows = shell.panel_rows();
    let row = shell.idle_nodes()[0];
    assert(shell.idle_nodes().contains(row));
    assert(rows.contains(row));
    assert(body.contains(row));
    lemma_in_body(shell, facts, footer, within, row);
    assert(minutes(count) / 1_000_000_000 / 60 == count);
}

/// After a session crashed, the screen says which title it was, what happened and
/// under which receipt it is kept, and offers to go home or to open it again.
pub proof fn law_crashes_are_told(
    shell: ShellModel,
    facts: SurfaceFacts,
    footer: Text,
    within: Seq<(usize, usize)>,
    session_id: Text,
    summary: Text,
)
    ensures
        ({
            let after = shell.after_event(EventModel::Crash { session_id, summary });
            let scene = scene_of(after, facts, footer, within);
            &&& reads(scene, "crash-title"@, shell.session.active_title)
            &&& reads(
                scene,
                "crash-facts"@,
                "Session · Ended · What happened · "@ + summary,
            )
            &&& reads(
                scene,
                "crash-diagnostic"@,
                session_id + " · kept on this device · "@ + summary,
            )
            &&& offers(scene, "crash-action-0"@, "Back to Home"@, true)
            &&& offers(scene, "crash-action-1"@, "Open again"@, false)
        }),
{
    let after = shell.after_event(EventModel::Crash { session_id, summary });
    let nodes = after.crash_nodes();
    assert(after.body_nodes(facts) == nodes);
    assert(nodes.contains(nodes[2]));
    assert(nodes.contains(nodes[4]));
    assert(nodes.contains(nodes[5]));
    assert(nodes.contains(nodes[7]));
    assert(nodes.contains(nodes[8]));
    lemma_in_body(after, facts, footer, within, nodes[2]);
    lemma_in_body(after, facts, footer, within, nodes[4]);
    lemma_in_body(after, facts, footer, within, nodes[5]);
    lemma_in_body(after, facts, footer, within, nodes[7]);
    lemma_in_body(after, facts, footer, within, nodes[8]);
}

proof fn lemma_comfort(shell: ShellModel, upto: int, choice: int)
    requires
        0 <= choice < upto,
    ensures
        shell.comfort_before(upto).contains(
            crate::panel_scene::button(
                "comfort-"@ + decimal_text(choice as nat),
                preference_words(
                    shell.comfort.display_preferences[first_run_rows(
                        shell.comfort.display_preferences,
                    )[choice] as int],
                ),
                choice == shell.nav.focus,
            ),
        ),
    decreases upto,
{
    if choice < upto - 1 {
        lemma_comfort(shell, upto - 1, choice);
    }
}

/// The first run says each preference that can be changed and its value, which
/// button returns from a game, and how to go on.
pub proof fn law_first_run_says_what_it_offers(
    shell: ShellModel,
    facts: SurfaceFacts,
    footer: Text,
    within: Seq<(usize, usize)>,
    choice: int,
)
    requires
        shell.session.presentation == Presentation::FirstRun,
    ensures
        ({
            let scene = scene_of(shell, facts, footer, within);
            let rows = shell.comfort.display_preferences;
            let count = first_run_rows(rows).len() as int;
            &&& 0 <= choice < count ==> offers(
                scene,
                "comfort-"@ + decimal_text(choice as nat),
                preference_words(rows[first_run_rows(rows)[choice] as int]),
                shell.nav.focus == choice,
            )
            &&& offers(scene, "continue"@, "Continue · START"@, shell.nav.focus == count)
            &&& reads(
                scene,
                "safe-return-teach"@,
                shell.settings.safe_return_binding + " returns you here."@,
            )
        }),
{
    let rows = shell.comfort.display_preferences;
    let count = first_run_rows(rows).len() as int;
    let body = shell.body_nodes(facts);
    assert(body == shell.first_run_nodes());
    let go_on = crate::panel_scene::button(
        "continue"@,
        "Continue · START"@,
        shell.nav.focus == count,
    );
    let teach = crate::scene::plain(
        "safe-return-teach"@,
        crate::scene::Role::Text,
        shell.settings.safe_return_binding + " returns you here."@,
        crate::scene::Token::Canvas,
    ).multiline(true);
    assert(body.contains(go_on));
    assert(body.contains(teach));
    lemma_in_body(shell, facts, footer, within, go_on);
    lemma_in_body(shell, facts, footer, within, teach);
    if 0 <= choice < count {
        let row = crate::panel_scene::button(
            "comfort-"@ + decimal_text(choice as nat),
            preference_words(rows[first_run_rows(rows)[choice] as int]),
            choice == shell.nav.focus,
        );
        lemma_comfort(shell, count, choice);
        assert(body.contains(row));
        lemma_in_body(shell, facts, footer, within, row);
    }
}

proof fn lemma_home(shell: ShellModel, facts: SurfaceFacts, node: NodeModel)
    requires
        shell.home_nodes(facts).contains(node),
        shell.session.presentation != Presentation::FirstRun,
        shell.session.presentation != Presentation::Crash,
        shell.nav.route == Route::Home,
    ensures
        shell.body_nodes(facts).contains(node),
{
}

/// Home says which title is in focus, whether something just returned, how many
/// titles stand on the shelf and what needs attention.
pub proof fn law_home_says_what_is_in_focus(
    shell: ShellModel,
    facts: SurfaceFacts,
    footer: Text,
    within: Seq<(usize, usize)>,
)
    requires
        at_ease(shell),
        shell.nav.route == Route::Home,
        shell.nav.focus >= 0,
    ensures
        ({
            let scene = scene_of(shell, facts, footer, within);
            let shelved = shelf(shell.titles.items);
            &&& shell.nav.focus < shelved.len() ==> reads(
                scene,
                "hero-title"@,
                shell.titles.items[shelved[shell.nav.focus] as int].title,
            )
            &&& shelved.len() == 0 ==> reads(scene, "hero-title"@, "Nothing ready"@)
            &&& shell.comfort.text_scale < 200 ==> reads(
                scene,
                "route-heading"@,
                if shell.session.just_returned {
                    "RECENT · JUST NOW"@
                } else {
                    "RECENT · TONIGHT"@
                },
            )
            &&& reads(
                scene,
                "home-shelf-label"@,
                "READY NOW · "@ + decimal_text(shelved.len()),
            )
            &&& shell.power.attention_message matches Some(message) ==> reads(
                scene,
                "attention"@,
                message,
            )
            &&& shell.power.attention_message is None && shell.session.presentation
                == Presentation::ForcedClose ==> reads(
                scene,
                "attention"@,
                "The previous game didn't close cleanly"@,
            )
        }),
{
    let hero = shell.hero_nodes();
    let label = crate::scene::plain(
        "home-shelf-label"@,
        crate::scene::Role::Heading,
        "READY NOW · "@ + decimal_text(shelf(shell.titles.items).len()),
        crate::scene::Token::Canvas,
    ).lettered(crate::scene::TypeRole::Eyebrow);
    let title = hero[hero.len() - 2];
    assert(hero.contains(title));
    assert(shell.home_nodes(facts).contains(title));
    assert(shell.home_nodes(facts).contains(label));
    lemma_home(shell, facts, title);
    lemma_home(shell, facts, label);
    lemma_in_body(shell, facts, footer, within, title);
    lemma_in_body(shell, facts, footer, within, label);
    if shell.comfort.text_scale < 200 {
        let heading = hero[2];
        assert(hero.contains(heading));
        assert(shell.home_nodes(facts).contains(heading));
        lemma_home(shell, facts, heading);
        lemma_in_body(shell, facts, footer, within, heading);
    }
    if let Some(message) = shell.attention() {
        let told = attention_nodes(message)[4];
        assert(attention_nodes(message).contains(told));
        assert(shell.home_nodes(facts).contains(told));
        lemma_home(shell, facts, told);
        lemma_in_body(shell, facts, footer, within, told);
    }
}

/// What home says of the title in focus: whether it is ready or starting, of what
/// kind it is and where it comes from, what it needs otherwise, and how long it
/// was played where its tags tell.
pub proof fn law_home_says_how_ready_a_title_is(
    shell: ShellModel,
    facts: SurfaceFacts,
    footer: Text,
    within: Seq<(usize, usize)>,
)
    requires
        at_ease(shell),
        shell.nav.route == Route::Home,
        0 <= shell.nav.focus < shelf(shell.titles.items).len(),
    ensures
        ({
            let scene = scene_of(shell, facts, footer, within);
            let item = shell.titles.items[shelf(shell.titles.items)[shell.nav.focus] as int];
            let fact = match item.playtime_fact {
                Some(fact) => " · "@ + fact,
                None => ""@,
            };
            let kind = kind_word(item.kind);
            match availability_of(item) {
                AvailabilityModel::Ready => first_ready(item.variants, 0) matches Some(place)
                    ==> reads(
                    scene,
                    "hero-status"@,
                    (if shell.session.presentation == Presentation::Starting {
                        "● Starting · "@
                    } else {
                        "● Ready · "@
                    }) + kind + " · "@ + capability_cue(
                        capability_of(item.variants[place].provenance.runtime_family),
                    ) + fact,
                ),
                AvailabilityModel::NeedsSetup { .. } => reads(
                    scene,
                    "hero-status"@,
                    "⊘ Needs setup · "@ + kind + fact,
                ),
                AvailabilityModel::NeedsNetwork { .. } => reads(
                    scene,
                    "hero-status"@,
                    "⊘ Network required · "@ + kind + fact,
                ),
                _ => reads(scene, "hero-status"@, "⊘ Unavailable · "@ + kind + fact),
            }
        }),
{
    let hero = shell.hero_nodes();
    let status = hero[hero.len() - 1];
    assert(hero.contains(status));
    assert(shell.home_nodes(facts).contains(status));
    lemma_home(shell, facts, status);
    lemma_in_body(shell, facts, footer, within, status);
}

proof fn lemma_card(shell: ShellModel, facts: SurfaceFacts, upto: int, place: int)
    requires
        shell.shelf_from(facts) <= place < upto,
    ensures
        shell.shelf_cards(facts, upto).contains(shell.shelf_card(facts, place)[0]),
    decreases upto - place,
{
    if place < upto - 1 {
        lemma_card(shell, facts, upto - 1, place);
    } else {
        let card = shell.shelf_card(facts, place);
        assert(card.contains(card[0]));
    }
}

/// The card of the title in focus stands on the shelf at home, says its title and
/// can be chosen, as long as there is room for one card.
pub proof fn law_home_offers_the_title_in_focus(
    shell: ShellModel,
    facts: SurfaceFacts,
    footer: Text,
    within: Seq<(usize, usize)>,
)
    requires
        at_ease(shell),
        shell.nav.route == Route::Home,
        shell.titles.items.len() <= most_items(),
        0 <= shell.nav.focus < shelf(shell.titles.items).len(),
        facts.shelf_capacity >= 1,
    ensures
        ({
            let item = shell.titles.items[shelf(shell.titles.items)[shell.nav.focus] as int];
            offers(
                scene_of(shell, facts, footer, within),
                "item-"@ + item.id,
                item.title,
                true,
            )
        }),
{
    let focus = shell.nav.focus;
    let count = shelf(shell.titles.items).len() as int;
    let from = shell.shelf_from(facts);
    let upto = crate::navigation::least(from + shell.shelf_shown(facts), count);
    law_window_shows_the_focus(focus, shell.shelf_shown(facts), count);
    lemma_card(shell, facts, upto, focus);
    let card = shell.shelf_card(facts, focus)[0];
    assert(shell.home_nodes(facts).contains(card));
    lemma_home(shell, facts, card);
    lemma_in_body(shell, facts, footer, within, card);
}

/// What kinds of titles are called, in words and on cards.
pub proof fn law_kinds_are_called_by_their_names(kind: AppKind)
    ensures
        kind_word(kind) == (match kind {
            AppKind::Game => "Game"@,
            AppKind::Media => "Media"@,
            AppKind::Stream => "Stream"@,
            AppKind::System => "Tool"@,
            AppKind::Settings => "Settings"@,
        }),
        kind_name(kind) == (match kind {
            AppKind::Game => "GAME"@,
            AppKind::Media => "MEDIA"@,
            AppKind::Stream => "STREAM"@,
            AppKind::System => "TOOL"@,
            AppKind::Settings => "SETTINGS"@,
        }),
{
}

/// A variant streams where its runtime family has a part `stream` or speaks of
/// streaming, and is installed where it has a part `native` otherwise, without
/// regard to the case of Latin letters.
pub proof fn law_runtimes_tell_where_a_variant_comes_from(family: Text)
    ensures
        ({
            let lowered = ascii_lowered(family);
            let parts = words_in(lowered, Breaks::Family);
            let streams = parts.contains("stream"@) || holds(lowered, "streaming"@);
            &&& streams ==> capability_of(family) == ReadyVariantCapability::Stream
            &&& !streams && parts.contains("native"@) ==> capability_of(family)
                == ReadyVariantCapability::Native
            &&& !streams && !parts.contains("native"@) ==> capability_of(family)
                == ReadyVariantCapability::Unknown
        }),
        capability_cue(ReadyVariantCapability::Native) == "Installed"@,
        capability_cue(ReadyVariantCapability::Stream) == "Available over the network"@,
        capability_cue(ReadyVariantCapability::Unknown) == "Source availability unknown"@,
{
    let parts = words_in(ascii_lowered(family), Breaks::Family);
    lemma_listed(parts, "stream"@);
    lemma_listed(parts, "native"@);
}

proof fn lemma_listed(list: Seq<Text>, wanted: Text)
    ensures
        crate::titles::listed(list, wanted) == list.contains(wanted),
{
    if crate::titles::listed(list, wanted) {
        let i = choose|i: int| 0 <= i < list.len() && #[trigger] list[i] == wanted;
        assert(list.contains(wanted));
    }
    if list.contains(wanted) {
        let i = choose|i: int| 0 <= i < list.len() && list[i] == wanted;
        assert(list[i] == wanted);
    }
}

/// How the availability of a title is put: what it needs, and why.
pub proof fn law_availability_is_put_in_words(starting: bool, reason: Text, other: Text)
    ensures
        availability_words(AvailabilityModel::Ready, false) == "Ready"@,
        availability_words(AvailabilityModel::Ready, true) == "Starting"@,
        availability_words(AvailabilityModel::NeedsNetwork { reason }, starting)
            == "Network required — "@ + reason,
        availability_words(AvailabilityModel::NeedsSetup { reason }, starting)
            == "Finish setup — "@ + reason,
        availability_words(
            AvailabilityModel::UnsupportedCapability { capability: reason },
            starting,
        ) == "Not supported on this device — "@ + reason,
        availability_words(
            AvailabilityModel::IncompatibleRuntime { required: reason, available: other },
            starting,
        ) == "Not supported — requires "@ + reason + "; found "@ + other,
{
}

/// The words that stand on the first run, after a crash and on the quick panel
/// whatever else is so.
pub proof fn law_standing_words_of_the_panels(
    shell: ShellModel,
    facts: SurfaceFacts,
    footer: Text,
    within: Seq<(usize, usize)>,
)
    ensures
        ({
            let scene = scene_of(shell, facts, footer, within);
            &&& shell.session.presentation == Presentation::FirstRun ==> {
                &&& reads(scene, "first-run-title"@, "FIRST RUN · Make it comfortable"@)
                &&& reads(
                    scene,
                    "first-run-copy"@,
                    "All of this lives in Settings → Accessibility and can change any time."@,
                )
            }
            &&& shell.session.presentation == Presentation::Crash ==> {
                &&& reads(scene, "crash-eyebrow"@, "⚠ Closed unexpectedly"@)
                &&& reads(
                    scene,
                    "crash-copy"@,
                    shell.session.active_title
                        + " stopped on its own and the shelf took the screen back. Nothing else was affected, and it's ready to open again."@,
                )
                &&& reads(
                    scene,
                    "crash-honesty"@,
                    "This record stays on the device — there's nowhere it gets sent, so there's no Report button to press."@,
                )
            }
            &&& at_ease(shell) && shell.nav.route == Route::Quick && facts.truth_fits ==> reads(
                scene,
                "quick-truth"@,
                "Nothing is running now. Quick shows only what applies right here."@,
            )
        }),
{
    let body = shell.body_nodes(facts);
    if shell.session.presentation == Presentation::FirstRun {
        let nodes = shell.first_run_nodes();
        assert(nodes.contains(nodes[1]));
        assert(nodes.contains(nodes[2]));
        lemma_in_body(shell, facts, footer, within, nodes[1]);
        lemma_in_body(shell, facts, footer, within, nodes[2]);
    }
    if shell.session.presentation == Presentation::Crash {
        let nodes = shell.crash_nodes();
        assert(nodes.contains(nodes[1]));
        assert(nodes.contains(nodes[3]));
        assert(nodes.contains(nodes[6]));
        lemma_in_body(shell, facts, footer, within, nodes[1]);
        lemma_in_body(shell, facts, footer, within, nodes[3]);
        lemma_in_body(shell, facts, footer, within, nodes[6]);
    }
    if at_ease(shell) && shell.nav.route == Route::Quick && facts.truth_fits {
        let nodes = shell.quick_nodes(facts);
        let truth = nodes[nodes.len() - 1];
        assert(nodes.contains(truth));
        lemma_in_body(shell, facts, footer, within, truth);
    }
}

} // verus!
