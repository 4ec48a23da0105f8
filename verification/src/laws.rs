//! What holds of the shell as a whole, whatever the user does.

use crate::catalog::ItemModel;
use crate::library::{lemma_shelf, shelf};
use crate::navigation::{
    item_place, lemma_place_on, place_on, window_end, window_start, lemma_ready_between,
};
use crate::ports::{ActionModel, AxisMove, PowerAction};
use crate::state::{
    places_differ, places_fit, EffectModel, LibraryFilter, PowerDialog, Presentation, Route,
    ShellModel, SystemFlow,
};
use crate::text::{stripped, Text};
use crate::titles::{lemma_first_ready, ready_places};
use vstd::prelude::*;

verus! {

/// While the shell is not on the screen, nothing but a safe return is heard.
pub proof fn law_off_screen_nothing_happens(shell: ShellModel, action: ActionModel)
    requires
        !shell.session.presentation.has_frame(),
        action != ActionModel::Custom("SafeReturn"@),
    ensures
        shell.step(action) == (shell.bumped(), None::<EffectModel>),
{
}

/// Going back and moving the focus never ask for anything.
pub proof fn law_looking_around_asks_for_nothing(shell: ShellModel, action: ActionModel)
    requires
        action is Back || action is Move,
    ensures
        shell.step(action).1 is None,
{
}

/// What no input changes: the titles and what is known of them, the preferences
/// that are in effect, and what the services reported.
pub open spec fn same_ground(before: ShellModel, after: ShellModel) -> bool {
    &&& after.revision == before.revision
    &&& after.titles.items == before.titles.items
    &&& after.titles.search_query == before.titles.search_query
    &&& after.titles.search_results == before.titles.search_results
    &&& after.titles.playtime == before.titles.playtime
    &&& after.titles.recent_use == before.titles.recent_use
    &&& after.comfort == (crate::state::ComfortModel {
        first_run_complete: after.comfort.first_run_complete,
        ..before.comfort
    })
    &&& after.network.network_state == before.network.network_state
    &&& after.network.wifi_networks == before.network.wifi_networks
    &&& after.system.time_state == before.system.time_state
    &&& after.system.transfer_services == before.system.transfer_services
    &&& after.power.power_capabilities == before.power.power_capabilities
    &&& after.power.applied_idle_policy == before.power.applied_idle_policy
    &&& after.power.battery_percent == before.power.battery_percent
    &&& after.session.pending_ack == before.session.pending_ack
    &&& after.settings.control_bindings == before.settings.control_bindings
    &&& after.settings.safe_return_binding == before.settings.safe_return_binding
}

proof fn lemma_going_ground(shell: ShellModel, route: Route)
    ensures
        same_ground(shell, shell.going(route)),
{
}

proof fn lemma_moved_ground(shell: ShellModel, axis: AxisMove)
    ensures
        same_ground(shell, shell.moved(axis)),
{
}

proof fn lemma_opening_ground(shell: ShellModel, item: Option<int>, route: Route)
    ensures
        same_ground(shell, shell.opening(item, route)),
{
    let ready = shell.selecting(item).remembering();
    assert(same_ground(shell, ready));
    lemma_going_ground(ready, route);
}

proof fn lemma_choosing_ground(shell: ShellModel)
    ensures
        same_ground(shell, shell.choosing()),
{
    lemma_going_ground(shell, Route::VariantChooser);
}

proof fn lemma_library_ground(shell: ShellModel)
    ensures
        same_ground(shell, shell.library_activated()),
        same_ground(shell, shell.search_activated()),
{
    let item = if shell.nav.focus - 5 < shell.titles.library_items.len() {
        Some(shell.titles.library_items[shell.nav.focus - 5] as int)
    } else {
        None
    };
    lemma_opening_ground(shell, item, Route::Details);
    lemma_opening_ground(
        shell,
        Some(shell.titles.search_results[shell.nav.focus] as int),
        Route::Details,
    );
    lemma_going_ground(shell.remembering(), Route::Search);
}

proof fn lemma_details_ground(shell: ShellModel)
    ensures
        same_ground(shell, shell.details_activated().0),
        same_ground(shell, shell.chooser_activated().0),
{
    lemma_choosing_ground(shell);
}

proof fn lemma_home_ground(shell: ShellModel)
    ensures
        same_ground(shell, shell.home_activated().0),
{
    if let Some(item) = shell.focused_item() {
        lemma_opening_ground(shell, Some(item), Route::Details);
        let ready = shell.selecting(Some(item)).remembering();
        assert(same_ground(shell, ready));
        lemma_choosing_ground(ready);
    }
}

proof fn lemma_place_ground(shell: ShellModel)
    ensures
        same_ground(shell, shell.place_activated().0),
{
    match shell.nav.route {
        Route::Library | Route::Search => lemma_library_ground(shell),
        Route::Details | Route::VariantChooser => lemma_details_ground(shell),
        Route::Home => lemma_home_ground(shell),
        _ => {},
    }
}

pub proof fn lemma_activated_ground(shell: ShellModel)
    ensures
        same_ground(shell, shell.activated().0),
{
    let there = shell.going(shell.nav.previous_route);
    lemma_going_ground(shell, shell.nav.previous_route);
    lemma_place_ground(there);
    lemma_place_ground(shell);
}

proof fn lemma_named_ground(shell: ShellModel, name: Text)
    ensures
        same_ground(shell, shell.named_step(name).0),
{
}

proof fn lemma_crash_ground(shell: ShellModel, action: ActionModel)
    ensures
        same_ground(shell, shell.crash_step(action).0),
{
    let crashed = shell.focusing(shell.nav.launch_focus).readied();
    lemma_going_ground(crashed, Route::Home);
    lemma_activated_ground(crashed.going(Route::Home));
    lemma_going_ground(shell.readied(), Route::Home);
    assert(same_ground(shell, crashed));
    assert(same_ground(shell, shell.readied()));
}

proof fn lemma_back_ground(shell: ShellModel)
    ensures
        same_ground(shell, shell.back_step()),
{
}

proof fn lemma_plain_ground(shell: ShellModel, action: ActionModel)
    ensures
        same_ground(shell, shell.plain_step(action).0),
{
    match action {
        ActionModel::Move(axis) => lemma_moved_ground(shell, axis),
        ActionModel::Custom(name) => lemma_named_ground(shell, name),
        ActionModel::Activate => lemma_activated_ground(shell),
        ActionModel::Back => lemma_back_ground(shell),
    }
}

proof fn lemma_dialog_ground(shell: ShellModel, power: PowerAction, action: ActionModel)
    ensures
        same_ground(shell, shell.dialog_step(power, action).0),
{
}

proof fn lemma_entry_ground(shell: ShellModel, action: ActionModel)
    ensures
        same_ground(shell, shell.first_run_step(action).0),
        same_ground(shell, shell.credential_step(action).0),
        same_ground(shell, shell.clock_step(action).0),
{
}

/// An input changes nothing that others decide: titles, preferences and what
/// the services reported stay until those others report anew. Each input makes
/// one new revision.
pub proof fn law_inputs_change_only_what_is_shown(shell: ShellModel, action: ActionModel)
    ensures
        same_ground(shell.bumped(), shell.step(action).0),
{
    let bumped = shell.bumped();
    assert(same_ground(bumped, bumped));
    if bumped.session.presentation.has_frame() {
        if let PowerDialog::Confirm(power) = bumped.power.power_dialog {
            lemma_dialog_ground(bumped, power, action);
        } else if bumped.session.presentation == Presentation::FirstRun || bumped.entering_secret()
            || bumped.setting_clock() {
            lemma_entry_ground(bumped, action);
        } else if bumped.session.presentation == Presentation::Crash {
            lemma_crash_ground(bumped, action);
        } else {
            lemma_plain_ground(bumped, action);
        }
    }
}

/// Revisions never go back, and as long as they can be counted each input makes
/// exactly one.
pub proof fn law_each_input_is_one_revision(shell: ShellModel, action: ActionModel)
    requires
        shell.revision <= u64::MAX,
    ensures
        shell.step(action).0.revision >= shell.revision,
        shell.revision < u64::MAX ==> shell.step(action).0.revision == shell.revision + 1,
{
    law_inputs_change_only_what_is_shown(shell, action);
}

/// Whether an effect powers the device off or restarts it.
pub open spec fn is_drastic(effect: Option<EffectModel>) -> bool {
    effect == Some(EffectModel::RequestPower(PowerAction::PowerOff)) || effect == Some(
        EffectModel::RequestPower(PowerAction::Restart),
    )
}

/// Whether an effect pins a variant.
pub open spec fn pins(effect: Option<EffectModel>) -> bool {
    effect matches Some(EffectModel::SetPinnedVariant { .. })
}

proof fn lemma_places_are_modest(shell: ShellModel)
    ensures
        !is_drastic(shell.place_activated().1),
        !pins(shell.place_activated().1),
        shell.place_activated().1 != Some(EffectModel::SafeReturn),
{
}

proof fn lemma_activating_is_modest(shell: ShellModel)
    ensures
        !is_drastic(shell.activated().1),
        !pins(shell.activated().1),
        shell.activated().1 != Some(EffectModel::SafeReturn),
{
    lemma_places_are_modest(shell);
    lemma_places_are_modest(shell.going(shell.nav.previous_route));
}

proof fn lemma_crashes_are_modest(shell: ShellModel, action: ActionModel)
    ensures
        !is_drastic(shell.crash_step(action).1),
        !pins(shell.crash_step(action).1),
        shell.crash_step(action).1 != Some(EffectModel::SafeReturn),
{
    lemma_activating_is_modest(
        shell.focusing(shell.nav.launch_focus).readied().going(Route::Home),
    );
}

proof fn lemma_plain_steps_are_modest(shell: ShellModel, action: ActionModel)
    ensures
        !is_drastic(shell.plain_step(action).1),
        !pins(shell.plain_step(action).1),
        shell.plain_step(action).1 != Some(EffectModel::SafeReturn),
{
    lemma_activating_is_modest(shell);
}

proof fn lemma_entries_are_modest(shell: ShellModel, action: ActionModel)
    ensures
        !is_drastic(shell.first_run_step(action).1),
        !is_drastic(shell.credential_step(action).1),
        !is_drastic(shell.clock_step(action).1),
        !pins(shell.first_run_step(action).1),
        shell.first_run_step(action).1 != Some(EffectModel::SafeReturn),
        !pins(shell.credential_step(action).1),
        shell.credential_step(action).1 != Some(EffectModel::SafeReturn),
        !pins(shell.clock_step(action).1),
        shell.clock_step(action).1 != Some(EffectModel::SafeReturn),
{
}

proof fn lemma_modest_outside_questions(shell: ShellModel, action: ActionModel)
    ensures
        !pins(shell.step(action).1),
        action != ActionModel::Custom("SafeReturn"@) ==> shell.step(action).1 != Some(
            EffectModel::SafeReturn,
        ),
        !(shell.power.power_dialog is Confirm) ==> !is_drastic(shell.step(action).1),
        !shell.session.presentation.has_frame() ==> !is_drastic(shell.step(action).1),
{
    let bumped = shell.bumped();
    if bumped.session.presentation.has_frame() && !(bumped.power.power_dialog is Confirm) {
        if bumped.session.presentation == Presentation::FirstRun || bumped.entering_secret()
            || bumped.setting_clock() {
            lemma_entries_are_modest(bumped, action);
        } else if bumped.session.presentation == Presentation::Crash {
            lemma_crashes_are_modest(bumped, action);
        } else {
            lemma_plain_steps_are_modest(bumped, action);
        }
    }
}

/// A safe return is asked for whatever the shell presents, and by nothing but
/// the input of that name.
pub proof fn law_safe_return_is_always_heard(shell: ShellModel, action: ActionModel)
    ensures
        shell.step(ActionModel::Custom("SafeReturn"@)) == (
            shell.bumped(),
            Some(EffectModel::SafeReturn),
        ),
        shell.step(action).1 == Some(EffectModel::SafeReturn) ==> action == ActionModel::Custom(
            "SafeReturn"@,
        ),
{
    lemma_modest_outside_questions(shell, action);
}

/// The device is powered off or restarted only after the user was asked and has
/// confirmed it.
pub proof fn law_drastic_actions_are_confirmed(shell: ShellModel, action: ActionModel)
    requires
        is_drastic(shell.step(action).1),
    ensures
        action is Activate,
        shell.nav.focus != 0,
        shell.power.power_dialog is Confirm,
        shell.step(action).1 == Some(
            EffectModel::RequestPower(shell.power.power_dialog->Confirm_0),
        ),
{
    lemma_modest_outside_questions(shell, action);
}

/// A question before a power action starts at the answer that calls it off, and
/// calling it off asks for nothing and closes the question.
pub proof fn law_questions_start_at_cancel(shell: ShellModel, power: PowerAction)
    requires
        shell.session.presentation.has_frame(),
    ensures
        shell.asking(power).step(ActionModel::Activate).1 is None,
        shell.asking(power).step(ActionModel::Activate).0.power.power_dialog
            == PowerDialog::Closed,
        shell.asking(power).step(ActionModel::Back).0.power.power_dialog == PowerDialog::Closed,
{
}

/// The first run cannot be left by going back; only finishing it ends it, and
/// that is reported.
pub proof fn law_first_run_ends_by_finishing_it(shell: ShellModel, action: ActionModel)
    requires
        shell.session.presentation == Presentation::FirstRun,
        shell.power.power_dialog == PowerDialog::Closed,
    ensures
        shell.step(ActionModel::Back) == (shell.bumped(), None::<EffectModel>),
        shell.step(action).0.session.presentation != Presentation::FirstRun ==> shell.step(
            action,
        ).1 == Some(EffectModel::CompleteFirstRun) && shell.step(
            action,
        ).0.comfort.first_run_complete,
{
}

/// The secret of a network leaves the shell at most once: whatever sends it or
/// calls the entry off forgets it.
pub proof fn law_secrets_are_forgotten(shell: ShellModel, action: ActionModel)
    requires
        shell.session.presentation.has_frame(),
        shell.session.presentation != Presentation::FirstRun,
        shell.power.power_dialog == PowerDialog::Closed,
        shell.entering_secret(),
        shell.step(action).1 is Some || action is Back,
        action != ActionModel::Custom("SafeReturn"@),
    ensures
        shell.step(action).0.network.wifi_credential.len() == 0,
{
}

/// Whether some variant that is launched under an id can be launched.
pub open spec fn launchable(items: Seq<ItemModel>, app_id: Text) -> bool {
    exists|item: int, variant: int|
        0 <= item < items.len() && 0 <= variant < items[item].variants.len()
            && #[trigger] items[item].variants[variant].availability is Ready
            && items[item].variants[variant].app_id == app_id
}

/// Whether an effect launches at most what can be launched.
pub open spec fn launches_what_is_ready(shell: ShellModel, effect: Option<EffectModel>) -> bool {
    effect matches Some(EffectModel::Launch { item_id }) ==> launchable(
        shell.titles.items,
        item_id,
    )
}

proof fn lemma_launched(shell: ShellModel, item: int, variant: int)
    requires
        0 <= item < shell.titles.items.len(),
        0 <= variant < shell.titles.items[item].variants.len(),
        shell.titles.items[item].variants[variant].availability is Ready,
    ensures
        launches_what_is_ready(shell, shell.launched(item, variant).1),
{
    assert(shell.titles.items[item].variants[variant].availability is Ready);
}

proof fn lemma_ready_places(variants: Seq<crate::catalog::VariantModel>, from: int)
    requires
        0 <= from,
    ensures
        forall|i: int|
            0 <= i < ready_places(variants, from).len() ==> from <= (#[trigger] ready_places(
                variants,
                from,
            )[i]) < variants.len() && variants[ready_places(variants, from)[i]].availability
                is Ready,
    decreases variants.len() - from,
{
    if from < variants.len() {
        lemma_ready_places(variants, from + 1);
    }
}

proof fn lemma_places_launch_what_is_ready(shell: ShellModel)
    requires
        shell.ok(),
    ensures
        launches_what_is_ready(shell, shell.place_activated().1),
{
    assert(shell.nav.selected_item matches Some(item) ==> 0 <= item < shell.titles.items.len()
        && shell.titles.items.len() <= crate::state::most_items() && 0 <= shell.nav.focus) by {
        reveal(ShellModel::ok);
    }
    assert(0 <= shell.nav.focus && shell.titles.items.len() <= crate::state::most_items()) by {
        reveal(ShellModel::ok);
    }
    match shell.nav.route {
        Route::Details => {
            if let Some(item) = shell.nav.selected_item {
                let variants = shell.titles.items[item].variants;
                lemma_first_ready(variants, 0);
                lemma_ready_between(variants, window_start(variants), window_end(variants));
                lemma_ready_places(variants, 0);
                let rows = shell.detail_rows();
                if shell.nav.focus < rows.len() {
                    lemma_launched(shell, item, rows[shell.nav.focus]);
                } else if ready_places(variants, 0).len() == 1 {
                    lemma_launched(shell, item, ready_places(variants, 0)[0]);
                }
            }
        },
        Route::VariantChooser => {
            if let Some(item) = shell.nav.selected_item {
                let variants = shell.titles.items[item].variants;
                lemma_ready_places(variants, 0);
                if shell.nav.focus < ready_places(variants, 0).len() {
                    lemma_launched(shell, item, ready_places(variants, 0)[shell.nav.focus]);
                }
            }
        },
        Route::Home => {
            lemma_shelf(shell.titles.items);
            if let Some(item) = shell.focused_item() {
                assert(0 <= item < shell.titles.items.len()) by {
                    reveal(places_fit);
                }
                let variants = shell.titles.items[item].variants;
                lemma_ready_places(variants, 0);
                if ready_places(variants, 0).len() == 1 {
                    lemma_launched(shell, item, ready_places(variants, 0)[0]);
                }
            }
        },
        _ => {},
    }
}

proof fn lemma_activating_launches_what_is_ready(shell: ShellModel)
    requires
        shell.ok(),
    ensures
        launches_what_is_ready(shell, shell.activated().1),
{
    let there = shell.going(shell.nav.previous_route);
    shell.lemma_going_ok(shell.nav.previous_route);
    lemma_going_ground(shell, shell.nav.previous_route);
    lemma_places_launch_what_is_ready(there);
    lemma_places_launch_what_is_ready(shell);
}

proof fn lemma_crashes_launch_what_is_ready(shell: ShellModel, action: ActionModel)
    requires
        shell.ok(),
    ensures
        launches_what_is_ready(shell, shell.crash_step(action).1),
{
    let crashed = shell.focusing(shell.nav.launch_focus).readied();
    assert(crashed.ok()) by {
        reveal(ShellModel::ok);
    }
    crashed.lemma_going_ok(Route::Home);
    lemma_going_ground(crashed, Route::Home);
    lemma_activating_launches_what_is_ready(crashed.going(Route::Home));
    assert(crashed.going(Route::Home).titles.items == shell.titles.items);
}

proof fn lemma_plain_steps_launch_what_is_ready(shell: ShellModel, action: ActionModel)
    requires
        shell.ok(),
    ensures
        launches_what_is_ready(shell, shell.plain_step(action).1),
{
    lemma_activating_launches_what_is_ready(shell);
}

/// Nothing is ever launched but a variant that can be launched.
pub proof fn law_only_what_is_ready_is_launched(shell: ShellModel, action: ActionModel)
    requires
        shell.ok(),
    ensures
        launches_what_is_ready(shell, shell.step(action).1),
{
    let bumped = shell.bumped();
    shell.lemma_bumped_ok();
    if bumped.session.presentation.has_frame() && !(bumped.power.power_dialog is Confirm)
        && bumped.session.presentation != Presentation::FirstRun && !bumped.entering_secret()
        && !bumped.setting_clock() {
        if bumped.session.presentation == Presentation::Crash {
            lemma_crashes_launch_what_is_ready(bumped, action);
        } else {
            lemma_plain_steps_launch_what_is_ready(bumped, action);
        }
    }
}

/// Whether a step changes what is presented only by launching, which starts a
/// session.
pub open spec fn only_launches(
    before: Presentation,
    after: Presentation,
    effect: Option<EffectModel>,
) -> bool {
    if effect matches Some(EffectModel::Launch { .. }) {
        after == Presentation::Starting
    } else {
        after == before
    }
}

proof fn lemma_opening_presents_the_same(shell: ShellModel, item: Option<int>)
    ensures
        shell.opening(item, Route::Details).session == shell.session,
        shell.choosing().session == shell.session,
{
}

proof fn lemma_place_only_launches(shell: ShellModel)
    ensures
        only_launches(
            shell.session.presentation,
            shell.place_activated().0.session.presentation,
            shell.place_activated().1,
        ),
{
    match shell.nav.route {
        Route::Home => if let Some(item) = shell.focused_item() {
            lemma_opening_presents_the_same(shell, Some(item));
            lemma_opening_presents_the_same(shell.selecting(Some(item)).remembering(), None);
        },
        Route::Library => {
            let item = if shell.nav.focus - 5 < shell.titles.library_items.len() {
                Some(shell.titles.library_items[shell.nav.focus - 5] as int)
            } else {
                None
            };
            lemma_opening_presents_the_same(shell, item);
        },
        Route::Search => {
            let item = Some(shell.titles.search_results[shell.nav.focus] as int);
            lemma_opening_presents_the_same(shell, item);
        },
        _ => {
            lemma_opening_presents_the_same(shell, None);
        },
    }
}

proof fn lemma_activated_only_launches(shell: ShellModel)
    ensures
        only_launches(
            shell.session.presentation,
            shell.activated().0.session.presentation,
            shell.activated().1,
        ),
{
    let there = shell.going(shell.nav.previous_route);
    assert(there.session == shell.session);
    lemma_place_only_launches(there);
    lemma_place_only_launches(shell);
}

proof fn lemma_moved_presents_the_same(shell: ShellModel, axis: AxisMove)
    ensures
        shell.moved(axis).session == shell.session,
{
}

proof fn lemma_named_presents_the_same(shell: ShellModel, name: Text)
    ensures
        shell.named_step(name).0.session == shell.session,
        !(shell.named_step(name).1 is Some && shell.named_step(name).1->0 is Launch),
{
}

proof fn lemma_back_presents_the_same(shell: ShellModel)
    ensures
        shell.back_step().session == shell.session,
{
}

proof fn lemma_plain_only_launches(shell: ShellModel, action: ActionModel)
    ensures
        only_launches(
            shell.session.presentation,
            shell.plain_step(action).0.session.presentation,
            shell.plain_step(action).1,
        ),
{
    match action {
        ActionModel::Move(axis) => lemma_moved_presents_the_same(shell, axis),
        ActionModel::Custom(name) => lemma_named_presents_the_same(shell, name),
        ActionModel::Activate => lemma_activated_only_launches(shell),
        ActionModel::Back => lemma_back_presents_the_same(shell),
    }
}

proof fn lemma_crash_only_launches(shell: ShellModel, action: ActionModel)
    ensures
        only_launches(
            Presentation::Ready,
            shell.crash_step(action).0.session.presentation,
            shell.crash_step(action).1,
        ) || (shell.crash_step(action).0.session == shell.session && shell.crash_step(action).1
            is None),
{
    let ready = shell.focusing(shell.nav.launch_focus).readied().going(Route::Home);
    assert(ready.session.presentation == Presentation::Ready);
    lemma_activated_only_launches(ready);
}

/// The course of a session is the authority's: an input can start one by
/// launching, finish the first run and dismiss a crash, and changes nothing
/// else of what is presented.
pub proof fn law_sessions_belong_to_the_authority(shell: ShellModel, action: ActionModel)
    ensures
        ({
            let before = shell.session.presentation;
            let after = shell.step(action).0.session.presentation;
            if shell.step(action).1 matches Some(EffectModel::Launch { .. }) {
                after == Presentation::Starting
            } else {
                after == before || (after == Presentation::Ready && (before
                    == Presentation::FirstRun || before == Presentation::Crash))
            }
        }),
{
    let bumped = shell.bumped();
    if bumped.session.presentation.has_frame() && !(bumped.power.power_dialog is Confirm)
        && bumped.session.presentation != Presentation::FirstRun && !bumped.entering_secret()
        && !bumped.setting_clock() {
        if bumped.session.presentation == Presentation::Crash {
            lemma_crash_only_launches(bumped, action);
        } else {
            lemma_plain_only_launches(bumped, action);
        }
    }
}

/// A search never launches anything: what it finds is opened.
pub proof fn law_searches_open_and_never_launch(shell: ShellModel)
    requires
        shell.nav.route == Route::Search,
    ensures
        shell.activated().1 is None,
{
}

/// No input pins a variant: the choice between variants is made anew each time.
pub proof fn law_no_choice_is_kept(shell: ShellModel, action: ActionModel)
    ensures
        !pins(shell.step(action).1),
{
    lemma_modest_outside_questions(shell, action);
}

/// The four filters of the library form a ring.
pub proof fn law_filters_form_a_ring(filter: LibraryFilter)
    ensures
        filter.following().following().following().following() == filter,
        filter.following() != filter,
        filter.following().following() != filter,
        filter.following().following().following() != filter,
{
}

/// Going to the next room and back leads to the same room, and to the same
/// focus where it stood on a place that exists.
pub proof fn law_rooms_lead_back(shell: ShellModel)
    requires
        shell.ok(),
        shell.nav.route == Route::Home || shell.nav.route == Route::Library || shell.nav.route
            == Route::Settings,
        shell.nav.focus < shell.focus_count(),
    ensures
        shell.in_next_room().in_previous_room().nav.route == shell.nav.route,
        shell.in_next_room().in_previous_room().nav.focus == shell.nav.focus,
        shell.in_previous_room().in_next_room().nav.route == shell.nav.route,
        shell.in_previous_room().in_next_room().nav.focus == shell.nav.focus,
{
    assert(shell.nav.saved_focus.len() == 7 && 0 <= shell.nav.focus <= usize::MAX) by {
        reveal(ShellModel::ok);
    }
    if shell.nav.route != Route::Home {
        lemma_there_and_back(shell, Route::Home);
    }
    if shell.nav.route != Route::Library {
        lemma_there_and_back(shell, Route::Library);
    }
    if shell.nav.route != Route::Settings {
        lemma_there_and_back(shell, Route::Settings);
    }
}

proof fn lemma_there_and_back(shell: ShellModel, route: Route)
    requires
        shell.nav.saved_focus.len() == 7,
        0 <= shell.nav.focus <= usize::MAX,
        shell.nav.focus < shell.focus_count(),
        route != shell.nav.route,
        route != Route::Quick,
        shell.nav.route != Route::Quick,
    ensures
        shell.going(route).going(shell.nav.route).nav.route == shell.nav.route,
        shell.going(route).going(shell.nav.route).nav.focus == shell.nav.focus,
{
    let back = shell.going(route).leaving_for(shell.nav.route);
    assert(back.focus_count() == shell.focus_count());
    assert(back.nav.saved_focus[shell.nav.route.slot()] == shell.nav.focus as usize);
}

/// Closing the quick panel leads back to where it was opened, with the same
/// focus.
pub proof fn law_quick_panel_leads_back(shell: ShellModel)
    requires
        shell.ok(),
        shell.nav.route != Route::Quick,
        shell.nav.focus < shell.focus_count(),
    ensures
        shell.going(Route::Quick).back_step().nav.route == shell.nav.route,
        shell.going(Route::Quick).back_step().nav.focus == shell.nav.focus,
{
    assert(shell.nav.saved_focus.len() == 7 && 0 <= shell.nav.focus <= usize::MAX) by {
        reveal(ShellModel::ok);
    }
    let there = shell.going(Route::Quick);
    let back = there.leaving_for(shell.nav.route);
    assert(there.nav.previous_route == shell.nav.route);
    assert(back.focus_count() == shell.focus_count());
    assert(back.nav.saved_focus[shell.nav.route.slot()] == shell.nav.focus as usize);
}

proof fn lemma_name_gives_id(id: Text)
    ensures
        stripped("item-"@ + id, "item-"@) == Some(id),
{
    let name = "item-"@ + id;
    assert(name.take("item-"@.len() as int) =~= "item-"@);
    assert(name.skip("item-"@.len() as int) =~= id);
}

/// The titles that a route lists.
pub open spec fn listed_on(shell: ShellModel) -> Seq<usize> {
    match shell.nav.route {
        Route::Home => shelf(shell.titles.items),
        Route::Library => shell.titles.library_items,
        _ => shell.titles.search_results,
    }
}

proof fn lemma_listed_once(shell: ShellModel)
    requires
        shell.ok(),
    ensures
        listed_on(shell).no_duplicates(),
{
    reveal(ShellModel::ok);
    reveal(places_differ);
    lemma_shelf(shell.titles.items);
}

/// Whoever went to the details of a title comes back to the focus on that title.
proof fn lemma_back_to_the_focus(shell: ShellModel, item: int, there: ShellModel)
    requires
        shell.ok(),
        shell.nav.route == Route::Home || shell.nav.route == Route::Library || shell.nav.route
            == Route::Search,
        shell.focused_item() == Some(item),
        item_place(shell.titles.items, shell.titles.items[item].id, 0) == Some(item),
        there.titles == shell.titles,
        there.nav == shell.opening(Some(item), Route::Details).nav,
    ensures
        there.back_step().nav.route == shell.nav.route,
        there.back_step().nav.focus == shell.nav.focus,
        there.back_step().titles == shell.titles,
        there.back_step().focused_item() == Some(item),
{
    let id = shell.titles.items[item].id;
    lemma_name_gives_id(id);
    let selected = shell.selecting(Some(item));
    assert(selected.focused_item() == Some(item));
    assert(there.nav.caller_focus_id == Some("item-"@ + id));
    let list = listed_on(shell);
    let at = if shell.nav.route == Route::Library {
        shell.nav.focus - 5
    } else {
        shell.nav.focus
    };
    assert(0 <= at < list.len() && list[at] == item);
    lemma_place_on(list, item, 0);
    lemma_listed_once(shell);
    let found = place_on(list, item, 0);
    assert(list[found->0] == list[at]);
    assert(found == Some(at));
    assert(there.remembered_focus() == Some(shell.nav.focus));
}

/// Opening the details of a title and going back leads to the same title, on
/// the route that it was opened from, with the same focus. Where two titles
/// share an id, the first of them is meant.
pub proof fn law_details_lead_back_to_their_title(shell: ShellModel, item: int)
    requires
        shell.ok(),
        shell.nav.route == Route::Home || shell.nav.route == Route::Library || shell.nav.route
            == Route::Search,
        shell.focused_item() == Some(item),
        item_place(shell.titles.items, shell.titles.items[item].id, 0) == Some(item),
    ensures
        shell.opening(Some(item), Route::Details).back_step().nav.route == shell.nav.route,
        shell.opening(Some(item), Route::Details).back_step().nav.focus == shell.nav.focus,
        shell.opening(Some(item), Route::Details).back_step().focused_item() == Some(item),
{
    lemma_back_to_the_focus(shell, item, shell.opening(Some(item), Route::Details));
}

/// In the library and among the results of a search, activating a title opens
/// its details, and going back from there leads to where the focus was. Neither
/// asks for anything. Where two titles share an id, the first of them is meant.
pub proof fn law_back_undoes_opening_the_details(shell: ShellModel, item: int)
    requires
        shell.ok(),
        shell.session.presentation.has_frame(),
        shell.session.presentation != Presentation::FirstRun,
        shell.session.presentation != Presentation::Crash,
        shell.power.power_dialog == PowerDialog::Closed,
        shell.nav.route == Route::Library || shell.nav.route == Route::Search,
        shell.focused_item() == Some(item),
        item_place(shell.titles.items, shell.titles.items[item].id, 0) == Some(item),
    ensures
        ({
            let (there, opening) = shell.step(ActionModel::Activate);
            let (back, returning) = there.step(ActionModel::Back);
            &&& opening is None
            &&& there.nav.route == Route::Details
            &&& there.nav.selected_item == Some(item)
            &&& returning is None
            &&& back.nav.route == shell.nav.route
            &&& back.nav.focus == shell.nav.focus
            &&& back.focused_item() == Some(item)
        }),
{
    let bumped = shell.bumped();
    let there = shell.step(ActionModel::Activate).0;
    assert(bumped.focused_item() == Some(item));
    assert(there == bumped.opening(Some(item), Route::Details));
    assert(there.nav == shell.opening(Some(item), Route::Details).nav);
    lemma_back_to_the_focus(shell, item, there.bumped());
}

/// Setting the clock by hand asks for the instant that the picker shows, and
/// calling it off asks for nothing; either way the rows come back.
pub proof fn law_clock_is_set_to_what_is_shown(shell: ShellModel)
    requires
        shell.session.presentation.has_frame(),
        shell.session.presentation != Presentation::FirstRun,
        shell.power.power_dialog == PowerDialog::Closed,
        shell.setting_clock(),
    ensures
        shell.step(ActionModel::Activate).1 == Some(
            EffectModel::SetManualTime(shell.system.manual_time_picker.instant()),
        ),
        shell.step(ActionModel::Back).1 is None,
        shell.step(ActionModel::Activate).0.system.system_flow == SystemFlow::Rows,
        shell.step(ActionModel::Back).0.system.system_flow == SystemFlow::Rows,
{
}

/// A crash can always be dismissed: going back shows the home route, ready.
pub proof fn law_crashes_can_be_dismissed(shell: ShellModel)
    requires
        shell.session.presentation == Presentation::Crash,
        shell.power.power_dialog == PowerDialog::Closed,
        !shell.entering_secret(),
        !shell.setting_clock(),
    ensures
        shell.step(ActionModel::Back).0.session.presentation == Presentation::Ready,
        shell.step(ActionModel::Back).0.nav.route == Route::Home,
        shell.step(ActionModel::Back).1 is None,
{
}

} // verus!
