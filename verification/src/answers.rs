//! What the shell answers to inputs: where each one leads and what it asks for.

use crate::activation::Outcome;
use crate::calendar::{wrapped, ManualTimePicker};
use crate::catalog::VariantModel;
use crate::library::{lemma_shelf, library_order, shelf};
use crate::navigation::{ready_between, window_end, window_start};
use crate::ports::{ActionModel, AxisMove, PowerAction, Support};
use crate::state::{
    places_fit, EffectModel, IdleModel, LibraryFilter, NetworkFlow, PowerDialog, Presentation,
    Route, SettingsRoom, ShellModel, SystemFlow,
};
use crate::titles::ready_places;
use vstd::prelude::*;
use vstd::string::*;

verus! {

/// Whether the shell is on the screen with nothing in front of its routes: no
/// question, no first run, no crash and no entry of a secret or a time.
pub open spec fn at_ease(shell: ShellModel) -> bool {
    &&& shell.session.presentation != Presentation::Running
    &&& shell.session.presentation != Presentation::RecoveryRequired
    &&& shell.session.presentation != Presentation::FirstRun
    &&& shell.session.presentation != Presentation::Crash
    &&& shell.power.power_dialog == PowerDialog::Closed
    &&& !(shell.nav.route == Route::Settings && shell.settings.settings_room
        == SettingsRoom::Network && shell.network.network_flow == NetworkFlow::Credential)
    &&& !(shell.nav.route == Route::Settings && shell.settings.settings_room
        == SettingsRoom::System && shell.system.system_flow == SystemFlow::ManualTime)
}

proof fn lemma_at_ease(shell: ShellModel, action: ActionModel)
    requires
        at_ease(shell),
        action != ActionModel::Custom("SafeReturn"@),
    ensures
        shell.step(action) == shell.bumped().plain_step(action),
{
}

/// Whether the device says that it supports a power action.
pub open spec fn device_supports(shell: ShellModel, action: PowerAction) -> bool {
    exists|i: int|
        0 <= i < shell.power.power_capabilities.len() && (#[trigger] shell.power.power_capabilities[i]).action
            == action && shell.power.power_capabilities[i].support == Support::Supported
}

pub proof fn lemma_supports(shell: ShellModel, action: PowerAction)
    ensures
        shell.supports(action) == device_supports(shell, action),
        shell.bumped().supports(action) == device_supports(shell, action),
{
    let bumped = shell.bumped();
    assert(bumped.power == shell.power);
    if device_supports(shell, action) {
        let i = choose|i: int|
            0 <= i < shell.power.power_capabilities.len()
                && (#[trigger] shell.power.power_capabilities[i]).action == action
                && shell.power.power_capabilities[i].support == Support::Supported;
        assert(shell.power.power_capabilities[i].action == action);
        assert(bumped.power.power_capabilities[i].action == action);
    }
}

/// Whether the quick panel is open at a row.
pub open spec fn at_quick_row(shell: ShellModel, row: int) -> bool {
    at_ease(shell) && shell.nav.route == Route::Quick && shell.nav.focus == row
}

/// In the quick panel, powering off and restarting ask first: the question is
/// about the very action of the row and starts at the answer that calls it off.
/// What the device does not support does nothing.
pub proof fn law_quick_power_rows_ask_about_themselves(shell: ShellModel)
    ensures
        at_quick_row(shell, 2) ==> {
            let (after, effect) = shell.step(ActionModel::Activate);
            &&& effect is None
            &&& device_supports(shell, PowerAction::PowerOff) ==> after.power.power_dialog
                == PowerDialog::Confirm(PowerAction::PowerOff) && after.nav.focus == 0
            &&& !device_supports(shell, PowerAction::PowerOff) ==> after == shell.bumped()
        },
        at_quick_row(shell, 3) ==> {
            let (after, effect) = shell.step(ActionModel::Activate);
            &&& effect is None
            &&& device_supports(shell, PowerAction::Restart) ==> after.power.power_dialog
                == PowerDialog::Confirm(PowerAction::Restart) && after.nav.focus == 0
            &&& !device_supports(shell, PowerAction::Restart) ==> after == shell.bumped()
        },
{
    lemma_supports(shell, PowerAction::PowerOff);
    lemma_supports(shell, PowerAction::Restart);
    if at_ease(shell) {
        lemma_at_ease(shell, ActionModel::Activate);
    }
}

/// In the quick panel, the row that opens the library leads there, and the row
/// that sleeps asks the device to sleep without a question. Below it stand the
/// row of the idle policy, where it is known, and the row that takes a screenshot.
pub proof fn law_quick_rows_do_what_they_are_for(shell: ShellModel)
    ensures
        at_quick_row(shell, 1) ==> shell.step(ActionModel::Activate).0.nav.route == Route::Library
            && shell.step(ActionModel::Activate).1 is None,
        at_quick_row(shell, 4) && device_supports(shell, PowerAction::Sleep) ==> shell.step(
            ActionModel::Activate,
        ) == (shell.bumped(), Some(EffectModel::RequestPower(PowerAction::Sleep))),
        ({
            let idle: int = if device_supports(shell, PowerAction::Sleep) {
                5
            } else {
                4
            };
            let last = if shell.power.idle_policy_loaded {
                idle + 1
            } else {
                idle
            };
            &&& at_quick_row(shell, last) ==> shell.step(ActionModel::Activate) == (
                shell.bumped(),
                Some(EffectModel::CaptureScreenshot),
            )
            &&& at_quick_row(shell, idle) && shell.power.idle_policy_loaded ==> {
                let (after, effect) = shell.step(ActionModel::Activate);
                after == shell.bumped() && effect is Some && effect->0 is SetIdlePolicy
            }
            &&& shell.nav.route == Route::Quick ==> shell.focus_count() == last + 1
        }),
{
    lemma_supports(shell, PowerAction::Sleep);
    lemma_supports(shell, PowerAction::PowerOff);
    lemma_supports(shell, PowerAction::Restart);
    if at_ease(shell) {
        lemma_at_ease(shell, ActionModel::Activate);
    }
}

/// A span of whole minutes, in nanoseconds.
pub open spec fn minutes(count: nat) -> nat {
    count * 60_000_000_000
}

/// What activating the row of the idle policy asks for.
pub open spec fn asked_idle(shell: ShellModel) -> IdleModel {
    match shell.step(ActionModel::Activate).1 {
        Some(EffectModel::SetIdlePolicy { sleep_after, power_off_after }) => IdleModel {
            sleep_after,
            power_off_after,
        },
        _ => IdleModel { sleep_after: None, power_off_after: None },
    }
}

/// Whether the quick panel is open at the row of the idle policy.
pub open spec fn at_idle_row(shell: ShellModel) -> bool {
    &&& shell.power.idle_policy_loaded
    &&& at_quick_row(
        shell,
        if device_supports(shell, PowerAction::Sleep) {
            5
        } else {
            4
        },
    )
}

/// Activating the row of the idle policy goes through never, 5, 10 and 15 minutes
/// and back to never; any other span leads to never too. When the device powers
/// off is not touched.
pub proof fn law_idle_policies_form_a_ring(shell: ShellModel)
    requires
        at_idle_row(shell),
    ensures
        ({
            let now = shell.power.applied_idle_policy.sleep_after;
            let asked = asked_idle(shell);
            &&& now is None ==> asked.sleep_after == Some(minutes(5))
            &&& now == Some(minutes(5)) ==> asked.sleep_after == Some(minutes(10))
            &&& now == Some(minutes(10)) ==> asked.sleep_after == Some(minutes(15))
            &&& now == Some(minutes(15)) ==> asked.sleep_after is None
            &&& (now matches Some(span) && (span < minutes(5) || span >= minutes(11)))
                ==> asked.sleep_after is None
            &&& asked.power_off_after == shell.power.applied_idle_policy.power_off_after
        }),
{
    lemma_supports(shell, PowerAction::Sleep);
    lemma_at_ease(shell, ActionModel::Activate);
}

/// Whatever else the shell presents, a question is answered first. Confirmed, it
/// asks for the action that it was about and closes. Called off, by its first answer
/// or by going back, it asks for nothing, closes and leads back to the row that it
/// came from.
pub proof fn law_questions_are_answered(shell: ShellModel, power: PowerAction)
    requires
        shell.session.presentation != Presentation::Running,
        shell.session.presentation != Presentation::RecoveryRequired,
        shell.power.power_dialog == PowerDialog::Confirm(power),
    ensures
        ({
            let (sure, asked) = shell.step(ActionModel::Activate);
            let (back, nothing) = shell.step(ActionModel::Back);
            let row: int = match power {
                PowerAction::PowerOff => 2,
                PowerAction::Restart => 3,
                PowerAction::Sleep => if device_supports(shell, PowerAction::Sleep) {
                    4
                } else {
                    2
                },
            };
            &&& sure.power.power_dialog == PowerDialog::Closed
            &&& back.power.power_dialog == PowerDialog::Closed
            &&& shell.nav.focus == 1 ==> asked == Some(EffectModel::RequestPower(power))
            &&& shell.nav.focus == 0 ==> asked is None && sure.nav.focus == row
            &&& nothing is None
            &&& back.nav.focus == row
        }),
        shell.step(ActionModel::Move(AxisMove::Down)).0.nav.focus == 1,
        shell.step(ActionModel::Move(AxisMove::Right)).0.nav.focus == 1,
        shell.step(ActionModel::Move(AxisMove::Up)).0.nav.focus == 0,
        shell.step(ActionModel::Move(AxisMove::Left)).0.nav.focus == 0,
        shell.step(ActionModel::Move(AxisMove::Down)).0.power.power_dialog
            == PowerDialog::Confirm(power),
        shell.step(ActionModel::Move(AxisMove::Up)).0.power.power_dialog == PowerDialog::Confirm(
            power,
        ),
{
    lemma_supports(shell, PowerAction::Sleep);
}

/// Finishing the first run, by its button or by the last of its places, ends it,
/// and the places of the first run are walked one by one.
pub proof fn law_first_run_is_walked_and_finished(shell: ShellModel)
    requires
        shell.session.presentation == Presentation::FirstRun,
        shell.power.power_dialog == PowerDialog::Closed,
        shell.nav.focus >= 0,
    ensures
        ({
            let last = crate::actions::first_run_rows(
                shell.comfort.display_preferences,
            ).len() as int;
            let (done, told) = shell.step(ActionModel::Custom("Start"@));
            &&& told == Some(EffectModel::CompleteFirstRun)
            &&& done.session.presentation == Presentation::Ready
            &&& done.comfort.first_run_complete
            &&& done.nav.focus == 0
            &&& shell.nav.focus == last ==> shell.step(ActionModel::Activate) == shell.step(
                ActionModel::Custom("Start"@),
            )
            &&& shell.nav.focus < last ==> shell.step(
                ActionModel::Move(AxisMove::Down),
            ).0.nav.focus == shell.nav.focus + 1
            &&& shell.nav.focus == last ==> shell.step(
                ActionModel::Move(AxisMove::Down),
            ).0.nav.focus == last
            &&& shell.nav.focus > 0 ==> shell.step(ActionModel::Move(AxisMove::Up)).0.nav.focus
                == shell.nav.focus - 1
            &&& shell.nav.focus == 0 ==> shell.step(ActionModel::Move(AxisMove::Up)).0.nav.focus
                == 0
        }),
{
    reveal_strlit("Start");
    reveal_strlit("SafeReturn");
    assert("Start"@.len() != "SafeReturn"@.len());
}

/// Joining a network sends the secret that was entered to the network that was
/// chosen; going back sends nothing and leads back to the rows.
pub proof fn law_secrets_go_to_the_chosen_network(shell: ShellModel, place: int)
    requires
        shell.session.presentation != Presentation::Running,
        shell.session.presentation != Presentation::RecoveryRequired,
        shell.session.presentation != Presentation::FirstRun,
        shell.power.power_dialog == PowerDialog::Closed,
        shell.nav.route == Route::Settings,
        shell.settings.settings_room == SettingsRoom::Network,
        shell.network.network_flow == NetworkFlow::Credential,
        shell.network.selected_wifi == Some(place),
        0 <= place < shell.network.wifi_networks.len(),
    ensures
        shell.step(ActionModel::Activate).1 == Some(
            EffectModel::ConnectWifi {
                ssid: shell.network.wifi_networks[place].ssid,
                credential: shell.network.wifi_credential,
            },
        ),
        shell.step(ActionModel::Activate).0.network.network_flow == NetworkFlow::Credential,
        shell.step(ActionModel::Back).1 is None,
        shell.step(ActionModel::Back).0.network.network_flow == NetworkFlow::Rows,
        shell.step(ActionModel::Back).0.network.wifi_credential.len() == 0,
{
}

/// Turning a field of the picker moves it by one: the year from 1970 to 9999, the
/// month, the day of the month, the hour and the minute, each going round at its
/// ends. The other fields stay, but for a day that the month does not have.
pub proof fn law_fields_turn_by_one(set: ManualTimePicker)
    requires
        set.valid(),
    ensures
        ({
            let up = set.adjusted(1);
            let down = set.adjusted(-1);
            &&& up.field == set.field
            &&& down.field == set.field
            &&& set.field == 0 ==> {
                &&& up.year == (if set.year == 9999 {
                    1970
                } else {
                    set.year + 1
                })
                &&& down.year == (if set.year == 1970 {
                    9999
                } else {
                    set.year - 1
                })
                &&& up.month == set.month && up.hour == set.hour && up.minute == set.minute
            }
            &&& set.field == 1 ==> {
                &&& up.month == (if set.month == 12 {
                    1
                } else {
                    set.month + 1
                })
                &&& down.month == (if set.month == 1 {
                    12
                } else {
                    set.month - 1
                })
                &&& up.year == set.year && up.hour == set.hour && up.minute == set.minute
            }
            &&& set.field == 2 ==> {
                &&& set.day < 28 ==> up.day == set.day + 1
                &&& set.day > 1 ==> down.day == set.day - 1
                &&& (set.day == 31 ==> up.day == 1)
                &&& up.year == set.year && up.month == set.month && up.hour == set.hour
                    && up.minute == set.minute
            }
            &&& set.field == 3 ==> {
                &&& up == (ManualTimePicker {
                    hour: (if set.hour == 23 {
                        0
                    } else {
                        set.hour + 1
                    }) as u8,
                    ..set
                })
                &&& down.hour == (if set.hour == 0 {
                    23
                } else {
                    set.hour - 1
                })
            }
            &&& set.field == 4 ==> {
                &&& up == (ManualTimePicker {
                    minute: (if set.minute == 59 {
                        0
                    } else {
                        set.minute + 1
                    }) as u8,
                    ..set
                })
                &&& down.minute == (if set.minute == 0 {
                    59
                } else {
                    set.minute - 1
                })
            }
        }),
{
    let length = crate::calendar::month_length(set.year as int, set.month as int);
    assert(length == 28 || length == 29 || length == 30 || length == 31);
    lemma_one_step(set.year as int, 1970, 9999);
    lemma_one_step(set.month as int, 1, 12);
    lemma_one_step(set.day as int, 1, length);
    lemma_one_step(set.hour as int, 0, 23);
    lemma_one_step(set.minute as int, 0, 59);
}

proof fn lemma_one_step(value: int, min: int, max: int)
    requires
        min <= value <= max,
    ensures
        wrapped(value, 1, min, max) == (if value == max {
            min
        } else {
            value + 1
        }),
        wrapped(value, -1, min, max) == (if value == min {
            max
        } else {
            value - 1
        }),
{
    let size = max - min + 1;
    let start = value - min;
    if value == max {
        vstd::arithmetic::div_mod::lemma_mod_self_0(size);
    } else {
        vstd::arithmetic::div_mod::lemma_small_mod((start + 1) as nat, size as nat);
    }
    if value == min {
        vstd::arithmetic::div_mod::lemma_mod_multiples_vanish(-1, size - 1, size);
        vstd::arithmetic::div_mod::lemma_small_mod((size - 1) as nat, size as nat);
    } else {
        vstd::arithmetic::div_mod::lemma_small_mod((start - 1) as nat, size as nat);
    }
}

/// While the clock is set by hand, left and right go from field to field, and up
/// and down turn the field in focus by one.
pub proof fn law_the_picker_is_turned_field_by_field(shell: ShellModel)
    requires
        shell.session.presentation != Presentation::Running,
        shell.session.presentation != Presentation::RecoveryRequired,
        shell.session.presentation != Presentation::FirstRun,
        shell.power.power_dialog == PowerDialog::Closed,
        shell.nav.route == Route::Settings,
        shell.settings.settings_room == SettingsRoom::System,
        shell.system.system_flow == SystemFlow::ManualTime,
        shell.system.manual_time_picker.valid(),
    ensures
        ({
            let set = shell.system.manual_time_picker;
            let right = shell.step(ActionModel::Move(AxisMove::Right)).0.system.manual_time_picker;
            let left = shell.step(ActionModel::Move(AxisMove::Left)).0.system.manual_time_picker;
            let up = shell.step(ActionModel::Move(AxisMove::Up)).0.system.manual_time_picker;
            let down = shell.step(ActionModel::Move(AxisMove::Down)).0.system.manual_time_picker;
            &&& right.field == (if set.field < 4 {
                set.field + 1
            } else {
                4
            })
            &&& left.field == (if set.field > 0 {
                set.field - 1
            } else {
                0
            })
            &&& right == (ManualTimePicker { field: right.field, ..set })
            &&& left == (ManualTimePicker { field: left.field, ..set })
            &&& up.field == set.field
            &&& down.field == set.field
            &&& up == set.adjusted(1)
            &&& down == set.adjusted(-1)
        }),
{
}

/// A crash is left for home by its first place and by going back; its two places
/// are walked by any move.
pub proof fn law_crashes_lead_home(shell: ShellModel)
    requires
        shell.session.presentation == Presentation::Crash,
        shell.power.power_dialog == PowerDialog::Closed,
        shell.nav.route != Route::Settings,
    ensures
        shell.nav.focus == 0 ==> {
            let (after, effect) = shell.step(ActionModel::Activate);
            &&& effect is None
            &&& after.session.presentation == Presentation::Ready
            &&& after.nav.route == Route::Home
        },
        shell.step(ActionModel::Back).0.nav.route == Route::Home,
        shell.step(ActionModel::Back).0.session.presentation == Presentation::Ready,
        shell.step(ActionModel::Move(AxisMove::Down)).0.nav.focus == 1,
        shell.step(ActionModel::Move(AxisMove::Up)).0.nav.focus == 0,
        shell.step(ActionModel::Move(AxisMove::Down)).0.session.presentation
            == Presentation::Crash,
{
}

/// How many variants before a place can be launched.
pub open spec fn ready_before(variants: Seq<VariantModel>, place: int) -> int
    decreases place,
{
    if place <= 0 {
        0
    } else {
        ready_before(variants, place - 1) + (if variants[place - 1].availability is Ready {
            1int
        } else {
            0int
        })
    }
}

pub proof fn lemma_ready_counted(variants: Seq<VariantModel>, from: int, place: int)
    requires
        0 <= from <= place < variants.len(),
        variants[place].availability is Ready,
    ensures
        ({
            let ready = ready_places(variants, from);
            let number = ready_before(variants, place) - ready_before(variants, from);
            0 <= number < ready.len() && ready[number] == place
        }),
    decreases place - from,
{
    if from < place {
        lemma_ready_counted(variants, from + 1, place);
        if variants[from].availability is Ready {
            let rest = ready_places(variants, from + 1);
            let number = ready_before(variants, place) - ready_before(variants, from + 1);
            assert((seq![from] + rest)[number + 1] == rest[number]);
        }
    }
}

pub proof fn lemma_ready_total(variants: Seq<VariantModel>, from: int)
    requires
        0 <= from <= variants.len(),
    ensures
        ready_places(variants, from).len() == ready_before(variants, variants.len() as int)
            - ready_before(variants, from),
    decreases variants.len() - from,
{
    if from < variants.len() {
        lemma_ready_total(variants, from + 1);
    }
}

/// Whether a title starts: a variant of it is to be launched, and the shell keeps
/// where the focus is to stand afterwards, which is where the title was opened, or
/// at home the title's own place.
pub open spec fn starts(shell: ShellModel, outcome: Outcome, place: int, variant: int) -> bool {
    let item = shell.titles.items[place];
    &&& outcome.1 == Some(EffectModel::Launch { item_id: item.variants[variant].app_id })
    &&& outcome.0.session.presentation == Presentation::Starting
    &&& outcome.0.session.active_title == item.title
    &&& outcome.0.nav.launch_focus == (if shell.nav.caller_route == Route::Home {
        place
    } else {
        shell.nav.caller_focus
    })
    &&& outcome.0.nav.route == shell.nav.route
    &&& outcome.0.nav.focus == shell.nav.focus
}

/// At home, activating a card starts the title where just one of its variants can
/// be launched, and that one; it leads to the choice where several can, and to the
/// details where none can.
pub proof fn law_home_cards_start_or_lead_on(shell: ShellModel, variant: int)
    requires
        at_ease(shell),
        shell.titles.items.len() <= crate::state::most_items(),
        shell.nav.route == Route::Home,
        0 <= shell.nav.focus < shelf(shell.titles.items).len(),
    ensures
        ({
            let place = shelf(shell.titles.items)[shell.nav.focus] as int;
            let item = shell.titles.items[place];
            let count = ready_before(item.variants, item.variants.len() as int);
            let outcome = shell.step(ActionModel::Activate);
            &&& count == 1 && 0 <= variant < item.variants.len()
                && item.variants[variant].availability is Ready ==> starts(shell, outcome, place, variant)
            &&& count > 1 ==> outcome.1 is None && outcome.0.nav.route == Route::VariantChooser
                && outcome.0.nav.focus == 0 && outcome.0.nav.selected_item == Some(place)
            &&& count == 0 ==> outcome.1 is None && outcome.0.nav.route == Route::Details
                && outcome.0.nav.selected_item == Some(place)
        }),
{
    lemma_at_ease(shell, ActionModel::Activate);
    let bumped = shell.bumped();
    let place = shelf(shell.titles.items)[shell.nav.focus] as int;
    let item = shell.titles.items[place];
    lemma_shelf(shell.titles.items);
    reveal(places_fit);
    assert(0 <= place < shell.titles.items.len());
    lemma_ready_total(item.variants, 0);
    assert(bumped.focused_item() == Some(place));
    assert(bumped.plain_step(ActionModel::Activate) == bumped.home_activated());
    if 0 <= variant < item.variants.len() && item.variants[variant].availability is Ready {
        lemma_ready_counted(item.variants, 0, variant);
    }
}

/// In the choice of variants, the place in focus launches the variant before which
/// just as many others can be launched.
pub proof fn law_choices_launch_the_variant_in_focus(shell: ShellModel, place: int, variant: int)
    requires
        at_ease(shell),
        shell.nav.route == Route::VariantChooser,
        shell.nav.selected_item == Some(place),
        0 <= place < shell.titles.items.len(),
        0 <= variant < shell.titles.items[place].variants.len(),
        shell.titles.items[place].variants[variant].availability is Ready,
        shell.nav.focus == ready_before(shell.titles.items[place].variants, variant),
    ensures
        starts(shell, shell.step(ActionModel::Activate), place, variant),
{
    lemma_at_ease(shell, ActionModel::Activate);
    lemma_ready_counted(shell.titles.items[place].variants, 0, variant);
    let bumped = shell.bumped();
    assert(bumped.plain_step(ActionModel::Activate) == bumped.chooser_activated());
}

proof fn lemma_shown_counted(variants: Seq<VariantModel>, from: int, to: int, place: int)
    requires
        0 <= from <= place < to <= variants.len(),
        variants[place].availability is Ready,
    ensures
        ({
            let shown = ready_between(variants, from, to);
            let number = ready_before(variants, place) - ready_before(variants, from);
            0 <= number < shown.len() && shown[number] == place
        }),
    decreases place - from,
{
    if from < place {
        lemma_shown_counted(variants, from + 1, to, place);
        if variants[from].availability is Ready {
            let rest = ready_between(variants, from + 1, to);
            let number = ready_before(variants, place) - ready_before(variants, from + 1);
            assert((seq![from] + rest)[number + 1] == rest[number]);
        }
    }
}

/// In the details, a shown variant that can be launched is launched by its row.
pub proof fn law_rows_of_the_details_launch_their_variant(
    shell: ShellModel,
    place: int,
    variant: int,
)
    requires
        at_ease(shell),
        shell.nav.route == Route::Details,
        shell.nav.selected_item == Some(place),
        0 <= place < shell.titles.items.len(),
        0 <= window_start(shell.titles.items[place].variants) <= variant < window_end(
            shell.titles.items[place].variants,
        ) <= shell.titles.items[place].variants.len(),
        shell.titles.items[place].variants[variant].availability is Ready,
        shell.nav.focus == ready_before(shell.titles.items[place].variants, variant)
            - ready_before(
            shell.titles.items[place].variants,
            window_start(shell.titles.items[place].variants),
        ),
    ensures
        starts(shell, shell.step(ActionModel::Activate), place, variant),
{
    lemma_at_ease(shell, ActionModel::Activate);
    let variants = shell.titles.items[place].variants;
    lemma_shown_counted(variants, window_start(variants), window_end(variants), variant);
    let bumped = shell.bumped();
    assert(bumped.plain_step(ActionModel::Activate) == bumped.details_activated());
    assert(bumped.detail_rows() == ready_between(
        variants,
        window_start(variants),
        window_end(variants),
    ));
}

/// In the details, the place behind the shown rows starts the title where one
/// variant can be launched and leads to the choice where several can. The place
/// behind that one, or the first one where nothing can be launched, makes the
/// title a favorite, or no favorite where it is one.
pub proof fn law_details_play_and_pin(shell: ShellModel, place: int, variant: int)
    requires
        at_ease(shell),
        shell.nav.route == Route::Details,
        shell.nav.selected_item == Some(place),
        0 <= place < shell.titles.items.len(),
    ensures
        ({
            let item = shell.titles.items[place];
            let count = ready_before(item.variants, item.variants.len() as int);
            let rows = shell.detail_rows().len() as int;
            let outcome = shell.step(ActionModel::Activate);
            &&& count == 1 && shell.nav.focus == rows && 0 <= variant < item.variants.len()
                && item.variants[variant].availability is Ready ==> starts(shell, outcome, place, variant)
            &&& count > 1 && shell.nav.focus == rows ==> outcome.1 is None && outcome.0.nav.route
                == Route::VariantChooser && outcome.0.nav.focus == 0
            &&& shell.nav.focus == (if count > 0 {
                rows + 1
            } else {
                rows
            }) ==> outcome == (
                shell.bumped(),
                Some(EffectModel::ToggleFavorite { item_id: item.id, favorite: !item.favorite }),
            )
            &&& shell.focus_count() == (if count > 0 {
                rows + 2
            } else {
                rows + 1
            })
        }),
{
    lemma_at_ease(shell, ActionModel::Activate);
    let bumped = shell.bumped();
    let item = shell.titles.items[place];
    lemma_ready_total(item.variants, 0);
    assert(bumped.plain_step(ActionModel::Activate) == bumped.details_activated());
    assert(bumped.detail_rows() == shell.detail_rows());
    if 0 <= variant < item.variants.len() && item.variants[variant].availability is Ready {
        lemma_ready_counted(item.variants, 0, variant);
    }
}

/// In the library, the first place leads to the search, the next four list the
/// titles by last use, by the alphabet, the games and everything else, and a card
/// leads to the details of its title.
pub proof fn law_library_places_lead_where_they_say(shell: ShellModel)
    requires
        at_ease(shell),
        shell.nav.route == Route::Library,
        shell.nav.focus >= 0,
    ensures
        ({
            let (after, effect) = shell.step(ActionModel::Activate);
            let filter = if shell.nav.focus == 1 {
                LibraryFilter::Recent
            } else if shell.nav.focus == 2 {
                LibraryFilter::Alphabetical
            } else if shell.nav.focus == 3 {
                LibraryFilter::Games
            } else {
                LibraryFilter::EverythingElse
            };
            &&& effect is None
            &&& shell.nav.focus == 0 ==> after.nav.route == Route::Search
            &&& 1 <= shell.nav.focus <= 4 ==> {
                &&& after.nav == shell.nav
                &&& after.titles.library_filter == filter
                &&& after.titles.library_items == library_order(
                    shell.titles.items,
                    shell.titles.recent_use,
                    filter,
                )
            }
            &&& 5 <= shell.nav.focus < shell.titles.library_items.len() + 5 ==> {
                &&& after.nav.route == Route::Details
                &&& after.nav.selected_item == Some(
                    shell.titles.library_items[shell.nav.focus - 5] as int,
                )
            }
        }),
{
    lemma_at_ease(shell, ActionModel::Activate);
    let bumped = shell.bumped();
    assert(bumped.plain_step(ActionModel::Activate) == (
        bumped.library_activated(),
        None::<EffectModel>,
    ));
}

/// Among the results of a search, activating one leads to the details of its
/// title.
pub proof fn law_results_lead_to_their_details(shell: ShellModel)
    requires
        at_ease(shell),
        shell.nav.route == Route::Search,
        0 <= shell.nav.focus < shell.titles.search_results.len(),
    ensures
        shell.step(ActionModel::Activate).1 is None,
        shell.step(ActionModel::Activate).0.nav.route == Route::Details,
        shell.step(ActionModel::Activate).0.nav.selected_item == Some(
            shell.titles.search_results[shell.nav.focus] as int,
        ),
{
    lemma_at_ease(shell, ActionModel::Activate);
}

/// Going back leads from the library and from the rooms of the settings to home,
/// from the rows of a room to the rooms, from the choice of variants to the
/// details, from the quick panel to where it was opened, and from the details and
/// the search to where they were opened. It never leaves home.
pub proof fn law_back_leads_up(shell: ShellModel)
    requires
        at_ease(shell),
    ensures
        ({
            let (after, effect) = shell.step(ActionModel::Back);
            &&& effect is None
            &&& shell.nav.route == Route::Home ==> after == shell.bumped()
            &&& shell.nav.route == Route::Library ==> after.nav.route == Route::Home
            &&& shell.nav.route == Route::VariantChooser ==> after.nav.route == Route::Details
            &&& shell.nav.route == Route::Quick ==> after.nav.route == shell.nav.previous_route
            &&& shell.nav.route == Route::Details || shell.nav.route == Route::Search
                ==> after.nav.route == shell.nav.caller_route
            &&& shell.nav.route == Route::Settings && shell.settings.settings_in_rows
                ==> after.nav.route == Route::Settings && !after.settings.settings_in_rows
            &&& shell.nav.route == Route::Settings && !shell.settings.settings_in_rows
                ==> after.nav.route == Route::Home
        }),
{
    lemma_at_ease(shell, ActionModel::Back);
}

proof fn lemma_names_differ()
    ensures
        "Favorite"@ != "SafeReturn"@,
        "Search"@ != "SafeReturn"@,
        "Search.open"@ != "SafeReturn"@,
        "Filter.next"@ != "SafeReturn"@,
        "Room.next"@ != "SafeReturn"@,
        "Room.previous"@ != "SafeReturn"@,
        "Quick"@ != "SafeReturn"@,
        "Quick.open"@ != "SafeReturn"@,
        "Search"@ != "Favorite"@,
        "Search.open"@ != "Favorite"@,
        "Filter.next"@ != "Favorite"@,
        "Filter.next"@ != "Search"@,
        "Filter.next"@ != "Search.open"@,
        "Room.next"@ != "Favorite"@,
        "Room.next"@ != "Search"@,
        "Room.next"@ != "Search.open"@,
        "Room.next"@ != "Filter.next"@,
        "Room.previous"@ != "Favorite"@,
        "Room.previous"@ != "Search"@,
        "Room.previous"@ != "Search.open"@,
        "Room.previous"@ != "Filter.next"@,
        "Room.previous"@ != "Room.next"@,
        "Quick"@ != "Favorite"@,
        "Quick"@ != "Search"@,
        "Quick"@ != "Search.open"@,
        "Quick"@ != "Filter.next"@,
        "Quick"@ != "Room.next"@,
        "Quick"@ != "Room.previous"@,
        "Quick.open"@ != "Favorite"@,
        "Quick.open"@ != "Search"@,
        "Quick.open"@ != "Search.open"@,
        "Quick.open"@ != "Filter.next"@,
        "Quick.open"@ != "Room.next"@,
        "Quick.open"@ != "Room.previous"@,
        "Quick.open"@ != "Quick"@,
{
    reveal_strlit("Favorite");
    reveal_strlit("Search");
    reveal_strlit("Search.open");
    reveal_strlit("Filter.next");
    reveal_strlit("Room.next");
    reveal_strlit("Room.previous");
    reveal_strlit("Quick");
    reveal_strlit("Quick.open");
    reveal_strlit("SafeReturn");
    assert("Favorite"@[0] == 'F' && "Favorite"@[1] == 'a');
    assert("Search"@[0] == 'S' && "Search"@[1] == 'e');
    assert("Search.open"@[0] == 'S' && "Search.open"@[1] == 'e');
    assert("Filter.next"@[0] == 'F' && "Filter.next"@[1] == 'i');
    assert("Room.next"@[0] == 'R');
    assert("Room.previous"@[0] == 'R');
    assert("Quick"@[0] == 'Q');
    assert("Quick.open"@[0] == 'Q');
    assert("SafeReturn"@[0] == 'S' && "SafeReturn"@[1] == 'a');
    assert("Room.previous"@.len() != "Room.next"@.len());
    assert("Quick.open"@.len() != "Quick"@.len());
}

/// The buttons of the shell: one leads to the search, one to the next filter of
/// the library, two around the rooms, one to the quick panel, and one makes the
/// title in focus a favorite, or no favorite where it is one. In the details the
/// button of the quick panel does that too.
pub proof fn law_buttons_do_what_they_are_called(shell: ShellModel)
    requires
        at_ease(shell),
    ensures
        shell.step(ActionModel::Custom("Search"@)).0.nav.route == Route::Search,
        shell.step(ActionModel::Custom("Search.open"@)).0.nav.route == Route::Search,
        shell.step(ActionModel::Custom("Search"@)).0.nav.caller_route == shell.nav.route,
        shell.step(ActionModel::Custom("Search"@)).0.nav.caller_focus == shell.nav.focus,
        shell.step(ActionModel::Custom("Quick.open"@)).0.nav.route == Route::Quick,
        shell.step(ActionModel::Custom("Quick.open"@)).0.nav.previous_route == shell.nav.route,
        shell.nav.route != Route::Details ==> shell.step(
            ActionModel::Custom("Quick"@),
        ).0.nav.route == Route::Quick,
        ({
            let next = shell.step(ActionModel::Custom("Room.next"@)).0.nav.route;
            let previous = shell.step(ActionModel::Custom("Room.previous"@)).0.nav.route;
            match shell.nav.route {
                Route::Home => next == Route::Library && previous == Route::Settings,
                Route::Library => next == Route::Settings && previous == Route::Home,
                Route::Settings => next == Route::Home && previous == Route::Library,
                _ => next == shell.nav.route && previous == shell.nav.route,
            }
        }),
        shell.nav.route == Route::Library ==> {
            let after = shell.step(ActionModel::Custom("Filter.next"@)).0;
            let filter = match shell.titles.library_filter {
                LibraryFilter::Recent => LibraryFilter::Alphabetical,
                LibraryFilter::Alphabetical => LibraryFilter::Games,
                LibraryFilter::Games => LibraryFilter::EverythingElse,
                LibraryFilter::EverythingElse => LibraryFilter::Recent,
            };
            &&& after.titles.library_filter == filter
            &&& after.titles.library_items == library_order(
                shell.titles.items,
                shell.titles.recent_use,
                filter,
            )
            &&& after.nav.route == Route::Library
            &&& after.nav.focus == (if shell.nav.focus <= after.titles.library_items.len() + 4 {
                shell.nav.focus
            } else {
                after.titles.library_items.len() as int + 4
            })
        },
        shell.focused_item() matches Some(item) ==> {
            let asked = Some(
                EffectModel::ToggleFavorite {
                    item_id: shell.titles.items[item].id,
                    favorite: !shell.titles.items[item].favorite,
                },
            );
            &&& shell.step(ActionModel::Custom("Favorite"@)) == (shell.bumped(), asked)
            &&& shell.nav.route == Route::Details ==> shell.step(ActionModel::Custom("Quick"@)) == (
                shell.bumped(),
                asked,
            )
        },
        shell.focused_item() is None ==> shell.step(ActionModel::Custom("Favorite"@)) == (
            shell.bumped(),
            None::<EffectModel>,
        ),
{
    lemma_names_differ();
    lemma_at_ease(shell, ActionModel::Custom("Search"@));
    lemma_at_ease(shell, ActionModel::Custom("Search.open"@));
    lemma_at_ease(shell, ActionModel::Custom("Quick"@));
    lemma_at_ease(shell, ActionModel::Custom("Quick.open"@));
    lemma_at_ease(shell, ActionModel::Custom("Room.next"@));
    lemma_at_ease(shell, ActionModel::Custom("Room.previous"@));
    lemma_at_ease(shell, ActionModel::Custom("Filter.next"@));
    lemma_at_ease(shell, ActionModel::Custom("Favorite"@));
    assert(shell.bumped().focused_item() == shell.focused_item());
}

/// What has the focus: a card of the library, a result of the search, a card of
/// the shelf, or the title that was opened.
pub proof fn law_the_focus_is_on_what_is_listed(shell: ShellModel)
    requires
        shell.nav.focus >= 0,
    ensures
        shell.nav.route == Route::Library && 5 <= shell.nav.focus
            < shell.titles.library_items.len() + 5 ==> shell.focused_item() == Some(
            shell.titles.library_items[shell.nav.focus - 5] as int,
        ),
        shell.nav.route == Route::Library && shell.nav.focus < 5 ==> shell.focused_item() is None,
        shell.nav.route == Route::Search && shell.nav.focus < shell.titles.search_results.len()
            ==> shell.focused_item() == Some(
            shell.titles.search_results[shell.nav.focus] as int,
        ),
        shell.nav.route == Route::Home && shell.nav.focus < shelf(shell.titles.items).len()
            ==> shell.focused_item() == Some(shelf(shell.titles.items)[shell.nav.focus] as int),
        shell.nav.route == Route::Details || shell.nav.route == Route::VariantChooser
            ==> shell.focused_item() == shell.nav.selected_item,
        shell.nav.route == Route::Settings || shell.nav.route == Route::Quick
            ==> shell.focused_item() is None,
{
}

/// From a crash at home, opening again does what activating the card at the place
/// of the launch does: where just one of its variants can be launched, that one
/// starts.
pub proof fn law_crashed_titles_can_be_opened_again(shell: ShellModel, variant: int)
    requires
        shell.session.presentation == Presentation::Crash,
        shell.power.power_dialog == PowerDialog::Closed,
        shell.nav.route == Route::Home,
        shell.nav.focus == 1,
        shell.nav.saved_focus.len() == 7,
        shell.titles.items.len() <= crate::state::most_items(),
        0 <= shell.nav.launch_focus < shelf(shell.titles.items).len(),
    ensures
        ({
            let place = shelf(shell.titles.items)[shell.nav.launch_focus] as int;
            let item = shell.titles.items[place];
            let (after, effect) = shell.step(ActionModel::Activate);
            ready_before(item.variants, item.variants.len() as int) == 1 && 0 <= variant
                < item.variants.len() && item.variants[variant].availability is Ready ==> {
                &&& effect == Some(
                    EffectModel::Launch { item_id: item.variants[variant].app_id },
                )
                &&& after.session.presentation == Presentation::Starting
                &&& after.session.active_title == item.title
            }
        }),
{
    let focus = shell.nav.launch_focus;
    let place = shelf(shell.titles.items)[focus] as int;
    let item = shell.titles.items[place];
    lemma_shelf(shell.titles.items);
    lemma_ready_total(item.variants, 0);
    if 0 <= variant < item.variants.len() && item.variants[variant].availability is Ready {
        lemma_ready_counted(item.variants, 0, variant);
    }
    let bumped = shell.bumped();
    let home = bumped.focusing(focus).readied().going(Route::Home);
    assert(home.nav.focus == focus);
    assert(home.focused_item() == Some(place));
    assert(shell.step(ActionModel::Activate) == home.activated());
    assert(home.activated() == home.home_activated());
}

/// In the room of the system, the row of the recovery asks for it.
pub proof fn law_recovery_is_asked_for_by_its_row(shell: ShellModel)
    requires
        at_ease(shell),
        shell.nav.route == Route::Settings,
        shell.settings.settings_room == SettingsRoom::System,
        shell.settings.settings_in_rows,
        shell.settings.settings_row_focused,
        shell.session.recovery_available,
        shell.nav.focus == 3,
    ensures
        shell.step(ActionModel::Activate) == (shell.bumped(), Some(EffectModel::EnterRecovery)),
{
    lemma_at_ease(shell, ActionModel::Activate);
}

/// The first row of the quick panel does what closing the panel and activating
/// there does.
pub proof fn law_quick_opens_what_was_in_focus(shell: ShellModel)
    requires
        at_quick_row(shell, 0),
        shell.nav.previous_route == Route::Home || shell.nav.previous_route == Route::Library
            || shell.nav.previous_route == Route::Search || shell.nav.previous_route
            == Route::Details || shell.nav.previous_route == Route::VariantChooser,
    ensures
        ({
            let closed = shell.step(ActionModel::Back).0;
            let (after, effect) = shell.step(ActionModel::Activate);
            let (other, same) = closed.step(ActionModel::Activate);
            &&& effect == same
            &&& after.nav == other.nav
            &&& after.session == other.session
            &&& after.titles == other.titles
        }),
{
    lemma_at_ease(shell, ActionModel::Back);
    lemma_at_ease(shell, ActionModel::Activate);
    let closed = shell.step(ActionModel::Back).0;
    lemma_at_ease(closed, ActionModel::Activate);
    let bumped = shell.bumped();
    assert(closed == bumped.going(shell.nav.previous_route));
    assert(closed.bumped().plain_step(ActionModel::Activate) == closed.bumped().place_activated());
    lemma_revision_does_not_matter(closed);
}

proof fn lemma_revision_does_not_matter(shell: ShellModel)
    requires
        shell.nav.route == Route::Home || shell.nav.route == Route::Library || shell.nav.route
            == Route::Search || shell.nav.route == Route::Details || shell.nav.route
            == Route::VariantChooser,
    ensures
        shell.bumped().place_activated().1 == shell.place_activated().1,
        shell.bumped().place_activated().0.nav == shell.place_activated().0.nav,
        shell.bumped().place_activated().0.session == shell.place_activated().0.session,
        shell.bumped().place_activated().0.titles == shell.place_activated().0.titles,
{
    let bumped = shell.bumped();
    assert(bumped.focused_item() == shell.focused_item());
    assert(bumped.detail_rows() == shell.detail_rows());
    assert(bumped.pin_focus() == shell.pin_focus());
    assert(bumped.focus_name() == shell.focus_name());
}

/// Where the title that details were opened from has vanished from its list, going
/// back leads to the nearest place that there still is.
pub proof fn law_back_leads_near_what_vanished(shell: ShellModel)
    requires
        at_ease(shell),
        shell.nav.route == Route::Details,
        shell.nav.caller_focus_id is None,
        shell.nav.caller_focus >= 0,
    ensures
        ({
            let focus = shell.step(ActionModel::Back).0.nav.focus;
            let was = shell.nav.caller_focus;
            let cards = shell.titles.library_items.len();
            let results = shell.titles.search_results.len();
            &&& shell.nav.caller_route == Route::Library && cards > 0 ==> {
                &&& was < 5 ==> focus == 5
                &&& 5 <= was < cards + 5 ==> focus == was
                &&& was >= cards + 5 ==> focus == cards + 4
            }
            &&& shell.nav.caller_route == Route::Search && results > 0 ==> {
                &&& was < results ==> focus == was
                &&& was >= results ==> focus == results - 1
            }
        }),
{
    lemma_at_ease(shell, ActionModel::Back);
}

} // verus!
