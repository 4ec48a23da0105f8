//! What the preferences of the user come to: what a report of one does, and what
//! activating its row asks for.

use crate::actions::first_run_rows;
use crate::activation::next_value;
use crate::figures::law_text_size_is_what_the_percents_say;
use crate::ports::{ActionModel, Base, PreferenceReads, ReportModel, ValueModel};
use crate::preferences::{
    comfort_with, lemma_row_place, preference_words, read_model, row_place, scale_of, spoken_value,
};
use crate::state::{
    ComfortModel, EffectModel, PowerDialog, PreferenceModel, Presentation, Route, SettingsRoom,
    ShellModel,
};
use crate::text::{decimal_text, signed_text, Text};
use vstd::prelude::*;
use vstd::string::*;

verus! {

proof fn lemma_keys_differ()
    ensures
        "highContrast"@ != "reduceMotion"@,
        "highContrast"@ != "reduceFlashing"@,
        "highContrast"@ != "textScale"@,
        "highContrast"@ != "appearance"@,
        "reduceMotion"@ != "reduceFlashing"@,
        "reduceMotion"@ != "textScale"@,
        "reduceMotion"@ != "appearance"@,
        "reduceFlashing"@ != "textScale"@,
        "reduceFlashing"@ != "appearance"@,
        "textScale"@ != "appearance"@,
{
    reveal_strlit("highContrast");
    reveal_strlit("reduceMotion");
    reveal_strlit("reduceFlashing");
    reveal_strlit("textScale");
    reveal_strlit("appearance");
    assert("highContrast"@[0] == 'h');
    assert("reduceMotion"@[0] == 'r');
    assert("reduceMotion"@[6] == 'M');
    assert("reduceFlashing"@[0] == 'r');
    assert("reduceFlashing"@[6] == 'F');
    assert("textScale"@[0] == 't');
    assert("appearance"@[0] == 'a');
}

/// Whether a report is one of a preference that was applied.
pub open spec fn applies(report: ReportModel, key: Text, value: ValueModel) -> bool {
    report.applied && report.key == key && report.effective == value
}

/// Once the appearance is applied, the shell has it, whatever it was before:
/// `Day` is day and any other word dusk. Nothing else that is in effect changes.
pub proof fn law_applied_appearance_decides(shell: ShellModel, report: ReportModel, word: Text)
    requires
        applies(report, "appearance"@, ValueModel::Text(word)),
    ensures
        ({
            let after = shell.with_preference(report).comfort;
            &&& after.appearance_day == (word == "Day"@)
            &&& after.high_contrast == shell.comfort.high_contrast
            &&& after.reduced_motion == shell.comfort.reduced_motion
            &&& after.motion_ms == shell.comfort.motion_ms
            &&& after.reduce_flashing == shell.comfort.reduce_flashing
            &&& after.text_scale == shell.comfort.text_scale
            &&& after.first_run_complete == shell.comfort.first_run_complete
        }),
{
    lemma_keys_differ();
    reveal(comfort_with);
}

/// Once high contrast is applied, the shell has it just as it was reported,
/// whatever it was before, and nothing else that is in effect changes.
pub proof fn law_applied_contrast_decides(shell: ShellModel, report: ReportModel, on: bool)
    requires
        applies(report, "highContrast"@, ValueModel::Bool(on)),
    ensures
        ({
            let after = shell.with_preference(report).comfort;
            &&& after.high_contrast == on
            &&& after.appearance_day == shell.comfort.appearance_day
            &&& after.reduced_motion == shell.comfort.reduced_motion
            &&& after.motion_ms == shell.comfort.motion_ms
            &&& after.reduce_flashing == shell.comfort.reduce_flashing
            &&& after.text_scale == shell.comfort.text_scale
            &&& after.first_run_complete == shell.comfort.first_run_complete
        }),
{
    lemma_keys_differ();
    reveal(comfort_with);
}

/// Once reduced motion is applied, motion is reduced where the report or the
/// environment asks for it, whatever it was before. Reduced motion takes no time,
/// other motion the time that the theme gives it. Nothing else changes.
pub proof fn law_applied_motion_decides(shell: ShellModel, report: ReportModel, on: bool)
    requires
        applies(report, "reduceMotion"@, ValueModel::Bool(on)),
    ensures
        ({
            let after = shell.with_preference(report).comfort;
            &&& after.reduced_motion == (on || shell.comfort.env_reduced_motion)
            &&& after.reduced_motion ==> after.motion_ms == 0
            &&& !after.reduced_motion ==> after.motion_ms == shell.comfort.normal_motion_ms
            &&& after.high_contrast == shell.comfort.high_contrast
            &&& after.appearance_day == shell.comfort.appearance_day
            &&& after.reduce_flashing == shell.comfort.reduce_flashing
            &&& after.text_scale == shell.comfort.text_scale
            &&& after.first_run_complete == shell.comfort.first_run_complete
        }),
{
    lemma_keys_differ();
    reveal(comfort_with);
}

/// Once reduced flashing is applied, the shell has it just as it was reported,
/// whatever it was before, and nothing else that is in effect changes.
pub proof fn law_applied_flashing_decides(shell: ShellModel, report: ReportModel, on: bool)
    requires
        applies(report, "reduceFlashing"@, ValueModel::Bool(on)),
    ensures
        ({
            let after = shell.with_preference(report).comfort;
            &&& after.reduce_flashing == on
            &&& after.high_contrast == shell.comfort.high_contrast
            &&& after.appearance_day == shell.comfort.appearance_day
            &&& after.reduced_motion == shell.comfort.reduced_motion
            &&& after.motion_ms == shell.comfort.motion_ms
            &&& after.text_scale == shell.comfort.text_scale
            &&& after.first_run_complete == shell.comfort.first_run_complete
        }),
{
    lemma_keys_differ();
    reveal(comfort_with);
}

/// Once a size of the text is applied, the text has it, whatever it was before,
/// between a hundred and two hundred percent. Nothing else that is in effect
/// changes.
pub proof fn law_applied_text_size_decides(shell: ShellModel, report: ReportModel, percent: nat)
    requires
        percent < 65_536,
        applies(report, "textScale"@, ValueModel::Text(decimal_text(percent) + "%"@)),
    ensures
        ({
            let after = shell.with_preference(report).comfort;
            &&& 100 <= percent <= 200 ==> after.text_scale == percent
            &&& percent < 100 ==> after.text_scale == 100
            &&& percent > 200 ==> after.text_scale == 200
            &&& after.high_contrast == shell.comfort.high_contrast
            &&& after.appearance_day == shell.comfort.appearance_day
            &&& after.reduced_motion == shell.comfort.reduced_motion
            &&& after.motion_ms == shell.comfort.motion_ms
            &&& after.reduce_flashing == shell.comfort.reduce_flashing
            &&& after.first_run_complete == shell.comfort.first_run_complete
        }),
{
    lemma_keys_differ();
    reveal(comfort_with);
    law_text_size_is_what_the_percents_say(percent);
}

/// A report changes the preferences and the revision and nothing else. Reports of
/// what the shell does not know, and values of the wrong type, change nothing of
/// what is in effect.
pub proof fn law_reports_touch_preferences_alone(shell: ShellModel, report: ReportModel)
    ensures
        ({
            let after = shell.with_preference(report);
            &&& after.nav == shell.nav
            &&& after.titles == shell.titles
            &&& after.session == shell.session
            &&& after.settings == shell.settings
            &&& after.power == shell.power
            &&& after.network == shell.network
            &&& after.system == shell.system
            &&& after.comfort.first_run_complete == shell.comfort.first_run_complete
            &&& after.comfort.display_preferences.len()
                == shell.comfort.display_preferences.len()
            &&& report.effective is Integer ==> after.comfort == (ComfortModel {
                display_preferences: after.comfort.display_preferences,
                ..shell.comfort
            })
            &&& (report.key != "highContrast"@ && report.key != "reduceMotion"@ && report.key
                != "reduceFlashing"@ && report.key != "textScale"@ && report.key != "appearance"@)
                ==> after.comfort == (ComfortModel {
                display_preferences: after.comfort.display_preferences,
                ..shell.comfort
            })
        }),
{
    reveal(comfort_with);
    lemma_row_place(shell.comfort.display_preferences, report.key, 0);
}

/// After an applied report, the first row of that preference shows the reported
/// value and can be changed. The other rows stay as they are.
pub proof fn law_applied_reports_reach_their_row(
    shell: ShellModel,
    report: ReportModel,
    place: int,
    other: int,
)
    requires
        report.applied,
        0 <= place < shell.comfort.display_preferences.len(),
        shell.comfort.display_preferences[place].key == report.key,
        forall|i: int|
            0 <= i < place ==> (#[trigger] shell.comfort.display_preferences[i]).key
                != report.key,
        0 <= other < shell.comfort.display_preferences.len(),
        other != place,
    ensures
        ({
            let before = shell.comfort.display_preferences;
            let after = shell.with_preference(report).comfort.display_preferences;
            &&& after[place].effective == report.effective
            &&& after[place].interactive
            &&& after[place].key == before[place].key
            &&& after[place].label == before[place].label
            &&& after[other] == before[other]
        }),
{
    reveal(comfort_with);
    let rows = shell.comfort.display_preferences;
    lemma_row_found(rows, report.key, 0, place);
}

proof fn lemma_row_found(rows: Seq<PreferenceModel>, key: Text, from: int, place: int)
    requires
        0 <= from <= place < rows.len(),
        rows[place].key == key,
        forall|i: int| 0 <= i < place ==> (#[trigger] rows[i]).key != key,
    ensures
        row_place(rows, key, from) == Some(place),
    decreases place - from,
{
    if from < place {
        lemma_row_found(rows, key, from + 1, place);
    }
}

/// High contrast goes before the appearance, and the appearance is day or dusk.
pub proof fn law_contrast_goes_before_the_appearance(shell: ShellModel)
    ensures
        shell.comfort.high_contrast ==> shell.base() == Base::HighContrast,
        !shell.comfort.high_contrast && shell.comfort.appearance_day ==> shell.base() == Base::Day,
        !shell.comfort.high_contrast && !shell.comfort.appearance_day ==> shell.base()
            == Base::Dusk,
{
}

/// Whether the settings are open at a row of a room, with nothing in front.
pub open spec fn at_row(shell: ShellModel, room: SettingsRoom, place: int) -> bool {
    &&& shell.session.presentation == Presentation::Ready
    &&& shell.power.power_dialog == PowerDialog::Closed
    &&& shell.nav.route == Route::Settings
    &&& shell.settings.settings_room == room
    &&& shell.settings.settings_in_rows
    &&& shell.settings.settings_row_focused
    &&& shell.nav.focus == place
}

/// The state after the row in focus was activated and the preference service
/// applied just what was asked for.
pub open spec fn granted(shell: ShellModel) -> ShellModel {
    let (after, effect) = shell.step(ActionModel::Activate);
    match effect {
        Some(EffectModel::ChangePreference { key, value, authority }) => after.with_preference(
            ReportModel { key, effective: value, applied: true },
        ),
        _ => after,
    }
}

/// Whether the row in focus is that of a preference, shows a value and can be
/// changed.
pub open spec fn at_preference(shell: ShellModel, place: int, key: Text, value: ValueModel) -> bool {
    let rows = shell.comfort.display_preferences;
    &&& at_row(shell, SettingsRoom::Accessibility, place)
    &&& 0 <= place < rows.len()
    &&& place <= usize::MAX
    &&& rows[place].key == key
    &&& rows[place].effective == value
    &&& rows[place].interactive
    &&& forall|i: int| 0 <= i < place ==> (#[trigger] rows[i]).key != key
}

proof fn lemma_row_activated(shell: ShellModel, room: SettingsRoom, place: int)
    requires
        at_row(shell, room, place),
        room == SettingsRoom::Accessibility || room == SettingsRoom::Display,
    ensures
        shell.step(ActionModel::Activate) == (shell.bumped(), shell.bumped().settings_request()),
{
    let bumped = shell.bumped();
    assert(bumped.plain_step(ActionModel::Activate) == bumped.activated());
    assert(bumped.activated() == bumped.place_activated());
}

proof fn lemma_reported(shell: ShellModel, place: int, key: Text, value: ValueModel, asked: ValueModel)
    requires
        at_preference(shell, place, key, value),
    ensures
        at_preference(
            shell.bumped().with_preference(
                ReportModel { key, effective: asked, applied: true },
            ),
            place,
            key,
            asked,
        ),
{
    let report = ReportModel { key, effective: asked, applied: true };
    let rows = shell.comfort.display_preferences;
    lemma_row_found(rows, key, 0, place);
    reveal(comfort_with);
    let now = shell.bumped().with_preference(report).comfort.display_preferences;
    assert(now == rows.update(
        place,
        PreferenceModel { effective: asked, interactive: true, ..rows[place] },
    ));
    assert forall|i: int| 0 <= i < place implies (#[trigger] now[i]).key != key by {
        assert(now[i] == rows[i]);
    }
}

proof fn lemma_granted(shell: ShellModel, place: int, key: Text, value: ValueModel)
    requires
        at_preference(shell, place, key, value),
    ensures
        shell.step(ActionModel::Activate) == (
            shell.bumped(),
            Some(
                EffectModel::ChangePreference {
                    key,
                    value: next_value(value),
                    authority: "user"@,
                },
            ),
        ),
        granted(shell) == shell.bumped().with_preference(
            ReportModel { key, effective: next_value(value), applied: true },
        ),
        at_preference(granted(shell), place, key, next_value(value)),
{
    lemma_row_activated(shell, SettingsRoom::Accessibility, place);
    lemma_reported(shell, place, key, value, next_value(value));
}

/// Activating the row of the size of the text again and again, each time getting
/// what was asked for, goes from 100% to 150%, to 200% and back to 100%. What is
/// asked for in between is the user's wish for that very preference.
pub proof fn law_text_sizes_form_a_ring(shell: ShellModel, place: int)
    requires
        at_preference(shell, place, "textScale"@, ValueModel::Text("100%"@)),
    ensures
        shell.step(ActionModel::Activate).1 == Some(
            EffectModel::ChangePreference {
                key: "textScale"@,
                value: ValueModel::Text("150%"@),
                authority: "user"@,
            },
        ),
        granted(shell).step(ActionModel::Activate).1 == Some(
            EffectModel::ChangePreference {
                key: "textScale"@,
                value: ValueModel::Text("200%"@),
                authority: "user"@,
            },
        ),
        granted(granted(shell)).step(ActionModel::Activate).1 == Some(
            EffectModel::ChangePreference {
                key: "textScale"@,
                value: ValueModel::Text("100%"@),
                authority: "user"@,
            },
        ),
        at_preference(
            granted(granted(granted(shell))),
            place,
            "textScale"@,
            ValueModel::Text("100%"@),
        ),
        granted(shell).comfort.text_scale == 150,
        granted(granted(shell)).comfort.text_scale == 200,
        granted(granted(granted(shell))).comfort.text_scale == 100,
{
    lemma_sizes();
    let once = granted(shell);
    let twice = granted(once);
    lemma_granted(shell, place, "textScale"@, ValueModel::Text("100%"@));
    lemma_granted(once, place, "textScale"@, ValueModel::Text("150%"@));
    lemma_granted(twice, place, "textScale"@, ValueModel::Text("200%"@));
    lemma_keys_differ();
    reveal(comfort_with);
    law_text_size_is_what_the_percents_say(100);
    law_text_size_is_what_the_percents_say(150);
    law_text_size_is_what_the_percents_say(200);
}

proof fn lemma_sizes()
    ensures
        "100%"@ != "150%"@,
        "150%"@ != "200%"@,
        "100%"@ != "200%"@,
        "100%"@ == decimal_text(100) + "%"@,
        "150%"@ == decimal_text(150) + "%"@,
        "200%"@ == decimal_text(200) + "%"@,
{
    reveal_strlit("100%");
    reveal_strlit("150%");
    reveal_strlit("200%");
    reveal_strlit("%");
    assert("100%"@[1] == '0');
    assert("150%"@[1] == '5');
    assert("100%"@[0] == '1');
    assert("150%"@[0] == '1');
    assert("200%"@[0] == '2');
    reveal_with_fuel(decimal_text, 4);
    assert(decimal_text(100) =~= seq!['1', '0', '0']);
    assert(decimal_text(150) =~= seq!['1', '5', '0']);
    assert(decimal_text(200) =~= seq!['2', '0', '0']);
    assert("100%"@ =~= decimal_text(100) + "%"@);
    assert("150%"@ =~= decimal_text(150) + "%"@);
    assert("200%"@ =~= decimal_text(200) + "%"@);
}

/// Whatever size the row shows but 100% and 150%, activating it asks for 100%.
pub proof fn law_other_text_sizes_lead_to_the_first(shell: ShellModel, place: int, word: Text)
    requires
        at_preference(shell, place, "textScale"@, ValueModel::Text(word)),
        word != "100%"@,
        word != "150%"@,
    ensures
        shell.step(ActionModel::Activate).1 == Some(
            EffectModel::ChangePreference {
                key: "textScale"@,
                value: ValueModel::Text("100%"@),
                authority: "user"@,
            },
        ),
{
    lemma_granted(shell, place, "textScale"@, ValueModel::Text(word));
}

/// Activating the row of a switch asks for the other position, and activating it
/// again, once that was applied, asks for the first one.
pub proof fn law_switches_switch(shell: ShellModel, place: int, key: Text, on: bool)
    requires
        at_preference(shell, place, key, ValueModel::Bool(on)),
    ensures
        shell.step(ActionModel::Activate).1 == Some(
            EffectModel::ChangePreference {
                key,
                value: ValueModel::Bool(!on),
                authority: "user"@,
            },
        ),
        granted(shell).step(ActionModel::Activate).1 == Some(
            EffectModel::ChangePreference { key, value: ValueModel::Bool(on), authority: "user"@ },
        ),
        at_preference(granted(granted(shell)), place, key, ValueModel::Bool(on)),
{
    lemma_granted(shell, place, key, ValueModel::Bool(on));
    lemma_granted(granted(shell), place, key, ValueModel::Bool(!on));
}

/// A preference that the service does not apply asks for nothing.
pub proof fn law_rows_that_are_not_applied_are_still(shell: ShellModel, place: int)
    requires
        at_row(shell, SettingsRoom::Accessibility, place),
        0 <= place < shell.comfort.display_preferences.len(),
        !shell.comfort.display_preferences[place].interactive,
    ensures
        shell.step(ActionModel::Activate) == (shell.bumped(), None::<EffectModel>),
{
    lemma_row_activated(shell, SettingsRoom::Accessibility, place);
}

/// Activating the row of the appearance asks for the other of day and dusk, and
/// getting it changes between them.
pub proof fn law_appearance_changes_between_day_and_dusk(shell: ShellModel)
    requires
        at_row(shell, SettingsRoom::Display, 0),
    ensures
        shell.step(ActionModel::Activate).1 == Some(
            EffectModel::ChangePreference {
                key: "appearance"@,
                value: ValueModel::Text(
                    if shell.comfort.appearance_day {
                        "Dusk"@
                    } else {
                        "Day"@
                    },
                ),
                authority: "user"@,
            },
        ),
        granted(shell).comfort.appearance_day == !shell.comfort.appearance_day,
{
    lemma_row_activated(shell, SettingsRoom::Display, 0);
    lemma_keys_differ();
    reveal(comfort_with);
    reveal_strlit("Day");
    reveal_strlit("Dusk");
    assert("Day"@[1] != "Dusk"@[1]);
}

/// A switch is spoken of as on or off, a text as it is, and a preference that the
/// shell does not paint as one that takes no effect.
pub proof fn law_preferences_are_spoken_of(row: PreferenceModel)
    ensures
        row.effective matches ValueModel::Bool(on) ==> spoken_value(row.effective) == (if on {
            "On"@
        } else {
            "Off"@
        }),
        row.effective matches ValueModel::Text(word) ==> spoken_value(row.effective) == word,
        row.effective matches ValueModel::Integer(number) ==> spoken_value(row.effective)
            == signed_text(number),
        (row.key == "textScale"@ || row.key == "highContrast"@ || row.key == "reduceMotion"@
            || row.key == "appearance"@) ==> preference_words(row) == row.label + " · "@
            + spoken_value(row.effective),
        (row.key != "textScale"@ && row.key != "highContrast"@ && row.key != "reduceMotion"@
            && row.key != "appearance"@) ==> preference_words(row) == row.label + " · "@
            + spoken_value(row.effective) + " · not applied on this build"@,
{
}

/// What is in effect of a preference that was read: what the service reported, or
/// the default.
pub open spec fn read_or(
    read: Result<Option<ReportModel>, Text>,
    default: ValueModel,
) -> ValueModel {
    match read {
        Ok(Some(report)) => report.effective,
        _ => default,
    }
}

/// Whether a preference that was read can be changed: the service applies it.
pub open spec fn read_applied(read: Result<Option<ReportModel>, Text>) -> bool {
    read matches Ok(Some(report)) && report.applied
}

/// Loading the preferences succeeds where all five can be read. Then four rows
/// are shown, each with what was reported or its default, and what is in effect
/// is what they show. The first run is presented where it was not completed.
pub proof fn law_loaded_preferences_are_shown_and_in_effect(
    shell: ShellModel,
    reads: PreferenceReads,
    first_run_complete: bool,
)
    ensures
        ({
            let (after, outcome) = shell.loading_preferences(reads, first_run_complete);
            let size = read_model(reads.text_scale);
            let contrast = read_model(reads.high_contrast);
            let motion = read_model(reads.reduce_motion);
            let flashing = read_model(reads.reduce_flashing);
            let appearance = read_model(reads.appearance);
            let off = ValueModel::Bool(false);
            let rows = after.comfort.display_preferences;
            &&& outcome is Ok == (size is Ok && contrast is Ok && motion is Ok && flashing is Ok
                && appearance is Ok)
            &&& size matches Err(why) ==> outcome == Err::<(), Text>(why)
            &&& size is Ok ==> (contrast matches Err(why) ==> outcome == Err::<(), Text>(why))
            &&& size is Ok && contrast is Ok ==> (motion matches Err(why) ==> outcome == Err::<
                (),
                Text,
            >(why))
            &&& outcome is Ok ==> {
                &&& rows.len() == 4
                &&& rows[0].key == "textScale"@
                &&& rows[0].label == "Text size"@
                &&& rows[0].effective == read_or(size, ValueModel::Text("100%"@))
                &&& rows[0].interactive == read_applied(size)
                &&& rows[1].key == "highContrast"@
                &&& rows[1].label == "High contrast"@
                &&& rows[1].effective == read_or(contrast, off)
                &&& rows[1].interactive == read_applied(contrast)
                &&& rows[2].key == "reduceMotion"@
                &&& rows[2].label == "Reduce motion"@
                &&& rows[2].effective == read_or(motion, off)
                &&& rows[2].interactive == read_applied(motion)
                &&& rows[3].key == "reduceFlashing"@
                &&& rows[3].label == "Reduce flashing"@
                &&& rows[3].effective == read_or(flashing, off)
                &&& rows[3].interactive == read_applied(flashing)
                &&& after.comfort.first_run_complete == first_run_complete
                &&& !first_run_complete ==> after.session.presentation == Presentation::FirstRun
                    && after.nav.focus == 0
                &&& first_run_complete ==> after.session == shell.session && after.nav == shell.nav
                &&& (rows[0].effective matches ValueModel::Text(word) ==> after.comfort.text_scale
                    == scale_of(word))
                &&& (rows[1].effective matches ValueModel::Bool(on) ==> after.comfort.high_contrast
                    == on)
                &&& (rows[2].effective matches ValueModel::Bool(on) ==> after.comfort.reduced_motion
                    == (on || shell.comfort.env_reduced_motion))
                &&& (rows[3].effective matches ValueModel::Bool(on)
                    ==> after.comfort.reduce_flashing == on)
                &&& (appearance matches Ok(Some(report)) && report.effective
                    == ValueModel::Text("Day"@)) ==> after.comfort.appearance_day
                &&& appearance matches Ok(None) ==> after.comfort.appearance_day
                    == shell.comfort.appearance_day
            }
        }),
{
    lemma_keys_differ();
    reveal(comfort_with);
}

/// The first run offers just the preferences that can be changed, in their
/// order, and activating one asks for its other value.
pub proof fn law_first_run_offers_what_can_be_changed(shell: ShellModel, choice: int, on: bool)
    requires
        shell.session.presentation == Presentation::FirstRun,
        shell.power.power_dialog == PowerDialog::Closed,
        shell.comfort.display_preferences.len() <= 4,
        0 <= choice < first_run_rows(shell.comfort.display_preferences).len(),
        shell.nav.focus == choice,
    ensures
        ({
            let rows = shell.comfort.display_preferences;
            let row = rows[first_run_rows(rows)[choice] as int];
            &&& row.interactive
            &&& row.effective == ValueModel::Bool(on) ==> shell.step(ActionModel::Activate).1
                == Some(
                EffectModel::ChangePreference {
                    key: row.key,
                    value: ValueModel::Bool(!on),
                    authority: "user"@,
                },
            )
        }),
        forall|i: int|
            0 <= i < shell.comfort.display_preferences.len()
                && (#[trigger] shell.comfort.display_preferences[i]).interactive
                ==> first_run_rows(shell.comfort.display_preferences).contains(i as usize),
{
    let rows = shell.comfort.display_preferences;
    reveal(first_run_rows);
    crate::library::lemma_places_below(rows.len() as int, |i: int| rows[i].interactive);
    assert(rows[first_run_rows(rows)[choice] as int].interactive);
    assert forall|i: int|
        0 <= i < rows.len() && (#[trigger] rows[i]).interactive implies first_run_rows(
        rows,
    ).contains(i as usize) by {
        assert((|i: int| rows[i].interactive)(i));
    }
}

} // verus!
