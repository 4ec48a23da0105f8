//! What the settings say: their rooms, the rows of each room, and what is entered
//! there.

use crate::answers::at_ease;
use crate::calendar::ManualTimePicker;
use crate::cutting::{
    after_last, last_part_place, lines_of, repeated, without_char, without_return,
};
use crate::figures::{in_two, law_pickers_are_written_out};
use crate::home_scene::law_window_shows_the_focus;
use crate::navigation::least;
use crate::ports::{NtpState, Support, TransferService, ValueModel, WifiSecurity};
use crate::preferences::preference_words;
use crate::reading::{lemma_in_body, marks, offers, reads, scene_of};
use crate::scene::NodeModel;
use crate::services::{clock_settable, service_place, system_rows_of, SystemRow};
use crate::settings::{binding_preview, preference_row, SettingsRowAction};
use crate::settings_scene::{row_parts, shown_scale, system_label};
use crate::state::{
    BindingModel, NetworkFlow, PowerDialog, PreferenceModel, Presentation, Route, SettingsRoom, ShellModel,
    SystemFlow, SystemModel, TransferModel, WifiModel,
};
use crate::surface::SurfaceFacts;
use crate::text::{begins_with, decimal_text, lemma_first_place_is, stands_at, Text};
use vstd::prelude::*;
use vstd::string::*;

verus! {

broadcast use crate::reading::group_contained;

/// The settings offer five rooms in one order; the room of the network only where
/// its service is known.
pub proof fn law_rooms_stand_in_order(shell: ShellModel)
    ensures
        shell.rooms()[0] == SettingsRoom::Accessibility,
        shell.rooms()[1] == SettingsRoom::Controls,
        shell.rooms()[2] == SettingsRoom::Display,
        shell.network.network_state is Ok ==> shell.rooms().len() == 5 && shell.rooms()[3]
            == SettingsRoom::Network && shell.rooms()[4] == SettingsRoom::System,
        shell.network.network_state is Err ==> shell.rooms().len() == 4 && shell.rooms()[3]
            == SettingsRoom::System,
{
}

/// Whether the settings show their rooms and rows, with no entry in front.
pub open spec fn at_settings(shell: ShellModel) -> bool {
    &&& at_ease(shell)
    &&& shell.nav.route == Route::Settings
    &&& shell.system.system_flow != SystemFlow::ManualTime
    &&& shell.network.network_flow != NetworkFlow::Credential
}

proof fn lemma_settings(shell: ShellModel, facts: SurfaceFacts, node: NodeModel)
    requires
        at_ease(shell),
        shell.nav.route == Route::Settings,
        shell.settings_nodes(facts).contains(node),
    ensures
        shell.body_nodes(facts).contains(node),
{
}

proof fn lemma_entry(shell: ShellModel, rooms: Seq<SettingsRoom>, upto: int, place: int, part: int)
    requires
        0 <= place < upto,
        0 <= part < 2,
    ensures
        shell.entries_before(rooms, upto).contains(shell.entry_nodes(rooms[place], place)[part]),
    decreases upto,
{
    if place < upto - 1 {
        lemma_entry(shell, rooms, upto - 1, place, part);
    } else {
        let entry = shell.entry_nodes(rooms[place], place);
        assert(entry.contains(entry[part]));
    }
}

/// What a room is called.
pub open spec fn room_called(room: SettingsRoom) -> Text {
    match room {
        SettingsRoom::Accessibility => "Accessibility"@,
        SettingsRoom::Controls => "Controls"@,
        SettingsRoom::Display => "Display"@,
        SettingsRoom::Network => "Network"@,
        SettingsRoom::System => "System"@,
    }
}

/// Every room is offered by its name, the one that is shown has a bar before it,
/// and the focus stands on the room of its place.
pub proof fn law_rooms_are_called_by_their_names(
    shell: ShellModel,
    facts: SurfaceFacts,
    footer: Text,
    within: Seq<(usize, usize)>,
    place: int,
)
    requires
        at_settings(shell),
        !facts.portrait || !shell.settings.settings_in_rows,
        0 <= place < shell.rooms().len(),
    ensures
        ({
            let scene = scene_of(shell, facts, footer, within);
            let room = shell.rooms()[place];
            let shown = room == shell.settings.settings_room;
            &&& offers(
                scene,
                room.entry_id(),
                room_called(room),
                !shell.settings.settings_in_rows && shell.nav.focus == place,
            )
            &&& reads(
                scene,
                room.entry_id() + "-label"@,
                (if shown {
                    "▌ "@
                } else {
                    "  "@
                }) + room_called(room),
            )
        }),
{
    let rooms = shell.rooms();
    let nodes = shell.entry_nodes(rooms[place], place);
    lemma_entry(shell, rooms, rooms.len() as int, place, 0);
    lemma_entry(shell, rooms, rooms.len() as int, place, 1);
    assert(shell.settings_nodes(facts).contains(nodes[0]));
    assert(shell.settings_nodes(facts).contains(nodes[1]));
    lemma_settings(shell, facts, nodes[0]);
    lemma_settings(shell, facts, nodes[1]);
    lemma_in_body(shell, facts, footer, within, nodes[0]);
    lemma_in_body(shell, facts, footer, within, nodes[1]);
}

/// The ids of the rooms' entries.
pub proof fn law_rooms_have_their_own_entry(left: SettingsRoom, right: SettingsRoom)
    requires
        left.entry_id() == right.entry_id(),
    ensures
        left == right,
{
    reveal_strlit("settings-nav-accessibility");
    reveal_strlit("settings-nav-controls");
    reveal_strlit("settings-nav-display");
    reveal_strlit("settings-nav-network");
    reveal_strlit("settings-nav-system");
    assert("settings-nav-accessibility"@[13] == 'a');
    assert("settings-nav-controls"@[13] == 'c');
    assert("settings-nav-display"@[13] == 'd');
    assert("settings-nav-network"@[13] == 'n');
    assert("settings-nav-system"@[13] == 's');
}

/// Where the rows of a room are shown, their heading says which room it is.
pub proof fn law_sections_are_headed_by_their_room(
    shell: ShellModel,
    facts: SurfaceFacts,
    footer: Text,
    within: Seq<(usize, usize)>,
)
    requires
        at_settings(shell),
        !facts.portrait || shell.settings.settings_in_rows,
    ensures
        reads(
            scene_of(shell, facts, footer, within),
            "settings-section-title"@,
            if shell.settings.settings_room == SettingsRoom::Network {
                "Network status"@
            } else {
                room_called(shell.settings.settings_room)
            },
        ),
{
    let nodes = shell.section_nodes(facts);
    assert(nodes.contains(nodes[0]));
    assert(shell.settings_nodes(facts).contains(nodes[0]));
    lemma_settings(shell, facts, nodes[0]);
    lemma_in_body(shell, facts, footer, within, nodes[0]);
}

/// What activating a row does is what the row stands for, and a row that does
/// nothing cannot be activated.
pub proof fn law_rows_do_what_they_stand_for(shell: ShellModel, place: int)
    requires
        shell.comfort.display_preferences.len() <= usize::MAX,
        0 <= place < shell.settings_rows().len(),
    ensures
        shell.settings_rows()[place].action == shell.row_action(place),
        shell.settings_rows().len() == shell.row_count(),
{
    reveal(ShellModel::settings_rows);
}

/// The rows of the accessibility room are the preferences, each with its name and
/// value, and can be activated where the service applies them.
pub proof fn law_accessibility_rows_are_the_preferences(shell: ShellModel, place: int)
    requires
        shell.settings.settings_room == SettingsRoom::Accessibility,
        0 <= place < shell.comfort.display_preferences.len() <= usize::MAX,
    ensures
        ({
            let row = shell.settings_rows()[place];
            let preference = shell.comfort.display_preferences[place];
            &&& row.id == "accessibility-"@ + preference.key
            &&& preference.effective matches ValueModel::Bool(on) ==> row.accessible_label
                == preference.label + " · "@ + (if on {
                "ON"@
            } else {
                "OFF"@
            })
            &&& preference.effective matches ValueModel::Text(word) ==> row.accessible_label
                == preference.label + " · "@ + word
            &&& preference.interactive ==> row.action == Some(
                SettingsRowAction::Preference(place as usize),
            )
            &&& !preference.interactive ==> row.action is None && row.label == preference.label
                + "\nStored, but this build cannot apply it\n—"@
        }),
{
    reveal(ShellModel::settings_rows);
}

/// The other rooms say what they know: the buttons, the appearance, the network
/// and the device, and recovery where there is one.
pub proof fn law_rooms_say_what_they_know(shell: ShellModel)
    ensures
        shell.settings.settings_room == SettingsRoom::Controls ==> {
            let rows = shell.settings_rows();
            &&& rows.len() == 3
            &&& rows[1].id == "controls-safe-return"@
            &&& rows[1].label == "Safe Return button\nReturns safely from any game\n"@
                + shell.settings.safe_return_binding + "  —"@
            &&& shell.settings.control_bindings.len() == 0 ==> rows[0].label
                == "Remap buttons\nCurrent map: "@ + "No input map reported"@ + "\n—"@
            &&& rows[0].action is None && rows[1].action is None && rows[2].action is None
        },
        shell.settings.settings_room == SettingsRoom::Display ==> {
            let rows = shell.settings_rows();
            let word = if shell.comfort.appearance_day {
                "Day"@
            } else {
                "Dusk"@
            };
            &&& rows.len() == 1
            &&& rows[0].id == "display-appearance"@
            &&& rows[0].accessible_label == "Appearance · "@ + word
            &&& rows[0].label
                == "Appearance\nChanges the room palette; High Contrast composes over it\nDusk / Day · "@
                + word
            &&& rows[0].action == Some(SettingsRowAction::Appearance)
        },
        shell.settings.settings_room == SettingsRoom::Network ==> {
            let rows = shell.settings_rows();
            let name = match shell.network.network_state {
                Ok(state) => match state.connected_ssid {
                    Some(ssid) => ssid,
                    None => "Not connected"@,
                },
                Err(_) => "Not connected"@,
            };
            &&& rows.len() == 2
            &&& rows[0].label == "SSID\nObserved connected network\n"@ + name + "\n—"@
        },
        shell.settings.settings_room == SettingsRoom::System ==> {
            let rows = shell.settings_rows();
            &&& rows[0].label == "About\nPocketForge shell version\n"@ + "0.1.0"@ + "\n—"@
            &&& shell.session.recovery_available ==> rows.len() == 4 && rows[3].action == Some(
                SettingsRowAction::Recovery,
            ) && rows[3].accessible_label == "Recovery"@
            &&& !shell.session.recovery_available ==> rows.len() == 3
        },
{
    reveal(ShellModel::settings_rows);
}

proof fn lemma_row(shell: ShellModel, facts: SurfaceFacts, upto: int, place: int, node: NodeModel)
    requires
        shell.rows_from(facts) <= place < upto,
        shell.row_nodes(shell.settings_rows()[place], place).contains(node),
    ensures
        shell.rows_before(facts, upto).contains(node),
    decreases upto - place,
{
    if place < upto - 1 {
        lemma_row(shell, facts, upto - 1, place, node);
    }
}

proof fn lemma_shown_row(
    shell: ShellModel,
    facts: SurfaceFacts,
    footer: Text,
    within: Seq<(usize, usize)>,
    node: NodeModel,
)
    requires
        at_settings(shell),
        shell.settings.settings_in_rows,
        0 <= shell.nav.focus < shell.settings_rows().len(),
        facts.row_capacity >= 1,
        shell.row_nodes(shell.settings_rows()[shell.nav.focus], shell.nav.focus).contains(node),
    ensures
        scene_of(shell, facts, footer, within).contains(node),
{
    let focus = shell.nav.focus;
    let count = shell.settings_rows().len() as int;
    let capacity = facts.row_capacity as int;
    law_window_shows_the_focus(focus, capacity, count);
    let upto = least(shell.rows_from(facts) + capacity, count);
    lemma_row(shell, facts, upto, focus, node);
    assert(shell.section_nodes(facts).contains(node));
    assert(shell.settings_nodes(facts).contains(node));
    lemma_settings(shell, facts, node);
    lemma_in_body(shell, facts, footer, within, node);
}

/// The row in focus is shown and says what it stands for; one that does something
/// can be chosen.
pub proof fn law_the_row_in_focus_is_told(
    shell: ShellModel,
    facts: SurfaceFacts,
    footer: Text,
    within: Seq<(usize, usize)>,
)
    requires
        at_settings(shell),
        shell.settings.settings_in_rows,
        0 <= shell.nav.focus < shell.settings_rows().len(),
        facts.row_capacity >= 1,
    ensures
        ({
            let scene = scene_of(shell, facts, footer, within);
            let row = shell.settings_rows()[shell.nav.focus];
            &&& reads(scene, "settings-row-"@ + row.id, row.accessible_label)
            &&& row.action is Some ==> offers(
                scene,
                "settings-row-"@ + row.id,
                row.accessible_label,
                false,
            )
        }),
{
    let row = shell.settings_rows()[shell.nav.focus];
    let nodes = shell.row_nodes(row, shell.nav.focus);
    assert(nodes.contains(nodes[0]));
    lemma_shown_row(shell, facts, footer, within, nodes[0]);
}

/// Whether a text has no line break.
pub open spec fn on_one_line(text: Text) -> bool {
    forall|i: int| 0 <= i < text.len() ==> #[trigger] text[i] != '\n'
}

proof fn lemma_line(line: Text, rest: Text)
    requires
        on_one_line(line),
    ensures
        lines_of(line + seq!['\n'] + rest) == seq![without_return(line)] + lines_of(rest),
{
    let text = line + seq!['\n'] + rest;
    lemma_first_place_is(text, '\n', line.len() as int);
    assert(text.take(line.len() as int) =~= line);
    assert(text.skip(line.len() as int + 1) =~= rest);
}

proof fn lemma_last_line(line: Text)
    requires
        on_one_line(line),
        line.len() > 0,
    ensures
        lines_of(line) == seq![line],
{
    lemma_first_place_is(line, '\n', line.len() as int);
}

proof fn lemma_three_lines(first: Text, second: Text, third: Text)
    requires
        on_one_line(first),
        on_one_line(second),
        on_one_line(third),
        third.len() > 0,
    ensures
        lines_of(first + "\n"@ + second + "\n"@ + third) == seq![
            without_return(first),
            without_return(second),
            third,
        ],
{
    reveal_strlit("\n");
    assert("\n"@ =~= seq!['\n']);
    let whole = first + "\n"@ + second + "\n"@ + third;
    let rest = second + seq!['\n'] + third;
    assert(whole =~= first + seq!['\n'] + rest);
    lemma_line(first, rest);
    lemma_line(second, third);
    lemma_last_line(third);
    assert(lines_of(whole) =~= seq![without_return(first), without_return(second), third]);
}

proof fn lemma_consequence_is_one_line(key: Text)
    ensures
        on_one_line(crate::settings::consequence(key)),
{
    reveal_strlit("Reflows labels and rows live");
    reveal_strlit("Uses the strongest text and focus contrast");
    reveal_strlit("Completes transitions without movement");
    reveal_strlit("Prevents future flashing treatments");
}

proof fn lemma_switch_lines(place: int, row: PreferenceModel, on: bool)
    requires
        row.interactive,
        row.effective == ValueModel::Bool(on),
        on_one_line(row.label),
    ensures
        ({
            let lines = lines_of(preference_row(place, row).label);
            &&& lines.len() == 3
            &&& begins_with(lines.last(), "ON"@) == on
            &&& begins_with(lines.last(), "OFF"@) == !on
        }),
{
    let control = crate::settings::control_text(row.effective);
    reveal_strlit("ON");
    reveal_strlit("OFF");
    reveal_strlit(" ");
    reveal_strlit("——●");
    reveal_strlit("●——");
    assert(on_one_line(control));
    lemma_consequence_is_one_line(row.key);
    lemma_three_lines(row.label, crate::settings::consequence(row.key), control);
    if on {
        assert(control.take(2) =~= "ON"@);
        assert(control.take(3)[1] == 'N');
        assert("OFF"@[1] == 'F');
    } else {
        assert(control.take(3) =~= "OFF"@);
        assert(control.take(2)[1] == 'F');
        assert("ON"@[1] == 'N');
    }
}

/// A switch of the accessibility room says ON where its preference is on and OFF
/// where it is off.
pub proof fn law_switches_say_their_position(
    shell: ShellModel,
    facts: SurfaceFacts,
    footer: Text,
    within: Seq<(usize, usize)>,
    on: bool,
)
    requires
        at_settings(shell),
        shell.settings.settings_in_rows,
        shell.settings.settings_room == SettingsRoom::Accessibility,
        0 <= shell.nav.focus < shell.comfort.display_preferences.len() <= usize::MAX,
        facts.row_capacity >= 1,
        shell.comfort.display_preferences[shell.nav.focus].interactive,
        shell.comfort.display_preferences[shell.nav.focus].effective == ValueModel::Bool(on),
        shell.comfort.display_preferences[shell.nav.focus].key != "textScale"@,
        on_one_line(shell.comfort.display_preferences[shell.nav.focus].label),
    ensures
        reads(
            scene_of(shell, facts, footer, within),
            "settings-toggle-"@ + ("accessibility-"@
                + shell.comfort.display_preferences[shell.nav.focus].key) + "-state"@,
            if on {
                "ON"@
            } else {
                "OFF"@
            },
        ),
{
    reveal(ShellModel::settings_rows);
    let focus = shell.nav.focus;
    let preference = shell.comfort.display_preferences[focus];
    let row = preference_row(focus, preference);
    assert(shell.settings_rows()[focus] == row);
    lemma_switch_lines(focus, preference, on);
    let lines = lines_of(row.label);
    reveal_strlit("accessibility-");
    reveal_strlit("textScale");
    assert(row.id.take(14) =~= "accessibility-"@);
    assert(row.id != "accessibility-textScale"@) by {
        reveal_strlit("accessibility-textScale");
        if row.id == "accessibility-textScale"@ {
            assert(preference.key =~= row.id.skip(14));
            assert("textScale"@ =~= "accessibility-textScale"@.skip(14));
        }
    }
    let node = crate::scene::plain(
        "settings-toggle-"@ + row.id + "-state"@,
        crate::scene::Role::Text,
        if on {
            "ON"@
        } else {
            "OFF"@
        },
        crate::settings_scene::row_surface(row),
    ).focused(
        shell.settings.settings_row_focused && shell.nav.focus == focus && row.action is Some,
    ).at(1);
    let parts = row_parts(
        row,
        shell.comfort.text_scale,
        shell.settings.settings_row_focused && shell.nav.focus == focus && row.action is Some,
    );
    assert(crate::settings_scene::is_switch(row, lines));
    assert(parts.contains(node));
    assert(shell.row_nodes(row, focus).contains(node));
    lemma_shown_row(shell, facts, footer, within, node);
}

proof fn lemma_last_part(text: Text, part: Text, place: int, upto: int)
    requires
        0 <= place < upto,
        stands_at(text, part, place),
        forall|k: int| place < k < upto ==> !stands_at(text, part, k),
    ensures
        last_part_place(text, part, upto) == Some(place),
    decreases upto,
{
    if place < upto - 1 {
        assert(!stands_at(text, part, upto - 1));
        lemma_last_part(text, part, place, upto - 1);
    }
}

proof fn lemma_behind_the_dot(before: Text, word: Text)
    requires
        word.len() > 0,
        forall|i: int| 0 <= i < word.len() ==> #[trigger] word[i] != '·',
    ensures
        after_last(before + " · "@ + word, " · "@) == Some(word),
{
    reveal_strlit(" · ");
    let text = before + " · "@ + word;
    let place = before.len() as int;
    assert(text.subrange(place, place + 3) =~= " · "@);
    assert forall|k: int| place < k < text.len() implies !stands_at(text, " · "@, k) by {
        if stands_at(text, " · "@, k) {
            let found = text.subrange(k, k + 3);
            assert(found == " · "@);
            assert(found[1] == '·');
            assert(found[1] == text[k + 1]);
            if k + 1 < place + 3 {
                assert(text[k + 1] == " · "@[k + 1 - place]);
            } else {
                assert(text[k + 1] == word[k + 1 - place - 3]);
            }
        }
    }
    lemma_last_part(text, " · "@, place, text.len() as int);
    assert(text.skip(place + 3) =~= word);
}

/// In the row of the size of the text, the size that is in effect is marked among
/// the three that it offers, and no other.
pub proof fn law_the_size_in_effect_is_marked(
    shell: ShellModel,
    facts: SurfaceFacts,
    footer: Text,
    within: Seq<(usize, usize)>,
    word: Text,
)
    requires
        at_settings(shell),
        shell.settings.settings_in_rows,
        shell.settings.settings_room == SettingsRoom::Accessibility,
        0 <= shell.nav.focus < shell.comfort.display_preferences.len() <= usize::MAX,
        facts.row_capacity >= 1,
        shell.comfort.display_preferences[shell.nav.focus].interactive,
        shell.comfort.display_preferences[shell.nav.focus].key == "textScale"@,
        shell.comfort.display_preferences[shell.nav.focus].effective == ValueModel::Text(word),
        on_one_line(shell.comfort.display_preferences[shell.nav.focus].label),
        on_one_line(word),
        word.len() > 0,
        forall|i: int| 0 <= i < word.len() ==> #[trigger] word[i] != '·',
    ensures
        ({
            let scene = scene_of(shell, facts, footer, within);
            &&& marks(scene, "settings-text-scale-chip-"@ + "100%"@, word == "100%"@)
            &&& marks(scene, "settings-text-scale-chip-"@ + "150%"@, word == "150%"@)
            &&& marks(scene, "settings-text-scale-chip-"@ + "200%"@, word == "200%"@)
            &&& reads(scene, "settings-text-scale-value-"@ + "100%"@, "100%"@)
            &&& reads(scene, "settings-text-scale-value-"@ + "150%"@, "150%"@)
            &&& reads(scene, "settings-text-scale-value-"@ + "200%"@, "200%"@)
        }),
{
    reveal(ShellModel::settings_rows);
    let focus = shell.nav.focus;
    let preference = shell.comfort.display_preferences[focus];
    let row = preference_row(focus, preference);
    assert(shell.settings_rows()[focus] == row);
    let control = "100% / 150% / 200% · "@ + word;
    assert(row.id == "accessibility-textScale"@) by {
        reveal_strlit("accessibility-");
        reveal_strlit("textScale");
        reveal_strlit("accessibility-textScale");
        assert(row.id =~= "accessibility-textScale"@);
    }
    assert(on_one_line(control) && shown_scale(lines_of(row.label)) == word) by {
        reveal_strlit("100% / 150% / 200% · ");
        reveal_strlit("100% / 150% / 200%");
        reveal_strlit(" · ");
        assert("100% / 150% / 200% · "@ =~= "100% / 150% / 200%"@ + " · "@);
        lemma_consequence_is_one_line(preference.key);
        lemma_three_lines(
            preference.label,
            crate::settings::consequence(preference.key),
            control,
        );
        lemma_behind_the_dot("100% / 150% / 200%"@, word);
    }
    let held = shell.settings.settings_row_focused && shell.nav.focus == focus && row.action is Some;
    let parts = row_parts(row, shell.comfort.text_scale, held);
    let first = crate::settings_scene::scale_chip("100%"@, word == "100%"@, held);
    let second = crate::settings_scene::scale_chip("150%"@, word == "150%"@, held);
    let third = crate::settings_scene::scale_chip("200%"@, word == "200%"@, held);
    let one = crate::settings_scene::scale_value("100%"@, word == "100%"@);
    let two = crate::settings_scene::scale_value("150%"@, word == "150%"@);
    let three = crate::settings_scene::scale_value("200%"@, word == "200%"@);
    assert(parts.contains(first) && parts.contains(second) && parts.contains(third));
    assert(parts.contains(one) && parts.contains(two) && parts.contains(three));
    let nodes = shell.row_nodes(row, focus);
    assert(nodes.contains(first) && nodes.contains(second) && nodes.contains(third));
    assert(nodes.contains(one) && nodes.contains(two) && nodes.contains(three));
    lemma_shown_row(shell, facts, footer, within, first);
    lemma_shown_row(shell, facts, footer, within, second);
    lemma_shown_row(shell, facts, footer, within, third);
    lemma_shown_row(shell, facts, footer, within, one);
    lemma_shown_row(shell, facts, footer, within, two);
    lemma_shown_row(shell, facts, footer, within, three);
}

/// While the clock is set by hand, the scene shows the time that the picker holds;
/// that time is what activating sets.
pub proof fn law_the_time_to_be_set_is_shown(
    shell: ShellModel,
    facts: SurfaceFacts,
    footer: Text,
    within: Seq<(usize, usize)>,
)
    requires
        shell.session.presentation == Presentation::Ready,
        shell.power.power_dialog == PowerDialog::Closed,
        shell.nav.route == Route::Settings,
        shell.settings.settings_room == SettingsRoom::System,
        shell.system.system_flow == SystemFlow::ManualTime,
    ensures
        offers(
            scene_of(shell, facts, footer, within),
            "manual-time-fields"@,
            shell.system.manual_time_picker.written(),
            true,
        ),
        reads(
            scene_of(shell, facts, footer, within),
            "manual-time-title"@,
            "SET MANUAL TIME · UTC"@,
        ),
{
    let nodes = shell.flow_nodes();
    let body = shell.body_nodes(facts);
    assert(body == nodes);
    assert(body.contains(nodes[0]));
    assert(body.contains(nodes[1]));
    lemma_in_body(shell, facts, footer, within, nodes[0]);
    lemma_in_body(shell, facts, footer, within, nodes[1]);
}

/// While a secret is entered, the scene names the network that it is for and shows
/// a dot for each byte of the secret.
pub proof fn law_a_secret_is_shown_as_dots(
    shell: ShellModel,
    facts: SurfaceFacts,
    footer: Text,
    within: Seq<(usize, usize)>,
    place: int,
)
    requires
        shell.session.presentation == Presentation::Ready,
        shell.power.power_dialog == PowerDialog::Closed,
        shell.nav.route == Route::Settings,
        shell.settings.settings_room == SettingsRoom::Network,
        shell.network.network_flow == NetworkFlow::Credential,
        shell.network.selected_wifi == Some(place),
        0 <= place < shell.network.wifi_networks.len(),
    ensures
        offers(
            scene_of(shell, facts, footer, within),
            "wifi-credential-entry"@,
            "Join "@ + shell.network.wifi_networks[place].ssid + " · Passphrase "@ + Seq::new(
                shell.network.wifi_credential.len(),
                |i: int| '•',
            ),
            true,
        ),
{
    let nodes = shell.flow_nodes();
    let body = shell.body_nodes(facts);
    assert(body == nodes);
    assert(body.contains(nodes[0]));
    lemma_in_body(shell, facts, footer, within, nodes[0]);
    let count = shell.network.wifi_credential.len();
    assert(repeated('•', count) =~= Seq::new(count, |i: int| '•'));
}

/// What the rows of the system say: the time zone, whether the time is automatic,
/// whether files can be transferred, or why that is not known.
pub proof fn law_system_rows_say_what_is_so(room: SystemModel, service: TransferService)
    ensures
        room.time_state matches Ok(state) ==> {
            &&& system_label(room, SystemRow::Timezone).text == "Timezone · "@ + state.timezone
            &&& system_label(room, SystemRow::Ntp).text == "Automatic time · "@ + (if state.ntp_state
                == NtpState::Active {
                "On"@
            } else {
                "Off"@
            })
        },
        room.time_state matches Err(why) ==> system_label(room, SystemRow::TimeUnavailable).text
            == why,
        room.transfer_services matches Err(why) ==> system_label(
            room,
            SystemRow::TransferUnavailable,
        ).text == why,
        room.transfer_services matches Ok(services) ==> (service_place(services, service, 0) matches Some(place)
            ==> system_label(room, SystemRow::Transfer(service)).text == (match service {
            TransferService::Sftp => "SFTP transfer"@,
            TransferService::UsbMassStorage => "USB storage transfer"@,
        }) + " · "@ + (if services[place].enabled {
            "On"@
        } else {
            "Off"@
        })),
{
}

/// The system offers what can be done: a time zone where the time is known,
/// automatic time where it is supported, a manual time where it can be set and is
/// not automatic, and each transfer service that the device supports.
pub proof fn law_system_offers_what_can_be_done(room: SystemModel, place: int)
    ensures
        system_rows_of(room).contains(SystemRow::TimeUnavailable) == (room.time_state is Err),
        system_rows_of(room).contains(SystemRow::TransferUnavailable) == (
        room.transfer_services is Err),
        system_rows_of(room).contains(SystemRow::Timezone) == (room.time_state is Ok),
        system_rows_of(room).contains(SystemRow::Ntp) == (room.time_state matches Ok(state)
            && state.ntp_state != NtpState::Unsupported),
        system_rows_of(room).contains(SystemRow::ManualTime) == (room.time_capabilities == Ok::<
            Support,
            Text,
        >(Support::Supported) && (room.time_state matches Ok(state) && state.ntp_state
            != NtpState::Active)),
        room.transfer_services matches Ok(services) ==> (0 <= place < services.len()
            && services[place].support == Support::Supported ==> system_rows_of(room).contains(
            SystemRow::Transfer(services[place].service),
        )),
        system_rows_of(room).last() == SystemRow::Accessibility,
{
    let rows = system_rows_of(room);
    if let Ok(services) = room.transfer_services {
        lemma_transfer_rows(services, place);
    }
    lemma_rows_hold(room, SystemRow::TimeUnavailable);
    lemma_rows_hold(room, SystemRow::TransferUnavailable);
    lemma_rows_hold(room, SystemRow::Timezone);
    lemma_rows_hold(room, SystemRow::Ntp);
    lemma_rows_hold(room, SystemRow::ManualTime);
    if let Ok(services) = room.transfer_services {
        if 0 <= place < services.len() {
            lemma_rows_hold(room, SystemRow::Transfer(services[place].service));
        }
    }
    assert(rows.last() == SystemRow::Accessibility);
}

proof fn lemma_system_joined(left: Seq<SystemRow>, right: Seq<SystemRow>, row: SystemRow)
    ensures
        (left + right).contains(row) == (left.contains(row) || right.contains(row)),
{
    let both = left + right;
    if both.contains(row) {
        let i = choose|i: int| 0 <= i < both.len() && both[i] == row;
        if i < left.len() {
            assert(left[i] == row);
        } else {
            assert(right[i - left.len()] == row);
        }
    }
    if left.contains(row) {
        let i = choose|i: int| 0 <= i < left.len() && left[i] == row;
        assert(both[i] == row);
    }
    if right.contains(row) {
        let i = choose|i: int| 0 <= i < right.len() && right[i] == row;
        assert(both[left.len() + i] == row);
    }
}

proof fn lemma_offered(row: SystemRow, when: bool, other: SystemRow)
    ensures
        crate::services::offered(row, when).contains(other) == (when && row == other),
{
    if when {
        assert(seq![row][0] == row);
        if seq![row].contains(other) {
            let i = choose|i: int| 0 <= i < seq![row].len() && seq![row][i] == other;
        }
    }
}

proof fn lemma_transfer_rows(services: Seq<TransferModel>, place: int)
    ensures
        0 <= place < services.len() && services[place].support == Support::Supported
            ==> crate::services::transfer_rows(services).contains(
            SystemRow::Transfer(services[place].service),
        ),
        forall|row: SystemRow| #[trigger]
            crate::services::transfer_rows(services).contains(row) ==> row is Transfer,
    decreases services.len(),
{
    if services.len() > 0 {
        let shorter = services.drop_last();
        lemma_transfer_rows(shorter, place);
        let last = services[services.len() - 1];
        let before = crate::services::transfer_rows(shorter);
        let more = crate::services::offered(
            SystemRow::Transfer(last.service),
            last.support == Support::Supported,
        );
        assert forall|row: SystemRow| #[trigger]
            crate::services::transfer_rows(services).contains(row) implies row is Transfer by {
            lemma_system_joined(before, more, row);
            lemma_offered(
                SystemRow::Transfer(last.service),
                last.support == Support::Supported,
                row,
            );
        }
        if 0 <= place < services.len() {
            let row = SystemRow::Transfer(services[place].service);
            lemma_system_joined(before, more, row);
            lemma_offered(
                SystemRow::Transfer(last.service),
                last.support == Support::Supported,
                row,
            );
            if place < shorter.len() {
                assert(shorter[place] == services[place]);
            }
        }
    }
}

proof fn lemma_rows_hold(room: SystemModel, row: SystemRow)
    ensures
        system_rows_of(room).contains(row) == {
            ||| row == SystemRow::TimeUnavailable && room.time_state is Err
            ||| row == SystemRow::TransferUnavailable && room.transfer_services is Err
            ||| row == SystemRow::Timezone && room.time_state is Ok
            ||| row == SystemRow::Ntp && (room.time_state matches Ok(state) && state.ntp_state
                != NtpState::Unsupported)
            ||| row == SystemRow::ManualTime && clock_settable(room)
            ||| (room.transfer_services matches Ok(services)
                && crate::services::transfer_rows(services).contains(row))
            ||| row == SystemRow::Accessibility
        },
{
    let none = Seq::<SystemRow>::empty();
    let time = crate::services::offered(SystemRow::TimeUnavailable, room.time_state is Err);
    let files = crate::services::offered(
        SystemRow::TransferUnavailable,
        room.transfer_services is Err,
    );
    let zone = crate::services::offered(SystemRow::Timezone, room.time_state is Ok);
    let has_ntp = room.time_state matches Ok(state) && state.ntp_state != NtpState::Unsupported;
    let ntp = crate::services::offered(SystemRow::Ntp, has_ntp);
    let manual = crate::services::offered(SystemRow::ManualTime, clock_settable(room));
    let transfers = match room.transfer_services {
        Ok(services) => crate::services::transfer_rows(services),
        Err(_) => none,
    };
    let last = seq![SystemRow::Accessibility];
    lemma_offered(SystemRow::TimeUnavailable, room.time_state is Err, row);
    lemma_offered(SystemRow::TransferUnavailable, room.transfer_services is Err, row);
    lemma_offered(SystemRow::Timezone, room.time_state is Ok, row);
    lemma_offered(SystemRow::Ntp, has_ntp, row);
    lemma_offered(SystemRow::ManualTime, clock_settable(room), row);
    lemma_offered(SystemRow::Accessibility, true, row);
    lemma_system_joined(time, files, row);
    lemma_system_joined(time + files, zone, row);
    lemma_system_joined(time + files + zone, ntp, row);
    lemma_system_joined(time + files + zone + ntp, manual, row);
    lemma_system_joined(time + files + zone + ntp + manual, transfers, row);
    lemma_system_joined(time + files + zone + ntp + manual + transfers, last, row);
    if let Ok(services) = room.transfer_services {
        lemma_transfer_rows(services, 0);
    }
}

/// A network in reach is told by its name, how it is secured and how strong it is,
/// and that it is the connected one where it is.
pub proof fn law_networks_are_told(shell: ShellModel, network: WifiModel)
    ensures
        ({
            let secured = match network.security {
                WifiSecurity::Open => "Open"@,
                WifiSecurity::Personal => "Personal"@,
                WifiSecurity::Enterprise => "Enterprise"@,
                WifiSecurity::Unknown => "Unknown security"@,
            };
            let told = network.ssid + " · "@ + secured + " · "@ + decimal_text(
                network.strength as nat,
            ) + "%"@;
            let here = shell.network.network_state matches Ok(state) && state.connected_ssid
                == Some(network.ssid);
            &&& here ==> shell.wifi_label(network).text == told + " · Connected"@
            &&& !here ==> shell.wifi_label(network).text == told + ""@
            &&& shell.wifi_label(network).interactive
        }),
{
}

/// What a preference of the accessibility room is for, and the buttons that the
/// controls report.
pub proof fn law_rows_explain_themselves(row: PreferenceModel, place: int, on: bool)
    requires
        row.interactive,
        row.effective == ValueModel::Bool(on),
    ensures
        ({
            let control = if on {
                "ON"@ + " "@ + "——●"@
            } else {
                "OFF"@ + " "@ + "●——"@
            };
            let label = preference_row(place, row).label;
            &&& row.key == "highContrast"@ ==> label == row.label + "\n"@
                + "Uses the strongest text and focus contrast"@ + "\n"@ + control
            &&& row.key == "reduceMotion"@ ==> label == row.label + "\n"@
                + "Completes transitions without movement"@ + "\n"@ + control
            &&& row.key == "reduceFlashing"@ ==> label == row.label + "\n"@
                + "Prevents future flashing treatments"@ + "\n"@ + control
        }),
{
    reveal_strlit("textScale");
    reveal_strlit("highContrast");
    reveal_strlit("reduceMotion");
    reveal_strlit("reduceFlashing");
    assert("textScale"@[0] == 't');
    assert("highContrast"@[0] == 'h');
    assert("reduceMotion"@[0] == 'r' && "reduceMotion"@[6] == 'M');
    assert("reduceFlashing"@[0] == 'r' && "reduceFlashing"@[6] == 'F');
}

/// The controls name every button that is bound, in order, with gaps between them.
pub proof fn law_bound_buttons_are_named(bindings: Seq<BindingModel>, last: BindingModel)
    ensures
        binding_preview(seq![last]) == last.binding,
        bindings.len() > 0 ==> binding_preview(bindings.push(last)) == binding_preview(bindings)
            + "  "@ + last.binding,
{
    let more = bindings.push(last);
    let names = Seq::new(bindings.len(), |i: int| bindings[i].binding);
    let more_names = Seq::new(more.len(), |i: int| more[i].binding);
    assert(more_names =~= names.push(last.binding));
    assert(names.push(last.binding).drop_last() =~= names);
    let one = seq![last];
    assert(Seq::new(one.len(), |i: int| one[i].binding) =~= seq![last.binding]);
}

/// While something is entered in another room, each room lists what it knows: the
/// preferences, the buttons and the way back to their defaults, the networks in
/// reach or why there are none, and the system.
pub proof fn law_rooms_list_what_they_know(shell: ShellModel, index: int)
    requires
        0 <= index < shell.label_count(),
    ensures
        ({
            let told = shell.label_at(index);
            &&& shell.settings.settings_room == SettingsRoom::Controls ==> {
                let bindings = shell.settings.control_bindings;
                &&& shell.label_count() == bindings.len() + 1
                &&& index < bindings.len() ==> told.text == bindings[index].label + " · "@
                    + bindings[index].binding
                &&& index == bindings.len() ==> told.text == "Reset to defaults"@
            }
            &&& shell.settings.settings_room == SettingsRoom::Network
                && shell.network.wifi_networks.len() > 0 ==> {
                &&& shell.label_count() == shell.network.wifi_networks.len()
                &&& told == shell.wifi_label(shell.network.wifi_networks[index])
            }
            &&& shell.settings.settings_room == SettingsRoom::Network
                && shell.network.wifi_networks.len() == 0 ==> {
                &&& !told.interactive
                &&& shell.network.network_status matches Some(words) ==> told.text == words
                &&& shell.network.network_status is None ==> (shell.network.network_state matches Err(
                    why,
                ) ==> told.text == why)
                &&& shell.network.network_status is None && shell.network.network_state is Ok
                    ==> told.text == "No networks found"@
            }
            &&& shell.settings.settings_room == SettingsRoom::Accessibility ==> {
                let row = shell.comfort.display_preferences[index];
                told.text == preference_words(row) && told.interactive == row.interactive
            }
            &&& shell.settings.settings_room == SettingsRoom::System ==> told == system_label(
                shell.system,
                system_rows_of(shell.system)[index],
            )
        }),
{
}

/// What is told to do while the clock is set or a secret is entered.
pub proof fn law_entries_say_how_they_work(shell: ShellModel)
    ensures
        ({
            let nodes = shell.flow_nodes();
            &&& shell.settings.settings_room == SettingsRoom::System && shell.system.system_flow
                == SystemFlow::ManualTime ==> reads(
                nodes,
                "manual-time-help"@,
                "← → field   ↑ ↓ value   Activate apply   Back cancel"@,
            )
            &&& shell.settings.settings_room == SettingsRoom::Network && shell.network.network_flow
                == NetworkFlow::Credential ==> reads(
                nodes,
                "wifi-credential-privacy"@,
                "Passphrase hidden · Activate to connect · Back to cancel"@,
            )
        }),
{
    let nodes = shell.flow_nodes();
    if shell.settings.settings_room == SettingsRoom::System && shell.system.system_flow
        == SystemFlow::ManualTime {
        assert(nodes.contains(nodes[2]));
    }
    if shell.settings.settings_room == SettingsRoom::Network && shell.network.network_flow
        == NetworkFlow::Credential {
        assert(nodes.contains(nodes[1]));
    }
}

/// The row in focus shows the lines of its label: the first two as they are, and
/// the third as what it is set to, but for switches and the size of the text, which
/// show that by controls of their own.
pub proof fn law_the_row_in_focus_shows_its_lines(
    shell: ShellModel,
    facts: SurfaceFacts,
    footer: Text,
    within: Seq<(usize, usize)>,
)
    requires
        at_settings(shell),
        shell.settings.settings_in_rows,
        0 <= shell.nav.focus < shell.settings_rows().len(),
        facts.row_capacity >= 1,
    ensures
        ({
            let scene = scene_of(shell, facts, footer, within);
            let row = shell.settings_rows()[shell.nav.focus];
            let lines = lines_of(row.label);
            let id = "settings-row-"@ + row.id;
            &&& lines.len() > 0 ==> reads(scene, id + "-line-"@ + decimal_text(0), lines[0])
            &&& lines.len() > 1 ==> reads(scene, id + "-line-"@ + decimal_text(1), lines[1])
            &&& lines.len() > 2 && row.id != "accessibility-textScale"@ && !begins_with(
                row.id,
                "accessibility-"@,
            ) ==> reads(scene, id + "-control"@, lines[2])
        }),
{
    let focus = shell.nav.focus;
    let row = shell.settings_rows()[focus];
    let lines = lines_of(row.label);
    let scale = shell.comfort.text_scale;
    let held = shell.settings.settings_row_focused && shell.nav.focus == focus && row.action is Some;
    let parts = row_parts(row, scale, held);
    let nodes = shell.row_nodes(row, focus);
    if lines.len() > 0 {
        let first = crate::settings_scene::line_node(row, lines, 0, scale);
        assert(crate::settings_scene::line_nodes(row, lines, scale).contains(first));
        assert(parts.contains(first));
        assert(nodes.contains(first));
        lemma_shown_row(shell, facts, footer, within, first);
    }
    if lines.len() > 1 {
        let second = crate::settings_scene::line_node(row, lines, 1, scale);
        assert(crate::settings_scene::line_nodes(row, lines, scale).contains(second));
        assert(parts.contains(second));
        assert(nodes.contains(second));
        lemma_shown_row(shell, facts, footer, within, second);
    }
    if lines.len() > 2 && row.id != "accessibility-textScale"@ && !begins_with(
        row.id,
        "accessibility-"@,
    ) {
        let control = crate::scene::plain(
            "settings-row-"@ + row.id + "-control"@,
            crate::scene::Role::Text,
            lines[2],
            crate::settings_scene::row_surface(row),
        ).focused(held).at(1);
        assert(parts.contains(control));
        assert(nodes.contains(control));
        lemma_shown_row(shell, facts, footer, within, control);
    }
}

/// The rows that only say something say it as it is, and none of them can be
/// activated.
pub proof fn law_standing_rows_of_the_rooms(shell: ShellModel)
    ensures
        shell.settings.settings_room == SettingsRoom::Accessibility ==> {
            let rows = shell.settings_rows();
            let count = shell.comfort.display_preferences.len() as int;
            &&& rows.len() == count + 2
            &&& rows[count].label == "Button remap\nThe remap flow is not available here yet\n—"@
            &&& rows[count].action is None
            &&& rows[count + 1].label
                == "ⓘ Mono audio and brightness controls are not available on this device."@
            &&& rows[count + 1].action is None
        },
        shell.settings.settings_room == SettingsRoom::Controls ==> shell.settings_rows()[2].label
            == "ⓘ Input source facts come from the active device descriptor."@,
        shell.settings.settings_room == SettingsRoom::Network ==> shell.settings_rows()[1].label
            == "ⓘ Signal and address are not reported by this authority.\n—"@
            && shell.settings_rows()[0].action is None && shell.settings_rows()[1].action is None,
        shell.settings.settings_room == SettingsRoom::System ==> {
            let rows = shell.settings_rows();
            &&& rows[1].label
                == "Device and storage\nDesktop simulator fixture\nSimulated device · storage not reported\n—"@
            &&& rows[2].label == "Licenses\nOpen-source notices\n—"@
            &&& rows[0].action is None && rows[1].action is None && rows[2].action is None
        },
{
    reveal(ShellModel::settings_rows);
}

proof fn lemma_char_taken_out(left: Text, right: Text, letter: char)
    ensures
        without_char(left + right, letter) == without_char(left, letter) + without_char(
            right,
            letter,
        ),
    decreases right.len(),
{
    let both = left + right;
    if right.len() == 0 {
        assert(both =~= left);
        assert(without_char(left, letter) + without_char(right, letter) =~= without_char(
            left,
            letter,
        ));
    } else {
        lemma_char_taken_out(left, right.drop_last(), letter);
        assert(both.drop_last() =~= left + right.drop_last());
        assert(both.last() == right.last());
        if right.last() != letter {
            assert((without_char(left, letter) + without_char(right.drop_last(), letter)).push(
                right.last(),
            ) =~= without_char(left, letter) + without_char(right, letter));
        }
    }
}

proof fn lemma_char_not_there(text: Text, letter: char)
    requires
        forall|i: int| 0 <= i < text.len() ==> #[trigger] text[i] != letter,
    ensures
        without_char(text, letter) == text,
    decreases text.len(),
{
    if text.len() > 0 {
        assert(text.last() == text[text.len() - 1]);
        lemma_char_not_there(text.drop_last(), letter);
        assert(text.drop_last().push(text.last()) =~= text);
    }
}

/// The row that sets the clock says the time that the device has, as date and time
/// of day.
pub proof fn law_the_clock_row_says_the_time(room: SystemModel, picker: ManualTimePicker)
    requires
        picker.valid(),
        picker.field == 0,
        room.time_state is Ok,
        ManualTimePicker::picker_at(room.time_state->Ok_0.wall_clock) == picker,
    ensures
        system_label(room, SystemRow::ManualTime).text == "Set time manually · "@ + (in_two(
            picker.year as int / 100,
        ) + in_two(picker.year as int % 100) + seq!['-'] + in_two(picker.month as int) + seq!['-']
            + in_two(picker.day as int) + seq![' '] + in_two(picker.hour as int) + seq![':']
            + in_two(picker.minute as int)),
{
    law_pickers_are_written_out(picker);
    let year = in_two(picker.year as int / 100) + in_two(picker.year as int % 100);
    let rest = seq!['-'] + in_two(picker.month as int) + seq!['-'] + in_two(picker.day as int) + seq![
        ' ',
    ] + in_two(picker.hour as int) + seq![':'] + in_two(picker.minute as int);
    let written = seq!['['] + year + seq![']'] + rest;
    assert(picker.written() =~= written);
    lemma_no_brackets(picker);
    lemma_char_taken_out(seq!['['] + year + seq![']'], rest, '[');
    lemma_char_taken_out(seq!['['] + year, seq![']'], '[');
    lemma_char_taken_out(seq!['['], year, '[');
    lemma_char_not_there(year, '[');
    lemma_char_not_there(rest, '[');
    lemma_char_not_there(seq![']'], '[');
    lemma_only_char('[');
    let half = year + seq![']'] + rest;
    assert(without_char(written, '[') =~= half);
    lemma_char_taken_out(year + seq![']'], rest, ']');
    lemma_char_taken_out(year, seq![']'], ']');
    lemma_char_not_there(year, ']');
    lemma_char_not_there(rest, ']');
    lemma_only_char(']');
    assert(without_char(half, ']') =~= year + rest);
    assert(year + rest =~= in_two(picker.year as int / 100) + in_two(picker.year as int % 100)
        + seq!['-'] + in_two(picker.month as int) + seq!['-'] + in_two(picker.day as int) + seq![
        ' ',
    ] + in_two(picker.hour as int) + seq![':'] + in_two(picker.minute as int));
}

proof fn lemma_only_char(letter: char)
    ensures
        without_char(seq![letter], letter) == Seq::<char>::empty(),
{
    let text = seq![letter];
    assert(text.last() == letter);
    assert(text.drop_last() =~= Seq::<char>::empty());
    assert(without_char(text.drop_last(), letter) == Seq::<char>::empty());
}

proof fn lemma_no_brackets(picker: ManualTimePicker)
    requires
        picker.valid(),
    ensures
        ({
            let year = in_two(picker.year as int / 100) + in_two(picker.year as int % 100);
            let rest = seq!['-'] + in_two(picker.month as int) + seq!['-'] + in_two(
                picker.day as int,
            ) + seq![' '] + in_two(picker.hour as int) + seq![':'] + in_two(picker.minute as int);
            &&& forall|i: int|
                0 <= i < year.len() ==> #[trigger] year[i] != '[' && year[i] != ']'
            &&& forall|i: int|
                0 <= i < rest.len() ==> #[trigger] rest[i] != '[' && rest[i] != ']'
        }),
{
}

} // verus!
