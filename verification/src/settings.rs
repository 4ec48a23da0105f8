//! The rooms of the settings and the rows in them.

use crate::ports::{PreferenceValue, ValueModel};
use crate::state::{
    BindingModel, DisplayPreference, PreferenceModel, SettingsModel, SettingsRoom, ShellCore,
    ShellModel,
};
use crate::text::{cat, cat3, join, joined, same_text, signed_decimal, signed_text, Text};
use crate::textlist::texts;
use vstd::prelude::*;
use vstd::string::*;

verus! {

broadcast use {crate::textlist::group_texts, crate::state::group_state_models};

/// What a row of the settings does when it is activated.
#[derive(Clone, Copy, Debug, PartialEq, Eq, Structural)]
pub enum SettingsRowAction {
    Preference(usize),
    Appearance,
    Recovery,
}

/// A row of the settings. A row without an action cannot be focused.
#[derive(Clone, Debug, PartialEq, Eq)]
pub struct SettingsSceneRow {
    pub id: String,
    pub label: String,
    pub accessible_label: String,
    pub action: Option<SettingsRowAction>,
}

/// The model of a row of the settings.
pub ghost struct RowModel {
    pub id: Text,
    pub label: Text,
    pub accessible_label: Text,
    pub action: Option<SettingsRowAction>,
}

impl View for SettingsSceneRow {
    type V = RowModel;

    open spec fn view(&self) -> RowModel {
        RowModel {
            id: self.id@,
            label: self.label@,
            accessible_label: self.accessible_label@,
            action: self.action,
        }
    }
}

/// Whether a list of rows has the models of another.
pub open spec fn rows_are(rows: Seq<SettingsSceneRow>, models: Seq<RowModel>) -> bool {
    rows.len() == models.len() && forall|i: int|
        0 <= i < rows.len() ==> (#[trigger] rows[i])@ == models[i]
}

/// The version that the settings tell.
pub open spec fn shell_version() -> Text {
    "0.1.0"@
}

/// A row that can only be read.
pub open spec fn read_only(id: Text, label: Text) -> RowModel {
    RowModel { id, label, accessible_label: Seq::empty(), action: None }
}

/// `ON` or `OFF`.
pub open spec fn switch_word(on: bool) -> Text {
    if on {
        "ON"@
    } else {
        "OFF"@
    }
}

/// The palette that is not High Contrast.
pub open spec fn palette_word(day: bool) -> Text {
    if day {
        "Day"@
    } else {
        "Dusk"@
    }
}

/// What a preference changes.
pub open spec fn consequence(key: Text) -> Text {
    if key == "textScale"@ {
        "Reflows labels and rows live"@
    } else if key == "highContrast"@ {
        "Uses the strongest text and focus contrast"@
    } else if key == "reduceMotion"@ {
        "Completes transitions without movement"@
    } else {
        "Prevents future flashing treatments"@
    }
}

/// How a preference's value is set out as a control.
pub open spec fn control_text(value: ValueModel) -> Text {
    match value {
        ValueModel::Bool(on) => switch_word(on) + " "@ + if on {
            "——●"@
        } else {
            "●——"@
        },
        ValueModel::Text(text) => "100% / 150% / 200% · "@ + text,
        ValueModel::Integer(number) => signed_text(number),
    }
}

/// How a preference's value is read out.
pub open spec fn value_text(value: ValueModel) -> Text {
    match value {
        ValueModel::Bool(on) => switch_word(on),
        ValueModel::Text(text) => text,
        ValueModel::Integer(number) => signed_text(number),
    }
}

/// The row of a preference. It can be activated only where the service applies
/// the preference.
pub open spec fn preference_row(index: int, row: PreferenceModel) -> RowModel {
    RowModel {
        id: "accessibility-"@ + row.key,
        label: if row.interactive {
            row.label + "\n"@ + consequence(row.key) + "\n"@ + control_text(row.effective)
        } else {
            row.label + "\nStored, but this build cannot apply it\n—"@
        },
        accessible_label: row.label + " · "@ + value_text(row.effective),
        action: if row.interactive {
            Some(SettingsRowAction::Preference(index as usize))
        } else {
            None
        },
    }
}

/// The rows of the preferences.
pub open spec fn preference_rows(rows: Seq<PreferenceModel>) -> Seq<RowModel> {
    Seq::new(rows.len(), |i: int| preference_row(i, rows[i]))
}

/// The buttons that are bound, side by side.
pub open spec fn binding_preview(bindings: Seq<BindingModel>) -> Text {
    if bindings.len() == 0 {
        "No input map reported"@
    } else {
        joined(Seq::new(bindings.len(), |i: int| bindings[i].binding), "  "@)
    }
}

impl ShellModel {
    /// The rows of the controls room.
    pub open spec fn control_rows(self) -> Seq<RowModel> {
        seq![
            read_only(
                "controls-remap"@,
                "Remap buttons\nCurrent map: "@ + binding_preview(self.settings.control_bindings) + "\n—"@,
            ),
            read_only(
                "controls-safe-return"@,
                "Safe Return button\nReturns safely from any game\n"@ + self.settings.safe_return_binding
                    + "  —"@,
            ),
            read_only(
                "controls-source"@,
                "ⓘ Input source facts come from the active device descriptor."@,
            ),
        ]
    }

    /// The row of the display room.
    pub open spec fn appearance_row(self) -> RowModel {
        RowModel {
            id: "display-appearance"@,
            label: "Appearance\nChanges the room palette; High Contrast composes over it\nDusk / Day · "@
                + palette_word(self.comfort.appearance_day),
            accessible_label: "Appearance · "@ + palette_word(self.comfort.appearance_day),
            action: Some(SettingsRowAction::Appearance),
        }
    }

    /// The name of the network that the device is on.
    pub open spec fn network_name(self) -> Text {
        match self.network.network_state {
            Ok(state) => match state.connected_ssid {
                Some(ssid) => ssid,
                None => "Not connected"@,
            },
            Err(_) => "Not connected"@,
        }
    }

    /// The rows of the network room.
    pub open spec fn network_rows(self) -> Seq<RowModel> {
        seq![
            read_only(
                "network-ssid"@,
                "SSID\nObserved connected network\n"@ + self.network_name() + "\n—"@,
            ),
            read_only(
                "network-signal"@,
                "ⓘ Signal and address are not reported by this authority.\n—"@,
            ),
        ]
    }

    /// The rows of the system room; recovery is offered only where it can be had.
    pub open spec fn system_room_rows(self) -> Seq<RowModel> {
        let rows = seq![
            read_only(
                "system-about"@,
                "About\nPocketForge shell version\n"@ + shell_version() + "\n—"@,
            ),
            read_only(
                "system-device"@,
                "Device and storage\nDesktop simulator fixture\nSimulated device · storage not reported\n—"@,
            ),
            read_only("system-licenses"@, "Licenses\nOpen-source notices\n—"@),
        ];
        if self.session.recovery_available {
            rows.push(
                RowModel {
                    id: "system-recovery"@,
                    label: "Recovery\nOpen the independent recovery entry\n›"@,
                    accessible_label: "Recovery"@,
                    action: Some(SettingsRowAction::Recovery),
                },
            )
        } else {
            rows
        }
    }

    /// The rows of the room that the settings show.
    #[verifier::opaque]
    pub open spec fn settings_rows(self) -> Seq<RowModel> {
        match self.settings.settings_room {
            SettingsRoom::Accessibility => preference_rows(self.comfort.display_preferences).push(
                read_only(
                    "accessibility-remap"@,
                    "Button remap\nThe remap flow is not available here yet\n—"@,
                ),
            ).push(
                read_only(
                    "accessibility-diagnostic"@,
                    "ⓘ Mono audio and brightness controls are not available on this device."@,
                ),
            ),
            SettingsRoom::Controls => self.control_rows(),
            SettingsRoom::Display => seq![self.appearance_row()],
            SettingsRoom::Network => self.network_rows(),
            SettingsRoom::System => self.system_room_rows(),
        }
    }

    /// How many rows the room that the settings show has.
    pub open spec fn row_count(self) -> int {
        match self.settings.settings_room {
            SettingsRoom::Accessibility => self.comfort.display_preferences.len() as int + 2,
            SettingsRoom::Controls => 3,
            SettingsRoom::Display => 1,
            SettingsRoom::Network => 2,
            SettingsRoom::System => if self.session.recovery_available {
                4
            } else {
                3
            },
        }
    }

    /// What a row does when it is activated.
    pub open spec fn row_action(self, place: int) -> Option<SettingsRowAction> {
        match self.settings.settings_room {
            SettingsRoom::Accessibility => if 0 <= place < self.comfort.display_preferences.len()
                && self.comfort.display_preferences[place].interactive {
                Some(SettingsRowAction::Preference(place as usize))
            } else {
                None
            },
            SettingsRoom::Display => if place == 0 {
                Some(SettingsRowAction::Appearance)
            } else {
                None
            },
            SettingsRoom::System => if self.session.recovery_available && place == 3 {
                Some(SettingsRowAction::Recovery)
            } else {
                None
            },
            _ => None,
        }
    }

    /// How many rows there are, and what each of them does.
    pub proof fn lemma_settings_rows(self)
        ensures
            self.settings_rows().len() == self.row_count(),
            forall|i: int|
                0 <= i < self.row_count() ==> (#[trigger] self.settings_rows()[i]).action
                    == self.row_action(i),
    {
        reveal(ShellModel::settings_rows);
    }

    /// The rooms that the settings offer. The network is one of them only where
    /// something is known of it.
    pub open spec fn rooms(self) -> Seq<SettingsRoom> {
        if self.network.network_state is Ok {
            seq![
                SettingsRoom::Accessibility,
                SettingsRoom::Controls,
                SettingsRoom::Display,
                SettingsRoom::Network,
                SettingsRoom::System,
            ]
        } else {
            seq![
                SettingsRoom::Accessibility,
                SettingsRoom::Controls,
                SettingsRoom::Display,
                SettingsRoom::System,
            ]
        }
    }

    /// The state that shows a room of the settings.
    pub open spec fn showing_room(self, room: SettingsRoom) -> ShellModel {
        ShellModel { settings: SettingsModel { settings_room: room, ..self.settings }, ..self }
    }

    /// How many rooms the settings offer.
    pub open spec fn room_count(self) -> int {
        if self.network.network_state is Ok {
            5
        } else {
            4
        }
    }

    /// The place of the shown room among those that the settings offer; the
    /// first place where it is not among them.
    pub open spec fn room_place(self) -> int {
        match self.settings.settings_room {
            SettingsRoom::Accessibility => 0,
            SettingsRoom::Controls => 1,
            SettingsRoom::Display => 2,
            SettingsRoom::Network => if self.network.network_state is Ok {
                3
            } else {
                0
            },
            SettingsRoom::System => if self.network.network_state is Ok {
                4
            } else {
                3
            },
        }
    }
}

/// Every room that the settings offer has a service behind it.
pub proof fn law_offered_rooms_are_known(shell: ShellModel, place: int)
    requires
        0 <= place < shell.room_count(),
    ensures
        shell.rooms().len() == shell.room_count(),
        shell.showing_room(shell.rooms()[place]).room_known(),
        shell.showing_room(shell.rooms()[place]).room_place() == place,
{
}

fn disabled(id: &str, label: String) -> (row: SettingsSceneRow)
    ensures
        row@ == read_only(id@, label@),
{
    SettingsSceneRow {
        id: id.to_owned(),
        label,
        accessible_label: String::new(),
        action: None,
    }
}

fn switch_label(on: bool) -> (word: &'static str)
    ensures
        word@ == switch_word(on),
{
    if on {
        "ON"
    } else {
        "OFF"
    }
}

fn palette_label(day: bool) -> (word: &'static str)
    ensures
        word@ == palette_word(day),
{
    if day {
        "Day"
    } else {
        "Dusk"
    }
}

fn write_control(value: &PreferenceValue) -> (text: String)
    ensures
        text@ == control_text(value@),
{
    match value {
        PreferenceValue::Bool(on) => cat3(
            switch_label(*on),
            " ",
            if *on {
                "——●"
            } else {
                "●——"
            },
        ),
        PreferenceValue::Text(text) => cat("100% / 150% / 200% · ", text.as_str()),
        PreferenceValue::Integer(number) => signed_decimal(*number),
    }
}

fn write_value(value: &PreferenceValue) -> (text: String)
    ensures
        text@ == value_text(value@),
{
    match value {
        PreferenceValue::Bool(on) => switch_label(*on).to_owned(),
        PreferenceValue::Text(text) => text.clone(),
        PreferenceValue::Integer(number) => signed_decimal(*number),
    }
}

fn write_consequence(key: &str) -> (text: &'static str)
    ensures
        text@ == consequence(key@),
{
    if same_text(key, "textScale") {
        "Reflows labels and rows live"
    } else if same_text(key, "highContrast") {
        "Uses the strongest text and focus contrast"
    } else if same_text(key, "reduceMotion") {
        "Completes transitions without movement"
    } else {
        "Prevents future flashing treatments"
    }
}

fn make_preference_row(index: usize, row: &DisplayPreference) -> (made: SettingsSceneRow)
    ensures
        made@ == preference_row(index as int, row@),
{
    SettingsSceneRow {
        id: cat("accessibility-", row.key),
        label: if row.interactive {
            cat3(row.label, "\n", write_consequence(row.key)).concat("\n").concat(
                write_control(&row.effective).as_str(),
            )
        } else {
            cat(row.label, "\nStored, but this build cannot apply it\n—")
        },
        accessible_label: cat3(row.label, " · ", write_value(&row.effective).as_str()),
        action: if row.interactive {
            Some(SettingsRowAction::Preference(index))
        } else {
            None
        },
    }
}

impl ShellCore {
    fn make_binding_preview(&self) -> (text: String)
        ensures
            text@ == binding_preview(self@.settings.control_bindings),
    {
        if self.settings.control_bindings.len() == 0 {
            return "No input map reported".to_owned();
        }
        let mut buttons: Vec<String> = Vec::new();
        let mut next: usize = 0;
        while next < self.settings.control_bindings.len()
            invariant
                next <= self.settings.control_bindings@.len(),
                buttons@.len() == next,
                forall|i: int|
                    0 <= i < next ==> (#[trigger] buttons@[i])@
                        == self.settings.control_bindings@[i].binding@,
            decreases self.settings.control_bindings@.len() - next,
        {
            buttons.push(self.settings.control_bindings[next].binding.clone());
            next += 1;
        }
        proof {
            let bindings = self@.settings.control_bindings;
            assert(texts(buttons@) =~= Seq::new(bindings.len(), |i: int| bindings[i].binding));
        }
        join(&buttons, "  ")
    }

    fn make_preference_rows(&self) -> (rows: Vec<SettingsSceneRow>)
        ensures
            rows_are(rows@, preference_rows(self@.comfort.display_preferences)),
    {
        let mut rows: Vec<SettingsSceneRow> = Vec::new();
        let mut next: usize = 0;
        while next < self.comfort.display_preferences.len()
            invariant
                next <= self.comfort.display_preferences@.len(),
                rows@.len() == next,
                forall|i: int|
                    0 <= i < next ==> (#[trigger] rows@[i])@ == preference_row(
                        i,
                        self.comfort.display_preferences@[i]@,
                    ),
            decreases self.comfort.display_preferences@.len() - next,
        {
            rows.push(make_preference_row(next, &self.comfort.display_preferences[next]));
            next += 1;
        }
        rows
    }

    fn make_network_label(&self) -> (text: String)
        ensures
            text@ == "SSID\nObserved connected network\n"@ + self@.network_name() + "\n—"@,
    {
        let name = match &self.network.network_state {
            Ok(state) => match &state.connected_ssid {
                Some(ssid) => ssid.clone(),
                None => "Not connected".to_owned(),
            },
            Err(_) => "Not connected".to_owned(),
        };
        cat3("SSID\nObserved connected network\n", name.as_str(), "\n—")
    }

    /// The rows of the room that the settings show.
    pub fn settings_scene_rows(&self) -> (rows: Vec<SettingsSceneRow>)
        requires
            self@.room_known(),
        ensures
            rows_are(rows@, self@.settings_rows()),
            rows@.len() == self@.row_count(),
            forall|i: int| 0 <= i < rows@.len() ==> (#[trigger] rows@[i]).action == self@.row_action(i),
    {
        proof {
            reveal(ShellModel::settings_rows);
            self@.lemma_settings_rows();
        }
        match self.settings.settings_room {
            SettingsRoom::Accessibility => {
                let mut rows = self.make_preference_rows();
                rows.push(
                    disabled(
                        "accessibility-remap",
                        "Button remap\nThe remap flow is not available here yet\n—".to_owned(),
                    ),
                );
                rows.push(
                    disabled(
                        "accessibility-diagnostic",
                        "ⓘ Mono audio and brightness controls are not available on this device.".to_owned(),
                    ),
                );
                rows
            },
            SettingsRoom::Controls => {
                let mut rows: Vec<SettingsSceneRow> = Vec::new();
                let preview = self.make_binding_preview();
                rows.push(
                    disabled(
                        "controls-remap",
                        cat3("Remap buttons\nCurrent map: ", preview.as_str(), "\n—"),
                    ),
                );
                rows.push(
                    disabled(
                        "controls-safe-return",
                        cat3(
                            "Safe Return button\nReturns safely from any game\n",
                            self.settings.safe_return_binding.as_str(),
                            "  —",
                        ),
                    ),
                );
                rows.push(
                    disabled(
                        "controls-source",
                        "ⓘ Input source facts come from the active device descriptor.".to_owned(),
                    ),
                );
                rows
            },
            SettingsRoom::Display => {
                let mut rows: Vec<SettingsSceneRow> = Vec::new();
                let palette = palette_label(self.comfort.appearance_day);
                rows.push(
                    SettingsSceneRow {
                        id: "display-appearance".to_owned(),
                        label: cat(
                            "Appearance\nChanges the room palette; High Contrast composes over it\nDusk / Day · ",
                            palette,
                        ),
                        accessible_label: cat("Appearance · ", palette),
                        action: Some(SettingsRowAction::Appearance),
                    },
                );
                rows
            },
            SettingsRoom::Network => {
                let mut rows: Vec<SettingsSceneRow> = Vec::new();
                rows.push(disabled("network-ssid", self.make_network_label()));
                rows.push(
                    disabled(
                        "network-signal",
                        "ⓘ Signal and address are not reported by this authority.\n—".to_owned(),
                    ),
                );
                rows
            },
            SettingsRoom::System => {
                let mut rows: Vec<SettingsSceneRow> = Vec::new();
                rows.push(
                    disabled(
                        "system-about",
                        cat3("About\nPocketForge shell version\n", "0.1.0", "\n—"),
                    ),
                );
                rows.push(
                    disabled(
                        "system-device",
                        "Device and storage\nDesktop simulator fixture\nSimulated device · storage not reported\n—".to_owned(),
                    ),
                );
                rows.push(
                    disabled("system-licenses", "Licenses\nOpen-source notices\n—".to_owned()),
                );
                if self.session.recovery_available {
                    rows.push(
                        SettingsSceneRow {
                            id: "system-recovery".to_owned(),
                            label: "Recovery\nOpen the independent recovery entry\n›".to_owned(),
                            accessible_label: "Recovery".to_owned(),
                            action: Some(SettingsRowAction::Recovery),
                        },
                    );
                }
                rows
            },
        }
    }

    /// The rooms that the settings offer.
    pub fn settings_rooms(&self) -> (rooms: Vec<SettingsRoom>)
        ensures
            rooms@ == self@.rooms(),
    {
        let mut rooms: Vec<SettingsRoom> = Vec::new();
        rooms.push(SettingsRoom::Accessibility);
        rooms.push(SettingsRoom::Controls);
        rooms.push(SettingsRoom::Display);
        if self.network.network_state.is_ok() {
            rooms.push(SettingsRoom::Network);
        }
        rooms.push(SettingsRoom::System);
        proof {
            assert(rooms@ =~= self@.rooms());
        }
        rooms
    }

    /// The place of the shown room among those that the settings offer.
    pub fn settings_room_place(&self) -> (place: usize)
        ensures
            place == self@.room_place(),
    {
        let rooms = self.settings_rooms();
        let mut next: usize = 0;
        while next < rooms.len()
            invariant
                next <= rooms@.len(),
                rooms@ == self@.rooms(),
                forall|i: int| 0 <= i < next ==> rooms@[i] != self.settings.settings_room,
            decreases rooms@.len() - next,
        {
            if rooms[next] == self.settings.settings_room {
                return next;
            }
            next += 1;
        }
        proof {
            if self.network.network_state is Ok {
                assert(self@.rooms()[0] == SettingsRoom::Accessibility);
                assert(self@.rooms()[1] == SettingsRoom::Controls);
                assert(self@.rooms()[2] == SettingsRoom::Display);
                assert(self@.rooms()[3] == SettingsRoom::Network);
                assert(self@.rooms()[4] == SettingsRoom::System);
            } else {
                assert(self@.rooms()[0] == SettingsRoom::Accessibility);
                assert(self@.rooms()[1] == SettingsRoom::Controls);
                assert(self@.rooms()[2] == SettingsRoom::Display);
                assert(self@.rooms()[3] == SettingsRoom::System);
            }
        }
        0
    }
}

} // verus!
