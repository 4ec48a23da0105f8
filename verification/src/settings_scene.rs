//! The scenes of the settings.

use crate::calendar::{nanos_per_day, ManualTimePicker, LAST_CIVIL_DAY};
use crate::cutting::{
    after_last, drop_char, has_prefix, lines_of, repeat_char, repeated, rest_after_last,
    split_lines, without_char,
};
use crate::home_scene::{find_window, window_from};
use crate::navigation::least;
use crate::ports::{NtpState, TransferService, WifiSecurity};
use crate::preferences::{preference_label, preference_words};
use crate::scene::{
    maybe, no_nodes, node, node_models, plain, put, put_all, put_if, BorderWeight, NodeModel, Role,
    SceneNode, Token,
};
use crate::services::{
    clock_settable, flag_word, law_manual_time_is_offered_where_settable, service_place,
    system_rows_of, SystemRow,
};
use crate::settings::{rows_are, RowModel, SettingsSceneRow};
use crate::state::{
    service_models, NetworkFlow, SettingsRoom, ShellCore, ShellModel, SystemFlow, SystemModel,
    TransferModel, WifiModel,
};
use crate::surface::SurfaceFacts;
use crate::text::{
    begins_with, cat, cat3, decimal, decimal_text, same_text, text_of, Text,
};
use crate::textlist::texts;
use vstd::prelude::*;
use vstd::string::*;

verus! {

broadcast use {
    crate::textlist::group_texts,
    crate::state::group_state_models,
    crate::scene::group_node_models,
};

impl SettingsRoom {
    /// The name of a room.
    pub open spec fn title(self) -> Text {
        match self {
            SettingsRoom::Accessibility => "Accessibility"@,
            SettingsRoom::Controls => "Controls"@,
            SettingsRoom::Display => "Display"@,
            SettingsRoom::Network => "Network"@,
            SettingsRoom::System => "System"@,
        }
    }

    /// The id of the entry of a room.
    pub open spec fn entry_id(self) -> Text {
        match self {
            SettingsRoom::Accessibility => "settings-nav-accessibility"@,
            SettingsRoom::Controls => "settings-nav-controls"@,
            SettingsRoom::Display => "settings-nav-display"@,
            SettingsRoom::Network => "settings-nav-network"@,
            SettingsRoom::System => "settings-nav-system"@,
        }
    }

    /// What stands above the rows of a room.
    pub open spec fn section(self) -> Text {
        match self {
            SettingsRoom::Network => "Network status"@,
            _ => self.title(),
        }
    }

    fn write_title(self) -> (title: &'static str)
        ensures
            title@ == self.title(),
    {
        match self {
            SettingsRoom::Accessibility => "Accessibility",
            SettingsRoom::Controls => "Controls",
            SettingsRoom::Display => "Display",
            SettingsRoom::Network => "Network",
            SettingsRoom::System => "System",
        }
    }

    fn write_entry_id(self) -> (id: &'static str)
        ensures
            id@ == self.entry_id(),
    {
        match self {
            SettingsRoom::Accessibility => "settings-nav-accessibility",
            SettingsRoom::Controls => "settings-nav-controls",
            SettingsRoom::Display => "settings-nav-display",
            SettingsRoom::Network => "settings-nav-network",
            SettingsRoom::System => "settings-nav-system",
        }
    }
}

impl ShellModel {
    /// The nodes of the entry of a room.
    pub open spec fn entry_nodes(self, room: SettingsRoom, index: int) -> Seq<NodeModel> {
        let selected = room == self.settings.settings_room;
        let focused = !self.settings.settings_in_rows && self.nav.focus == index;
        let token = if focused {
            Token::RestSurface
        } else {
            Token::Raised
        };
        seq![
            plain(room.entry_id(), Role::Button, room.title(), token).focused(focused).selected(
                selected && !focused,
            ).activated_by(true),
            plain(
                room.entry_id() + "-label"@,
                Role::Text,
                (if selected {
                    "▌ "@
                } else {
                    "  "@
                }) + room.title(),
                token,
            ).focused(focused).at(1),
        ]
    }

    /// The nodes of the entries of the first rooms.
    pub open spec fn entries_before(self, rooms: Seq<SettingsRoom>, upto: int) -> Seq<NodeModel>
        decreases upto,
    {
        if upto <= 0 {
            Seq::empty()
        } else {
            self.entries_before(rooms, upto - 1) + self.entry_nodes(rooms[upto - 1], upto - 1)
        }
    }
}

/// The surface of a row.
pub open spec fn row_surface(row: RowModel) -> Token {
    if row.action is Some {
        Token::RestSurface
    } else {
        Token::DisabledBorder
    }
}

/// A line of a row. At enlarged scales notices and descriptions may take
/// several lines.
pub open spec fn line_node(row: RowModel, lines: Seq<Text>, index: int, scale: int) -> NodeModel {
    plain(
        "settings-row-"@ + row.id + "-line-"@ + decimal_text(index as nat),
        Role::Text,
        lines[index],
        row_surface(row),
    ).multiline(
        scale > 100 && (index > 0 || (row.action is None && lines.len() == 1)),
    ).inked(
        if index == 0 {
            Token::TextPrimary
        } else {
            Token::TextSecondary
        },
    ).at(1)
}

/// The first two lines of a row.
pub open spec fn line_nodes(row: RowModel, lines: Seq<Text>, scale: int) -> Seq<NodeModel> {
    Seq::<NodeModel>::empty() + maybe(lines.len() > 0, line_node(row, lines, 0, scale)) + maybe(
        lines.len() > 1,
        line_node(row, lines, 1, scale),
    )
}

/// The chip of a text scale.
pub open spec fn scale_chip(value: Text, selected: bool, focused: bool) -> NodeModel {
    plain(
        "settings-text-scale-chip-"@ + value,
        Role::Group,
        ""@,
        if selected {
            Token::SelectedAccent
        } else {
            Token::RestSurface
        },
    ).framed(
        if focused && selected {
            Token::FocusedRing
        } else {
            Token::BorderHairline
        },
        BorderWeight::Thin,
    ).selected(selected).at(1)
}

/// The number on the chip of a text scale.
pub open spec fn scale_value(value: Text, selected: bool) -> NodeModel {
    plain(
        "settings-text-scale-value-"@ + value,
        Role::Text,
        value,
        if selected {
            Token::SelectedAccent
        } else {
            Token::RestSurface
        },
    ).inked(
        if selected {
            Token::TextInverse
        } else {
            Token::TextPrimary
        },
    ).at(1)
}

/// The text scale that a row shows.
pub open spec fn shown_scale(lines: Seq<Text>) -> Text {
    if lines.len() > 0 {
        after_last(lines.last(), " · "@).unwrap_or("100%"@)
    } else {
        "100%"@
    }
}

/// The control of the text scale: its chips below its numbers and lines.
pub open spec fn scale_nodes(row: RowModel, lines: Seq<Text>, scale: int, focused: bool) -> Seq<
    NodeModel,
> {
    let shown = shown_scale(lines);
    seq![
        plain(
            "settings-text-scale-segmented-control"@,
            Role::Group,
            ""@,
            Token::Transparent,
        ).at(1),
        scale_chip("100%"@, shown == "100%"@, focused),
        scale_chip("150%"@, shown == "150%"@, focused),
        scale_chip("200%"@, shown == "200%"@, focused),
    ] + line_nodes(row, lines, scale) + seq![
        scale_value("100%"@, shown == "100%"@),
        scale_value("150%"@, shown == "150%"@),
        scale_value("200%"@, shown == "200%"@),
    ]
}

/// A switch: its track and knob below its state and lines.
pub open spec fn switch_nodes(
    row: RowModel,
    lines: Seq<Text>,
    scale: int,
    focused: bool,
    on: bool,
) -> Seq<NodeModel> {
    let id = "settings-toggle-"@ + row.id;
    seq![
        plain(
            id + "-track"@,
            Role::Group,
            ""@,
            if on {
                Token::SelectedAccent
            } else {
                Token::Sunken
            },
        ).at(1),
        plain(
            id + "-knob"@,
            Role::Group,
            ""@,
            if on {
                Token::TextInverse
            } else {
                Token::TextPrimary
            },
        ).at(1),
    ] + line_nodes(row, lines, scale) + seq![
        plain(
            id + "-state"@,
            Role::Text,
            if on {
                "ON"@
            } else {
                "OFF"@
            },
            row_surface(row),
        ).focused(focused).at(1),
    ]
}

/// Whether the last line of a row tells the state of a switch.
pub open spec fn is_switch(row: RowModel, lines: Seq<Text>) -> bool {
    begins_with(row.id, "accessibility-"@) && lines.len() > 0 && (begins_with(lines.last(), "ON"@)
        || begins_with(lines.last(), "OFF"@))
}

/// What stands on a row.
pub open spec fn row_parts(row: RowModel, scale: int, focused: bool) -> Seq<NodeModel> {
    let lines = lines_of(row.label);
    if row.id == "accessibility-textScale"@ {
        scale_nodes(row, lines, scale, focused)
    } else if is_switch(row, lines) {
        switch_nodes(row, lines, scale, focused, begins_with(lines.last(), "ON"@))
    } else {
        line_nodes(row, lines, scale) + maybe(
            lines.len() > 2,
            plain(
                "settings-row-"@ + row.id + "-control"@,
                Role::Text,
                lines[2],
                row_surface(row),
            ).focused(focused).at(1),
        )
    }
}

impl ShellModel {
    /// The nodes of a row of the settings. Only what can be changed on it is
    /// ever in focus.
    pub open spec fn row_nodes(self, row: RowModel, index: int) -> Seq<NodeModel> {
        let interactive = row.action is Some;
        seq![
            plain(
                "settings-row-"@ + row.id,
                if interactive {
                    Role::Button
                } else {
                    Role::Text
                },
                row.accessible_label,
                row_surface(row),
            ).activated_by(interactive),
        ] + row_parts(
            row,
            self.comfort.text_scale,
            self.settings.settings_row_focused && self.nav.focus == index && interactive,
        )
    }

    /// The first row that is shown.
    pub open spec fn rows_from(self, facts: SurfaceFacts) -> int {
        window_from(
            self.nav.focus,
            facts.row_capacity as int,
            self.settings_rows().len() as int,
        )
    }

    /// The nodes of the rows before a place.
    pub open spec fn rows_before(self, facts: SurfaceFacts, upto: int) -> Seq<NodeModel>
        decreases upto - self.rows_from(facts),
    {
        if upto <= self.rows_from(facts) {
            Seq::empty()
        } else {
            self.rows_before(facts, upto - 1) + self.row_nodes(
                self.settings_rows()[upto - 1],
                upto - 1,
            )
        }
    }

    /// The nodes of a section of the settings.
    pub open spec fn section_nodes(self, facts: SurfaceFacts) -> Seq<NodeModel> {
        seq![
            plain(
                "settings-section-title"@,
                Role::Heading,
                self.settings.settings_room.section(),
                Token::Canvas,
            ),
        ] + maybe(
            facts.portrait,
            plain("settings-section-back"@, Role::Text, "‹ Back to sections"@, Token::Canvas),
        ) + seq![
            plain("settings-rows-scroll-region"@, Role::Group, "Settings rows"@, Token::Canvas),
        ] + self.rows_before(
            facts,
            least(
                self.rows_from(facts) + facts.row_capacity,
                self.settings_rows().len() as int,
            ),
        )
    }

    /// Whether the settings show one step of a longer flow in place of rows.
    pub open spec fn in_flow(self) -> bool {
        self.system.system_flow == SystemFlow::ManualTime || self.network.network_flow
            == NetworkFlow::Credential
    }

    /// Whether the rooms are shown. On a high surface the rows of a room take
    /// their place.
    pub open spec fn rooms_shown(self, facts: SurfaceFacts) -> bool {
        !facts.portrait || !self.settings.settings_in_rows
    }

    /// Whether the rows of a room are shown.
    pub open spec fn rows_shown(self, facts: SurfaceFacts) -> bool {
        !facts.portrait || self.settings.settings_in_rows
    }

    /// The nodes of the settings.
    pub open spec fn settings_nodes(self, facts: SurfaceFacts) -> Seq<NodeModel> {
        if self.in_flow() {
            self.flow_nodes()
        } else {
            (if self.rooms_shown(facts) {
                self.entries_before(self.rooms(), self.rooms().len() as int)
            } else {
                Seq::empty()
            }) + (if self.rows_shown(facts) {
                self.section_nodes(facts)
            } else {
                Seq::empty()
            })
        }
    }
}

impl ShellCore {
    fn show_entry(&self, room: SettingsRoom, index: usize) -> (nodes: Vec<SceneNode>)
        ensures
            node_models(nodes@) == self@.entry_nodes(room, index as int),
    {
        let selected = room == self.settings.settings_room;
        let focused = !self.settings.settings_in_rows && self.nav.focus == index;
        let token = if focused {
            Token::RestSurface
        } else {
            Token::Raised
        };
        let mut nodes = no_nodes();
        put(
            &mut nodes,
            node(room.write_entry_id(), Role::Button, room.write_title(), token).focused(
                focused,
            ).selected(selected && !focused).activated_by(true),
        );
        put(
            &mut nodes,
            node(
                cat(room.write_entry_id(), "-label").as_str(),
                Role::Text,
                cat(
                    if selected {
                        "▌ "
                    } else {
                        "  "
                    },
                    room.write_title(),
                ).as_str(),
                token,
            ).focused(focused).at(1),
        );
        nodes
    }

    fn show_entries(&self) -> (nodes: Vec<SceneNode>)
        ensures
            node_models(nodes@) == self@.entries_before(
                self@.rooms(),
                self@.rooms().len() as int,
            ),
    {
        let rooms = self.settings_rooms();
        let mut nodes = no_nodes();
        let mut next: usize = 0;
        while next < rooms.len()
            invariant
                next <= rooms@.len(),
                rooms@ == self@.rooms(),
                node_models(nodes@) == self@.entries_before(rooms@, next as int),
            decreases rooms@.len() - next,
        {
            put_all(&mut nodes, self.show_entry(rooms[next], next));
            next += 1;
        }
        nodes
    }
}

fn surface_of(row: &SettingsSceneRow) -> (token: Token)
    ensures
        token == row_surface(row@),
{
    if row.action.is_some() {
        Token::RestSurface
    } else {
        Token::DisabledBorder
    }
}

fn show_line(row: &SettingsSceneRow, lines: &Vec<String>, index: usize, scale: u16) -> (made:
    SceneNode)
    requires
        index < lines@.len(),
    ensures
        made@ == line_node(row@, texts(lines@), index as int, scale as int),
{
    node(
        cat3("settings-row-", row.id.as_str(), "-line-").concat(
            decimal(index as u64).as_str(),
        ).as_str(),
        Role::Text,
        lines[index].as_str(),
        surface_of(row),
    ).multiline(scale > 100 && (index > 0 || (row.action.is_none() && lines.len() == 1))).inked(
        if index == 0 {
            Token::TextPrimary
        } else {
            Token::TextSecondary
        },
    ).at(1)
}

fn show_lines(row: &SettingsSceneRow, lines: &Vec<String>, scale: u16) -> (nodes: Vec<SceneNode>)
    ensures
        node_models(nodes@) == line_nodes(row@, texts(lines@), scale as int),
{
    let mut nodes = no_nodes();
    if lines.len() > 0 {
        put_if(&mut nodes, true, show_line(row, lines, 0, scale));
    } else {
        put_if(&mut nodes, false, node("", Role::Text, "", Token::Canvas));
    }
    if lines.len() > 1 {
        put_if(&mut nodes, true, show_line(row, lines, 1, scale));
    } else {
        put_if(&mut nodes, false, node("", Role::Text, "", Token::Canvas));
    }
    nodes
}

fn show_chip_of(value: &str, selected: bool, focused: bool) -> (made: SceneNode)
    ensures
        made@ == scale_chip(value@, selected, focused),
{
    node(
        cat("settings-text-scale-chip-", value).as_str(),
        Role::Group,
        "",
        if selected {
            Token::SelectedAccent
        } else {
            Token::RestSurface
        },
    ).framed(
        if focused && selected {
            Token::FocusedRing
        } else {
            Token::BorderHairline
        },
        BorderWeight::Thin,
    ).selected(selected).at(1)
}

fn show_value_of(value: &str, selected: bool) -> (made: SceneNode)
    ensures
        made@ == scale_value(value@, selected),
{
    node(
        cat("settings-text-scale-value-", value).as_str(),
        Role::Text,
        value,
        if selected {
            Token::SelectedAccent
        } else {
            Token::RestSurface
        },
    ).inked(
        if selected {
            Token::TextInverse
        } else {
            Token::TextPrimary
        },
    ).at(1)
}

fn show_scale(row: &SettingsSceneRow, lines: &Vec<String>, scale: u16, focused: bool) -> (nodes:
    Vec<SceneNode>)
    ensures
        node_models(nodes@) == scale_nodes(row@, texts(lines@), scale as int, focused),
{
    let shown = if lines.len() > 0 {
        match rest_after_last(lines[lines.len() - 1].as_str(), " · ") {
            Some(value) => value,
            None => "100%".to_owned(),
        }
    } else {
        "100%".to_owned()
    };
    let plain_size = same_text(shown.as_str(), "100%");
    let large_size = same_text(shown.as_str(), "150%");
    let largest_size = same_text(shown.as_str(), "200%");
    let mut nodes = no_nodes();
    put(
        &mut nodes,
        node(
            "settings-text-scale-segmented-control",
            Role::Group,
            "",
            Token::Transparent,
        ).at(1),
    );
    put(&mut nodes, show_chip_of("100%", plain_size, focused));
    put(&mut nodes, show_chip_of("150%", large_size, focused));
    put(&mut nodes, show_chip_of("200%", largest_size, focused));
    put_all(&mut nodes, show_lines(row, lines, scale));
    let mut values = no_nodes();
    put(&mut values, show_value_of("100%", plain_size));
    put(&mut values, show_value_of("150%", large_size));
    put(&mut values, show_value_of("200%", largest_size));
    put_all(&mut nodes, values);
    nodes
}

fn show_switch(
    row: &SettingsSceneRow,
    lines: &Vec<String>,
    scale: u16,
    focused: bool,
    on: bool,
) -> (nodes: Vec<SceneNode>)
    ensures
        node_models(nodes@) == switch_nodes(row@, texts(lines@), scale as int, focused, on),
{
    let id = cat("settings-toggle-", row.id.as_str());
    let mut nodes = no_nodes();
    put(
        &mut nodes,
        node(
            cat(id.as_str(), "-track").as_str(),
            Role::Group,
            "",
            if on {
                Token::SelectedAccent
            } else {
                Token::Sunken
            },
        ).at(1),
    );
    put(
        &mut nodes,
        node(
            cat(id.as_str(), "-knob").as_str(),
            Role::Group,
            "",
            if on {
                Token::TextInverse
            } else {
                Token::TextPrimary
            },
        ).at(1),
    );
    put_all(&mut nodes, show_lines(row, lines, scale));
    let mut state = no_nodes();
    put(
        &mut state,
        node(
            cat(id.as_str(), "-state").as_str(),
            Role::Text,
            if on {
                "ON"
            } else {
                "OFF"
            },
            surface_of(row),
        ).focused(focused).at(1),
    );
    put_all(&mut nodes, state);
    nodes
}

fn show_parts(row: &SettingsSceneRow, scale: u16, focused: bool) -> (nodes: Vec<SceneNode>)
    ensures
        node_models(nodes@) == row_parts(row@, scale as int, focused),
{
    let lines = split_lines(row.label.as_str());
    if same_text(row.id.as_str(), "accessibility-textScale") {
        return show_scale(row, &lines, scale, focused);
    }
    if has_prefix(row.id.as_str(), "accessibility-") && lines.len() > 0 {
        let last = lines[lines.len() - 1].as_str();
        let on = has_prefix(last, "ON");
        if on || has_prefix(last, "OFF") {
            return show_switch(row, &lines, scale, focused, on);
        }
    }
    let mut nodes = show_lines(row, &lines, scale);
    let control: &str = if lines.len() > 2 {
        lines[2].as_str()
    } else {
        ""
    };
    put_if(
        &mut nodes,
        lines.len() > 2,
        node(
            cat3("settings-row-", row.id.as_str(), "-control").as_str(),
            Role::Text,
            control,
            surface_of(row),
        ).focused(focused).at(1),
    );
    nodes
}

impl ShellCore {
    fn show_row(&self, row: &SettingsSceneRow, index: usize) -> (nodes: Vec<SceneNode>)
        ensures
            node_models(nodes@) == self@.row_nodes(row@, index as int),
    {
        let interactive = row.action.is_some();
        let mut nodes = no_nodes();
        put(
            &mut nodes,
            node(
                cat("settings-row-", row.id.as_str()).as_str(),
                if interactive {
                    Role::Button
                } else {
                    Role::Text
                },
                row.accessible_label.as_str(),
                surface_of(row),
            ).activated_by(interactive),
        );
        put_all(
            &mut nodes,
            show_parts(
                row,
                self.comfort.text_scale,
                self.settings.settings_row_focused && self.nav.focus == index && interactive,
            ),
        );
        nodes
    }

    fn show_section(&self, facts: &SurfaceFacts) -> (nodes: Vec<SceneNode>)
        requires
            self@.room_known(),
        ensures
            node_models(nodes@) == self@.section_nodes(*facts),
    {
        let rows = self.settings_scene_rows();
        let count: usize = rows.len();
        let capacity = facts.row_capacity;
        let from: usize = find_window(self.nav.focus, capacity, count);
        let end: usize = if count - from <= capacity {
            count
        } else {
            from + capacity
        };
        let mut shown = no_nodes();
        let mut next: usize = from;
        while next < end
            invariant
                from <= next <= end <= count == rows@.len(),
                rows_are(rows@, self@.settings_rows()),
                from == self@.rows_from(*facts),
                node_models(shown@) == self@.rows_before(*facts, next as int),
            decreases end - next,
        {
            put_all(&mut shown, self.show_row(&rows[next], next));
            next += 1;
        }
        let room = self.settings.settings_room;
        let mut nodes = no_nodes();
        put(
            &mut nodes,
            node(
                "settings-section-title",
                Role::Heading,
                if room == SettingsRoom::Network {
                    "Network status"
                } else {
                    room.write_title()
                },
                Token::Canvas,
            ),
        );
        put_if(
            &mut nodes,
            facts.portrait,
            node("settings-section-back", Role::Text, "‹ Back to sections", Token::Canvas),
        );
        let mut region = no_nodes();
        put(
            &mut region,
            node("settings-rows-scroll-region", Role::Group, "Settings rows", Token::Canvas),
        );
        put_all(&mut nodes, region);
        put_all(&mut nodes, shown);
        nodes
    }

    /// The nodes of the settings.
    pub fn show_settings(&self, facts: &SurfaceFacts) -> (nodes: Vec<SceneNode>)
        requires
            self.wf(),
            facts.wf(),
            self@.in_flow() && self@.lists_system() ==> self@.clock_in_range(),
            !self@.in_flow() && self@.rows_shown(*facts) ==> self@.room_known(),
        ensures
            node_models(nodes@) == self@.settings_nodes(*facts),
    {
        if self.system.system_flow == SystemFlow::ManualTime || self.network.network_flow
            == NetworkFlow::Credential {
            return self.show_flow();
        }
        let mut nodes = no_nodes();
        if !facts.portrait || !self.settings.settings_in_rows {
            nodes = self.show_entries();
        }
        if !facts.portrait || self.settings.settings_in_rows {
            put_all(&mut nodes, self.show_section(facts));
        } else {
            put_all(&mut nodes, no_nodes());
        }
        nodes
    }
}

/// A row of a list: what it says and whether it can be activated.
pub ghost struct LabelModel {
    pub text: Text,
    pub interactive: bool,
}

/// What the security of a network is called.
pub open spec fn security_name(security: WifiSecurity) -> Text {
    match security {
        WifiSecurity::Open => "Open"@,
        WifiSecurity::Personal => "Personal"@,
        WifiSecurity::Enterprise => "Enterprise"@,
        WifiSecurity::Unknown => "Unknown security"@,
    }
}

/// What a transfer service is called.
pub open spec fn service_name(service: TransferService) -> Text {
    match service {
        TransferService::Sftp => "SFTP transfer"@,
        TransferService::UsbMassStorage => "USB storage transfer"@,
    }
}

/// Whether the first state of a transfer service is on.
pub open spec fn service_on(services: Result<Seq<TransferModel>, Text>, service: TransferService) -> bool {
    match services {
        Ok(services) => match service_place(services, service, 0) {
            Some(place) => services[place].enabled,
            None => false,
        },
        Err(_) => false,
    }
}

/// What a row of the system room says.
pub open spec fn system_label(room: SystemModel, row: SystemRow) -> LabelModel {
    match row {
        SystemRow::TimeUnavailable => LabelModel {
            text: match room.time_state {
                Ok(_) => "Time status unavailable"@,
                Err(failure) => failure,
            },
            interactive: false,
        },
        SystemRow::TransferUnavailable => LabelModel {
            text: match room.transfer_services {
                Ok(_) => "Transfer unavailable"@,
                Err(failure) => failure,
            },
            interactive: false,
        },
        SystemRow::Timezone => LabelModel {
            text: match room.time_state {
                Ok(state) => "Timezone · "@ + state.timezone,
                Err(failure) => failure,
            },
            interactive: true,
        },
        SystemRow::Ntp => LabelModel {
            text: "Automatic time · "@ + flag_word(
                room.time_state matches Ok(state) && state.ntp_state == NtpState::Active,
            ),
            interactive: true,
        },
        SystemRow::ManualTime => LabelModel {
            text: "Set time manually · "@ + without_char(
                without_char(
                    ManualTimePicker::picker_at(
                        match room.time_state {
                            Ok(state) => state.wall_clock,
                            Err(_) => 0,
                        },
                    ).written(),
                    '[',
                ),
                ']',
            ),
            interactive: true,
        },
        SystemRow::Transfer(service) => LabelModel {
            text: service_name(service) + " · "@ + flag_word(
                service_on(room.transfer_services, service),
            ),
            interactive: true,
        },
        SystemRow::Accessibility => LabelModel {
            text: "Accessibility & comfort"@,
            interactive: true,
        },
    }
}

impl ShellModel {
    /// Whether the clock, where it can be set, shows a year that can be counted.
    pub open spec fn clock_in_range(self) -> bool {
        clock_settable(self.system) ==> (self.system.time_state matches Ok(state)
            && state.wall_clock < (LAST_CIVIL_DAY + 1) * nanos_per_day())
    }

    /// Whether a flow shows the plain list of the system room.
    pub open spec fn lists_system(self) -> bool {
        self.settings.settings_room == SettingsRoom::System && self.system.system_flow
            != SystemFlow::ManualTime
    }

    /// What a network in reach says.
    pub open spec fn wifi_label(self, network: WifiModel) -> LabelModel {
        LabelModel {
            text: network.ssid + " · "@ + security_name(network.security) + " · "@ + decimal_text(
                network.strength as nat,
            ) + "%"@ + (if self.network.network_state matches Ok(state) && state.connected_ssid
                == Some(network.ssid) {
                " · Connected"@
            } else {
                ""@
            }),
            interactive: true,
        }
    }

    /// How many rows the room lists.
    pub open spec fn label_count(self) -> int {
        match self.settings.settings_room {
            SettingsRoom::Accessibility
            | SettingsRoom::Display => self.comfort.display_preferences.len() as int,
            SettingsRoom::Controls => self.settings.control_bindings.len() as int + 1,
            SettingsRoom::Network => if self.network.wifi_networks.len() == 0 {
                1
            } else {
                self.network.wifi_networks.len() as int
            },
            SettingsRoom::System => system_rows_of(self.system).len() as int,
        }
    }

    /// What a row of the room says.
    pub open spec fn label_at(self, index: int) -> LabelModel {
        match self.settings.settings_room {
            SettingsRoom::Accessibility => {
                let row = self.comfort.display_preferences[index];
                LabelModel { text: preference_words(row), interactive: row.interactive }
            },
            SettingsRoom::Display => {
                let row = self.comfort.display_preferences[index];
                LabelModel {
                    text: if row.interactive {
                        preference_words(row)
                    } else {
                        row.label + " · — Not supported on this device"@
                    },
                    interactive: row.interactive,
                }
            },
            SettingsRoom::Controls => LabelModel {
                text: if index < self.settings.control_bindings.len() {
                    self.settings.control_bindings[index].label + " · "@
                        + self.settings.control_bindings[index].binding
                } else {
                    "Reset to defaults"@
                },
                interactive: true,
            },
            SettingsRoom::Network => if self.network.wifi_networks.len() == 0 {
                LabelModel {
                    text: match (self.network.network_status, self.network.network_state) {
                        (Some(status), _) => status,
                        (None, Err(failure)) => failure,
                        (None, Ok(_)) => "No networks found"@,
                    },
                    interactive: false,
                }
            } else {
                self.wifi_label(self.network.wifi_networks[index])
            },
            SettingsRoom::System => system_label(self.system, system_rows_of(self.system)[index]),
        }
    }

    /// The node of a row of a list.
    pub open spec fn label_node(self, label: LabelModel, index: int) -> NodeModel {
        plain(
            "settings-row-"@ + decimal_text(index as nat),
            if label.interactive {
                Role::Button
            } else {
                Role::Text
            },
            label.text,
            if label.interactive && index == self.nav.focus {
                Token::FocusedRing
            } else {
                Token::RestSurface
            },
        ).focused(index == self.nav.focus).disabled(!label.interactive).activated_by(
            label.interactive,
        )
    }

    /// The nodes of the first rows of a list.
    pub open spec fn labels_before(self, upto: int) -> Seq<NodeModel>
        decreases upto,
    {
        if upto <= 0 {
            Seq::empty()
        } else {
            self.labels_before(upto - 1).push(self.label_node(self.label_at(upto - 1), upto - 1))
        }
    }

    /// What stands below the rows of a list.
    pub open spec fn note_nodes(self) -> Seq<NodeModel> {
        match self.settings.settings_room {
            SettingsRoom::Display => {
                let rows = self.comfort.display_preferences.len() as int;
                let focused = self.nav.focus == (if rows == 0 {
                    1
                } else {
                    rows
                });
                seq![
                    plain(
                        "unsupported-note"@,
                        Role::Text,
                        "ⓘ Brightness and mono audio are unavailable; no control is shown."@,
                        Token::TextSecondary,
                    ),
                ] + maybe(
                    self.session.recovery_available,
                    plain(
                        "settings-recovery"@,
                        Role::Button,
                        "Open independent recovery"@,
                        if focused {
                            Token::FocusedRing
                        } else {
                            Token::RestSurface
                        },
                    ).focused(focused).activated_by(true),
                )
            },
            SettingsRoom::Controls => Self::status_note(
                "controls-status"@,
                self.settings.controls_status,
            ),
            SettingsRoom::Network => Self::status_note(
                "network-status"@,
                self.network.network_status,
            ),
            SettingsRoom::System => maybe(
                self.system.time_state matches Ok(state) && state.ntp_state
                    == NtpState::Unsupported,
                plain(
                    "ntp-unsupported-note"@,
                    Role::Text,
                    "Automatic time unavailable on this device"@,
                    Token::TextSecondary,
                ),
            ) + Self::status_note("system-status"@, self.system.system_status),
            SettingsRoom::Accessibility => Seq::empty(),
        }
    }

    /// What a room reports, where it reports something.
    pub open spec fn status_note(id: Text, status: Option<Text>) -> Seq<NodeModel> {
        match status {
            Some(status) => seq![plain(id, Role::Text, status, Token::TextSecondary)],
            None => Seq::empty(),
        }
    }

    /// The network that a secret is asked for.
    pub open spec fn joining(self) -> Text {
        match self.network.selected_wifi {
            Some(place) => if 0 <= place < self.network.wifi_networks.len() {
                self.network.wifi_networks[place].ssid
            } else {
                "Network"@
            },
            None => "Network"@,
        }
    }

    /// The nodes of one step of a longer flow: setting the clock, entering a
    /// secret, or else the plain list of a room. Of a secret only its length is
    /// shown.
    pub open spec fn flow_nodes(self) -> Seq<NodeModel> {
        if self.settings.settings_room == SettingsRoom::System && self.system.system_flow
            == SystemFlow::ManualTime {
            seq![
                plain(
                    "manual-time-title"@,
                    Role::Heading,
                    "SET MANUAL TIME · UTC"@,
                    Token::RestText,
                ),
                plain(
                    "manual-time-fields"@,
                    Role::Button,
                    self.system.manual_time_picker.written(),
                    Token::FocusedRing,
                ).focused(true).activated_by(true),
                plain(
                    "manual-time-help"@,
                    Role::Text,
                    "← → field   ↑ ↓ value   Activate apply   Back cancel"@,
                    Token::TextSecondary,
                ),
            ]
        } else if self.settings.settings_room == SettingsRoom::Network && self.network.network_flow
            == NetworkFlow::Credential {
            seq![
                plain(
                    "wifi-credential-entry"@,
                    Role::Button,
                    "Join "@ + self.joining() + " · Passphrase "@ + repeated(
                        '•',
                        self.network.wifi_credential.len(),
                    ),
                    Token::FocusedRing,
                ).focused(true).activated_by(true),
                plain(
                    "wifi-credential-privacy"@,
                    Role::Text,
                    "Passphrase hidden · Activate to connect · Back to cancel"@,
                    Token::TextSecondary,
                ),
            ]
        } else {
            self.labels_before(self.label_count()) + self.note_nodes()
        }
    }
}

/// Two secrets of the same length are shown alike: a scene tells nothing of a
/// secret but its length.
pub proof fn law_secrets_stay_hidden(shell: ShellModel, other: Seq<u8>)
    requires
        other.len() == shell.network.wifi_credential.len(),
    ensures
        (ShellModel {
            network: crate::state::NetworkRoomModel { wifi_credential: other, ..shell.network },
            ..shell
        }).flow_nodes() == shell.flow_nodes(),
{
    let changed = ShellModel {
        network: crate::state::NetworkRoomModel { wifi_credential: other, ..shell.network },
        ..shell
    };
    lemma_labels_ignore_the_secret(shell, changed, shell.label_count());
}

proof fn lemma_labels_ignore_the_secret(shell: ShellModel, changed: ShellModel, upto: int)
    requires
        changed == (ShellModel {
            network: crate::state::NetworkRoomModel {
                wifi_credential: changed.network.wifi_credential,
                ..shell.network
            },
            ..shell
        }),
    ensures
        changed.labels_before(upto) == shell.labels_before(upto),
    decreases upto,
{
    if upto > 0 {
        lemma_labels_ignore_the_secret(shell, changed, upto - 1);
    }
}

fn name_security(security: WifiSecurity) -> (name: &'static str)
    ensures
        name@ == security_name(security),
{
    match security {
        WifiSecurity::Open => "Open",
        WifiSecurity::Personal => "Personal",
        WifiSecurity::Enterprise => "Enterprise",
        WifiSecurity::Unknown => "Unknown security",
    }
}

fn name_service(service: TransferService) -> (name: &'static str)
    ensures
        name@ == service_name(service),
{
    match service {
        TransferService::Sftp => "SFTP transfer",
        TransferService::UsbMassStorage => "USB storage transfer",
    }
}

fn flag_text(on: bool) -> (word: &'static str)
    ensures
        word@ == flag_word(on),
{
    if on {
        "On"
    } else {
        "Off"
    }
}

impl ShellCore {
    fn label_made(&self, text: &str, interactive: bool, index: usize) -> (made: SceneNode)
        ensures
            made@ == self@.label_node(LabelModel { text: text@, interactive }, index as int),
    {
        node(
            cat("settings-row-", decimal(index as u64).as_str()).as_str(),
            if interactive {
                Role::Button
            } else {
                Role::Text
            },
            text,
            if interactive && index == self.nav.focus {
                Token::FocusedRing
            } else {
                Token::RestSurface
            },
        ).focused(index == self.nav.focus).disabled(!interactive).activated_by(interactive)
    }

    fn service_is_on(&self, service: TransferService) -> (on: bool)
        ensures
            on == service_on(self@.system.transfer_services, service),
    {
        match &self.system.transfer_services {
            Ok(services) => {
                let ghost models = service_models(services@);
                let mut next: usize = 0;
                while next < services.len()
                    invariant
                        next <= services@.len(),
                        models == service_models(services@),
                        self@.system.transfer_services == Ok::<Seq<TransferModel>, Text>(models),
                        service_place(models, service, 0) == service_place(
                            models,
                            service,
                            next as int,
                        ),
                    decreases services@.len() - next,
                {
                    if services[next].service == service {
                        return services[next].enabled;
                    }
                    next += 1;
                }
                false
            },
            Err(_) => false,
        }
    }

    fn system_row_made(&self, row: SystemRow, index: usize) -> (made: SceneNode)
        requires
            row == SystemRow::ManualTime ==> clock_settable(self@.system),
            self@.clock_in_range(),
        ensures
            made@ == self@.label_node(system_label(self@.system, row), index as int),
    {
        match row {
            SystemRow::TimeUnavailable => match &self.system.time_state {
                Ok(_) => self.label_made("Time status unavailable", false, index),
                Err(failure) => self.label_made(failure.as_str(), false, index),
            },
            SystemRow::TransferUnavailable => match &self.system.transfer_services {
                Ok(_) => self.label_made("Transfer unavailable", false, index),
                Err(failure) => self.label_made(failure.as_str(), false, index),
            },
            SystemRow::Timezone => match &self.system.time_state {
                Ok(state) => self.label_made(
                    cat("Timezone · ", state.timezone.as_str()).as_str(),
                    true,
                    index,
                ),
                Err(failure) => self.label_made(failure.as_str(), true, index),
            },
            SystemRow::Ntp => {
                let on = match &self.system.time_state {
                    Ok(state) => state.ntp_state == NtpState::Active,
                    Err(_) => false,
                };
                self.label_made(cat("Automatic time · ", flag_text(on)).as_str(), true, index)
            },
            SystemRow::ManualTime => {
                let time = match &self.system.time_state {
                    Ok(state) => state.wall_clock,
                    Err(_) => crate::clock::SystemTime::from_unix_secs(0),
                };
                let written = ManualTimePicker::from_system_time(time).label();
                let bare = drop_char(drop_char(written.as_str(), '[').as_str(), ']');
                self.label_made(cat("Set time manually · ", bare.as_str()).as_str(), true, index)
            },
            SystemRow::Transfer(service) => self.label_made(
                cat3(name_service(service), " · ", flag_text(self.service_is_on(service))).as_str(),
                true,
                index,
            ),
            SystemRow::Accessibility => self.label_made("Accessibility & comfort", true, index),
        }
    }

    fn wifi_row_made(&self, place: usize) -> (made: SceneNode)
        requires
            place < self.network.wifi_networks@.len(),
        ensures
            made@ == self@.label_node(
                self@.wifi_label(self@.network.wifi_networks[place as int]),
                place as int,
            ),
    {
        let network = &self.network.wifi_networks[place];
        let connected = match &self.network.network_state {
            Ok(state) => match &state.connected_ssid {
                Some(ssid) => same_text(ssid.as_str(), network.ssid.as_str()),
                None => false,
            },
            Err(_) => false,
        };
        let text = cat3(network.ssid.as_str(), " · ", name_security(network.security)).concat(
            " · ",
        ).concat(decimal(network.strength as u64).as_str()).concat("%").concat(
            if connected {
                " · Connected"
            } else {
                ""
            },
        );
        self.label_made(text.as_str(), true, place)
    }

    fn preference_row_made(&self, index: usize, display: bool) -> (made: SceneNode)
        requires
            index < self.comfort.display_preferences@.len(),
            self@.settings.settings_room == (if display {
                SettingsRoom::Display
            } else {
                SettingsRoom::Accessibility
            }),
        ensures
            made@ == self@.label_node(self@.label_at(index as int), index as int),
    {
        let row = &self.comfort.display_preferences[index];
        let text = if display && !row.interactive {
            cat(row.label, " · — Not supported on this device")
        } else {
            preference_label(row)
        };
        self.label_made(text.as_str(), row.interactive, index)
    }

    fn show_preference_labels(&self, display: bool) -> (nodes: Vec<SceneNode>)
        requires
            self@.settings.settings_room == (if display {
                SettingsRoom::Display
            } else {
                SettingsRoom::Accessibility
            }),
        ensures
            node_models(nodes@) == self@.labels_before(self@.label_count()),
    {
        let mut nodes = no_nodes();
        let mut next: usize = 0;
        while next < self.comfort.display_preferences.len()
            invariant
                next <= self.comfort.display_preferences@.len(),
                self@.settings.settings_room == (if display {
                    SettingsRoom::Display
                } else {
                    SettingsRoom::Accessibility
                }),
                node_models(nodes@) == self@.labels_before(next as int),
            decreases self.comfort.display_preferences@.len() - next,
        {
            put(&mut nodes, self.preference_row_made(next, display));
            next += 1;
        }
        nodes
    }

    fn show_control_labels(&self) -> (nodes: Vec<SceneNode>)
        requires
            self@.settings.settings_room == SettingsRoom::Controls,
        ensures
            node_models(nodes@) == self@.labels_before(self@.label_count()),
    {
        let mut nodes = no_nodes();
        let mut next: usize = 0;
        while next < self.settings.control_bindings.len()
            invariant
                next <= self.settings.control_bindings@.len(),
                self@.settings.settings_room == SettingsRoom::Controls,
                node_models(nodes@) == self@.labels_before(next as int),
            decreases self.settings.control_bindings@.len() - next,
        {
            let binding = &self.settings.control_bindings[next];
            let text = cat3(binding.label.as_str(), " · ", binding.binding.as_str());
            put(&mut nodes, self.label_made(text.as_str(), true, next));
            next += 1;
        }
        put(&mut nodes, self.label_made("Reset to defaults", true, next));
        nodes
    }

    fn show_network_labels(&self) -> (nodes: Vec<SceneNode>)
        requires
            self@.settings.settings_room == SettingsRoom::Network,
        ensures
            node_models(nodes@) == self@.labels_before(self@.label_count()),
    {
        let mut nodes = no_nodes();
        if self.network.wifi_networks.len() == 0 {
            let made = match &self.network.network_status {
                Some(status) => self.label_made(status.as_str(), false, 0),
                None => match &self.network.network_state {
                    Ok(_) => self.label_made("No networks found", false, 0),
                    Err(failure) => self.label_made(failure.as_str(), false, 0),
                },
            };
            put(&mut nodes, made);
            proof {
                reveal_with_fuel(ShellModel::labels_before, 2);
            }
            return nodes;
        }
        let mut next: usize = 0;
        while next < self.network.wifi_networks.len()
            invariant
                next <= self.network.wifi_networks@.len(),
                self.network.wifi_networks@.len() > 0,
                self@.settings.settings_room == SettingsRoom::Network,
                node_models(nodes@) == self@.labels_before(next as int),
            decreases self.network.wifi_networks@.len() - next,
        {
            put(&mut nodes, self.wifi_row_made(next));
            next += 1;
        }
        nodes
    }

    fn show_system_labels(&self) -> (nodes: Vec<SceneNode>)
        requires
            self@.settings.settings_room == SettingsRoom::System,
            self@.clock_in_range(),
        ensures
            node_models(nodes@) == self@.labels_before(self@.label_count()),
    {
        let rows = self.system_rows();
        let mut nodes = no_nodes();
        let mut next: usize = 0;
        while next < rows.len()
            invariant
                next <= rows@.len(),
                rows@ == system_rows_of(self@.system),
                self@.settings.settings_room == SettingsRoom::System,
                self@.clock_in_range(),
                node_models(nodes@) == self@.labels_before(next as int),
            decreases rows@.len() - next,
        {
            proof {
                if rows@[next as int] == SystemRow::ManualTime {
                    law_manual_time_is_offered_where_settable(self@.system, next as int);
                }
            }
            put(&mut nodes, self.system_row_made(rows[next], next));
            next += 1;
        }
        nodes
    }

    fn show_status_note(id: &str, status: &Option<String>) -> (nodes: Vec<SceneNode>)
        ensures
            node_models(nodes@) == ShellModel::status_note(id@, text_of(*status)),
    {
        let mut nodes = no_nodes();
        if let Some(status) = status {
            put(&mut nodes, node(id, Role::Text, status.as_str(), Token::TextSecondary));
        }
        nodes
    }

    fn show_notes(&self) -> (nodes: Vec<SceneNode>)
        ensures
            node_models(nodes@) == self@.note_nodes(),
    {
        let mut nodes = no_nodes();
        match self.settings.settings_room {
            SettingsRoom::Display => {
                let rows: usize = self.comfort.display_preferences.len();
                let focused = self.nav.focus == (if rows == 0 {
                    1
                } else {
                    rows
                });
                put(
                    &mut nodes,
                    node(
                        "unsupported-note",
                        Role::Text,
                        "ⓘ Brightness and mono audio are unavailable; no control is shown.",
                        Token::TextSecondary,
                    ),
                );
                put_if(
                    &mut nodes,
                    self.session.recovery_available,
                    node(
                        "settings-recovery",
                        Role::Button,
                        "Open independent recovery",
                        if focused {
                            Token::FocusedRing
                        } else {
                            Token::RestSurface
                        },
                    ).focused(focused).activated_by(true),
                );
            },
            SettingsRoom::Controls => {
                nodes = Self::show_status_note("controls-status", &self.settings.controls_status);
            },
            SettingsRoom::Network => {
                nodes = Self::show_status_note("network-status", &self.network.network_status);
            },
            SettingsRoom::System => {
                let missing = match &self.system.time_state {
                    Ok(state) => state.ntp_state == NtpState::Unsupported,
                    Err(_) => false,
                };
                if missing {
                    put(
                        &mut nodes,
                        node(
                            "ntp-unsupported-note",
                            Role::Text,
                            "Automatic time unavailable on this device",
                            Token::TextSecondary,
                        ),
                    );
                }
                put_all(
                    &mut nodes,
                    Self::show_status_note("system-status", &self.system.system_status),
                );
            },
            SettingsRoom::Accessibility => {},
        }
        nodes
    }

    fn show_clock_flow(&self) -> (nodes: Vec<SceneNode>)
        requires
            self@.settings.settings_room == SettingsRoom::System,
            self@.system.system_flow == SystemFlow::ManualTime,
        ensures
            node_models(nodes@) == self@.flow_nodes(),
    {
        let mut nodes = no_nodes();
        put(
            &mut nodes,
            node("manual-time-title", Role::Heading, "SET MANUAL TIME · UTC", Token::RestText),
        );
        put(
            &mut nodes,
            node(
                "manual-time-fields",
                Role::Button,
                self.system.manual_time_picker.label().as_str(),
                Token::FocusedRing,
            ).focused(true).activated_by(true),
        );
        put(
            &mut nodes,
            node(
                "manual-time-help",
                Role::Text,
                "← → field   ↑ ↓ value   Activate apply   Back cancel",
                Token::TextSecondary,
            ),
        );
        nodes
    }

    fn show_secret_flow(&self) -> (nodes: Vec<SceneNode>)
        requires
            self@.settings.settings_room == SettingsRoom::Network,
            self@.network.network_flow == NetworkFlow::Credential,
        ensures
            node_models(nodes@) == self@.flow_nodes(),
    {
        let ssid: &str = match self.network.selected_wifi {
            Some(place) => if place < self.network.wifi_networks.len() {
                self.network.wifi_networks[place].ssid.as_str()
            } else {
                "Network"
            },
            None => "Network",
        };
        let mask = repeat_char('•', self.network.wifi_credential.expose_secret().len());
        let mut nodes = no_nodes();
        put(
            &mut nodes,
            node(
                "wifi-credential-entry",
                Role::Button,
                cat3("Join ", ssid, " · Passphrase ").concat(mask.as_str()).as_str(),
                Token::FocusedRing,
            ).focused(true).activated_by(true),
        );
        put(
            &mut nodes,
            node(
                "wifi-credential-privacy",
                Role::Text,
                "Passphrase hidden · Activate to connect · Back to cancel",
                Token::TextSecondary,
            ),
        );
        nodes
    }

    fn show_flow(&self) -> (nodes: Vec<SceneNode>)
        requires
            self@.lists_system() ==> self@.clock_in_range(),
        ensures
            node_models(nodes@) == self@.flow_nodes(),
    {
        let room = self.settings.settings_room;
        if room == SettingsRoom::System && self.system.system_flow == SystemFlow::ManualTime {
            return self.show_clock_flow();
        }
        if room == SettingsRoom::Network && self.network.network_flow == NetworkFlow::Credential {
            return self.show_secret_flow();
        }
        let mut nodes = match room {
            SettingsRoom::Accessibility => self.show_preference_labels(false),
            SettingsRoom::Display => self.show_preference_labels(true),
            SettingsRoom::Controls => self.show_control_labels(),
            SettingsRoom::Network => self.show_network_labels(),
            SettingsRoom::System => self.show_system_labels(),
        };
        put_all(&mut nodes, self.show_notes());
        nodes
    }
}

} // verus!
