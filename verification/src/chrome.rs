//! What frames every scene: the status of the device, the rooms, the prompts.

use crate::cutting::{
    cut_once, pieces, replace_each, replaced, split_at_each, split_once, trim_lead, without_lead,
};
use crate::scene::{
    maybe, no_nodes, node, node_models, plain, put, put_all, put_if, BorderWeight, NodeModel,
    Picture, Role, SceneNode, Token, TypeRole,
};
use crate::state::{BindingModel, Route, ShellCore, ShellModel};
use crate::surface::SurfaceFacts;
use crate::text::{
    cat, cat3, decimal, decimal_text, join, joined, padded_decimal, same_text, text_of,
    zero_padded, Text,
};
use crate::textlist::texts;
use crate::titles::ready_places;
use vstd::prelude::*;
use vstd::string::*;

verus! {

broadcast use {
    crate::textlist::group_texts,
    crate::state::group_state_models,
    crate::catalog::group_catalog_models,
};

/// The second of the day that a point on the clock falls into. Points before
/// the first instant of 1970 count as that instant.
pub open spec fn second_of_day(time: int) -> nat {
    if time < 0 {
        0
    } else {
        (time / 1_000_000_000 % 86_400) as nat
    }
}

/// A point on the clock as hours and minutes.
pub open spec fn clock_text(time: int) -> Text {
    let second = second_of_day(time);
    decimal_text(second / 3_600) + ":"@ + zero_padded(decimal_text(second % 3_600 / 60), 2)
}

/// Writes a point on the clock as hours and minutes.
pub fn write_clock(time: crate::clock::SystemTime) -> (text: String)
    ensures
        text@ == clock_text(time@),
{
    let whole: i64 = time.unix_secs();
    let second: u64 = if whole < 0 {
        0
    } else {
        whole as u64 % 86_400
    };
    cat3(
        decimal(second / 3_600).as_str(),
        ":",
        padded_decimal(second % 3_600 / 60, 2).as_str(),
    )
}

/// A text where it is wanted, or none.
pub open spec fn maybe_text(wanted: bool, text: Text) -> Seq<Text> {
    if wanted {
        seq![text]
    } else {
        Seq::empty()
    }
}

pub(crate) fn push_text(list: &mut Vec<String>, wanted: bool, text: String)
    ensures
        texts(final(list)@) == texts(old(list)@) + maybe_text(wanted, text@),
{
    let ghost before = texts(list@);
    if wanted {
        list.push(text);
        proof {
            assert(texts(list@) =~= before + seq![text@]);
        }
    } else {
        proof {
            assert(before + Seq::<Text>::empty() =~= before);
        }
    }
}

pub(crate) fn no_texts() -> (list: Vec<String>)
    ensures
        texts(list@) == Seq::<Text>::empty(),
{
    let list: Vec<String> = Vec::new();
    proof {
        assert(texts(list@) =~= Seq::<Text>::empty());
    }
    list
}

impl ShellModel {
    /// Whether the device is on a network.
    pub open spec fn on_network(self) -> bool {
        self.network.network_state matches Ok(state) && state.connected_ssid is Some
    }

    /// Whether the session service is out of reach.
    pub open spec fn out_of_reach(self) -> bool {
        self.session.authority_unavailable || self.session.safe_return_failed
    }

    /// What the status of the device says.
    pub open spec fn status_parts(self) -> Seq<Text> {
        Seq::<Text>::empty() + maybe_text(
            self.power.battery_percent is Some,
            decimal_text(self.power.battery_percent.unwrap_or(0) as nat),
        ) + maybe_text(self.out_of_reach(), "!"@) + maybe_text(
            self.system.time_state is Ok,
            clock_text(
                match self.system.time_state {
                    Ok(state) => state.wall_clock,
                    Err(_) => 0,
                },
            ),
        )
    }

    /// Whether there is anything to tell about the device.
    pub open spec fn has_status(self) -> bool {
        self.on_network() || self.power.battery_percent is Some || self.status_parts().len() > 0
    }

    /// The nodes that tell the status of the device.
    pub open spec fn status_nodes(self) -> Seq<NodeModel> {
        let battery = self.power.battery_percent is Some;
        let status = plain(
            "status-cluster"@,
            Role::Text,
            joined(self.status_parts(), "     "@),
            Token::Transparent,
        ).lettered(TypeRole::Caption).at(1);
        seq![plain("system-status-layout-anchor"@, Role::Group, ""@, Token::Transparent)] + maybe(
            self.on_network(),
            plain("wifi-glyph"@, Role::Group, "Wi-Fi connected"@, Token::Transparent).showing(
                Picture::WifiGlyph,
            ).at(1),
        ) + maybe(
            battery,
            plain("battery-outline"@, Role::Group, "Battery"@, Token::BorderStrong).at(1),
        ) + maybe(battery, plain("battery-cavity"@, Role::Group, ""@, Token::Raised).at(1)) + maybe(
            battery,
            plain("battery-level"@, Role::Group, ""@, Token::TextSecondary).at(1),
        ) + maybe(battery, plain("battery-terminal"@, Role::Group, ""@, Token::BorderStrong).at(1))
            + maybe(
            self.status_parts().len() > 0,
            if self.comfort.text_scale > 100 {
                status.inked(Token::TextPrimary)
            } else {
                status
            },
        )
    }

    /// The status of the device, where it fits and there is one.
    pub open spec fn shown_status(self, facts: SurfaceFacts) -> Seq<NodeModel> {
        if facts.status_fits && self.has_status() {
            self.status_nodes()
        } else {
            Seq::empty()
        }
    }

    /// The nodes of a room, underlined where the user is in it.
    pub open spec fn room_nodes(id: Text, name: Text, here: bool) -> Seq<NodeModel> {
        seq![
            plain(id, Role::Text, name, Token::Transparent).lettered(
                TypeRole::Label,
            ).centered().at(2),
        ] + maybe(
            here,
            plain(id + "-underline"@, Role::Group, ""@, Token::SelectedAccent).at(3),
        )
    }

    /// The nodes of a keycap beside the rooms.
    pub open spec fn keycap_nodes(id: Text, name: Text) -> Seq<NodeModel> {
        seq![
            plain(id + "-border"@, Role::Group, ""@, Token::BorderStrong).at(2),
            plain(id + "-fill"@, Role::Group, ""@, Token::Raised).at(3),
            plain(id, Role::Text, name, Token::Raised).lettered(
                TypeRole::Caption,
            ).centered().at(3),
        ]
    }

    /// The nodes of the rooms.
    pub open spec fn rooms_nodes(route: Route) -> Seq<NodeModel> {
        seq![
            plain("rooms-layout-anchor"@, Role::Group, ""@, Token::Transparent),
            plain("rooms"@, Role::Group, ""@, Token::Transparent).lettered(TypeRole::Label).at(1),
        ] + Self::keycap_nodes("room-keycap-left"@, "L"@) + Self::room_nodes(
            "room-home"@,
            "Home"@,
            route == Route::Home,
        ) + Self::room_nodes(
            "room-library"@,
            "Library"@,
            route == Route::Library || route == Route::Search || route == Route::Details || route
                == Route::VariantChooser,
        ) + Self::room_nodes("room-settings"@, "Settings"@, route == Route::Settings)
            + Self::keycap_nodes("room-keycap-right"@, "R"@)
    }

    /// What is said about the session, where something is.
    pub open spec fn session_nodes(self) -> Seq<NodeModel> {
        match self.spoken_status() {
            Some(status) => seq![
                plain("session-status"@, Role::Text, status, Token::Canvas),
            ],
            None => Seq::empty(),
        }
    }
}

/// The button that an action is bound to.
pub open spec fn bound_button(bindings: Seq<BindingModel>, action: Text, from: int) -> Option<Text>
    decreases bindings.len() - from,
{
    if from < 0 || from >= bindings.len() {
        None
    } else if bindings[from].action == action {
        Some(bindings[from].binding)
    } else {
        bound_button(bindings, action, from + 1)
    }
}

impl ShellModel {
    /// The prompt for an action, where a button is bound to it.
    pub open spec fn prompt(self, action: Text, label: Text) -> Option<Text> {
        match bound_button(self.settings.control_bindings, action, 0) {
            Some(button) => Some(button + " "@ + label),
            None => None,
        }
    }

    /// The prompt for an action as a list of at most one.
    pub open spec fn prompts_for(self, wanted: bool, action: Text, label: Text) -> Seq<Text> {
        match self.prompt(action, label) {
            Some(prompt) => maybe_text(wanted, prompt),
            None => Seq::empty(),
        }
    }

    /// The prompts of the home route, followed by those that hold everywhere.
    pub open spec fn home_footer(self, supplied: Text) -> Text {
        match self.focused_item() {
            Some(item) => {
                let everywhere = match cut_once(supplied, "     "@) {
                    Some(cut) => cut.after,
                    None => supplied,
                };
                joined(
                    Seq::<Text>::empty() + self.prompts_for(true, "Search.open"@, "Search"@)
                        + self.prompts_for(true, "Quick"@, "Quick"@) + self.prompts_for(
                        true,
                        "Activate"@,
                        if ready_places(self.titles.items[item].variants, 0).len() == 0 {
                            "Details"@
                        } else {
                            "Open"@
                        },
                    ) + maybe_text(everywhere.len() > 0, everywhere),
                    " · "@,
                )
            },
            None => Seq::empty(),
        }
    }

    /// The prompts of the library.
    pub open spec fn library_footer(self) -> Text {
        joined(
            Seq::<Text>::empty() + self.prompts_for(true, "Search.open"@, "Search"@)
                + self.prompts_for(true, "Filter.next"@, "Filter"@) + self.prompts_for(
                self.nav.focus >= 5,
                "Activate"@,
                "Details"@,
            ),
            "     "@,
        )
    }

    /// What activating does on the details, where it does anything.
    pub open spec fn detail_verb(self) -> Option<Text> {
        match self.nav.selected_item {
            Some(item) => if self.nav.focus == self.pin_focus() {
                Some(
                    if self.titles.items[item].favorite {
                        "Unpin"@
                    } else {
                        "Pin"@
                    },
                )
            } else if ready_places(self.titles.items[item].variants, 0).len() > 0 {
                Some("Play"@)
            } else {
                None
            },
            None => None,
        }
    }

    /// The prompts of the details.
    pub open spec fn detail_footer(self) -> Text {
        let chosen = self.nav.selected_item is Some;
        joined(
            Seq::<Text>::empty() + self.prompts_for(true, "Back"@, "Back"@) + self.prompts_for(
                chosen,
                "Quick"@,
                if chosen && self.titles.items[self.nav.selected_item->0].favorite {
                    "Unfavorite"@
                } else {
                    "Favorite"@
                },
            ) + self.prompts_for(
                self.detail_verb() is Some,
                "Activate"@,
                self.detail_verb().unwrap_or(""@),
            ),
            " · "@,
        )
    }

    /// The prompts of the settings.
    pub open spec fn settings_footer(self) -> Text {
        joined(
            Seq::<Text>::empty() + self.prompts_for(true, "Back"@, "Back"@) + self.prompts_for(
                self.settings.settings_in_rows && self.settings.settings_row_focused
                    && self.nav.focus < self.row_count() && self.row_action(self.nav.focus) is Some,
                "Activate"@,
                "Change"@,
            ),
            " · "@,
        )
    }

    /// The prompts of a scene; where the route has none of its own, those that
    /// were supplied.
    pub open spec fn footer(self, supplied: Text) -> Text {
        match self.nav.route {
            Route::Home => self.home_footer(supplied),
            Route::Library => self.library_footer(),
            Route::Details => self.detail_footer(),
            Route::Settings => self.settings_footer(),
            _ => supplied,
        }
    }
}

/// Whether a prompt names a button and what it does.
pub open spec fn is_prompt(piece: Text) -> bool {
    cut_once(piece, " "@) is Some
}

/// Whether no prompt that is complete stands behind one that is not.
pub open spec fn prompts_line_up(footer: Text) -> bool {
    let prompts = pieces(footer, " · "@);
    forall|i: int, j: int|
        #![trigger prompts[i], prompts[j]]
        0 <= i <= j < prompts.len() && is_prompt(prompts[j]) ==> is_prompt(prompts[i])
}

/// The nodes of one prompt.
pub open spec fn prompt_nodes(piece: Text, index: int) -> Seq<NodeModel> {
    match cut_once(piece, " "@) {
        Some(cut) => {
            let key = "home-prompt-keycap-"@ + decimal_text(index as nat);
            seq![
                plain(key + "-border"@, Role::Group, ""@, Token::Transparent).framed(
                    Token::BorderStrong,
                    BorderWeight::Keycap,
                ).at(1),
                plain(key, Role::Text, cut.before, Token::Transparent).lettered(
                    TypeRole::Caption,
                ).centered().inked(Token::TextSecondary).at(1),
                plain(
                    "home-prompt-verb-"@ + decimal_text(index as nat),
                    Role::Text,
                    without_lead(cut.after),
                    Token::Transparent,
                ).lettered(TypeRole::Label).inked(Token::TextSecondary).at(1),
            ]
        },
        None => Seq::empty(),
    }
}

/// The nodes of the first prompts.
pub open spec fn prompts_nodes(prompts: Seq<Text>, upto: int) -> Seq<NodeModel>
    decreases upto,
{
    if upto <= 0 {
        Seq::empty()
    } else {
        prompts_nodes(prompts, upto - 1) + prompt_nodes(prompts[upto - 1], upto - 1)
    }
}

/// The nodes of a line of prompts.
pub open spec fn footer_nodes(footer: Text) -> Seq<NodeModel> {
    prompts_nodes(pieces(footer, " · "@), pieces(footer, " · "@).len() as int)
}

impl ShellModel {
    /// The nodes of the prompts.
    pub open spec fn prompt_bar(self, supplied: Text) -> Seq<NodeModel> {
        let footer = self.footer(supplied);
        let route = self.nav.route;
        let parted = route == Route::Home || route == Route::Library || route == Route::Details
            || route == Route::Quick || route == Route::Search;
        seq![
            plain("prompt-bar"@, Role::Group, ""@, Token::Transparent),
            plain(
                "prompts"@,
                if parted {
                    Role::Group
                } else {
                    Role::Text
                },
                if route == Route::Search || route == Route::Details {
                    ""@
                } else {
                    footer
                },
                Token::Transparent,
            ).lettered(TypeRole::Label),
        ] + (if route == Route::Home {
            footer_nodes(footer)
        } else if parted {
            footer_nodes(replaced(footer, "     "@, " · "@))
        } else {
            Seq::empty()
        })
    }

    /// Whether the prompts can be laid out: away from home, no prompt that is
    /// complete stands behind one that is not.
    pub open spec fn prompts_fit(self, supplied: Text) -> bool {
        let route = self.nav.route;
        route == Route::Library || route == Route::Details || route == Route::Quick || route
            == Route::Search ==> prompts_line_up(
            replaced(self.footer(supplied), "     "@, " · "@),
        )
    }
}

impl ShellCore {
    fn status_texts(&self) -> (parts: Vec<String>)
        ensures
            texts(parts@) == self@.status_parts(),
    {
        let mut parts = no_texts();
        match self.power.battery_percent {
            Some(percent) => push_text(&mut parts, true, decimal(percent as u64)),
            None => push_text(&mut parts, false, String::new()),
        }
        push_text(&mut parts, self.authority_unavailable(), "!".to_owned());
        match &self.system.time_state {
            Ok(state) => push_text(&mut parts, true, write_clock(state.wall_clock)),
            Err(_) => push_text(&mut parts, false, String::new()),
        }
        parts
    }

    fn connected(&self) -> (answer: bool)
        ensures
            answer == self@.on_network(),
    {
        match &self.network.network_state {
            Ok(state) => state.connected_ssid.is_some(),
            Err(_) => false,
        }
    }

    /// The nodes that tell the status of the device.
    pub fn show_status(&self, facts: &SurfaceFacts) -> (nodes: Vec<SceneNode>)
        ensures
            node_models(nodes@) == self@.shown_status(*facts),
    {
        let parts = self.status_texts();
        let network = self.connected();
        let battery = self.power.battery_percent.is_some();
        let spoken = parts.len() > 0;
        let mut nodes = no_nodes();
        if !facts.status_fits || !(network || battery || spoken) {
            return nodes;
        }
        put(
            &mut nodes,
            node("system-status-layout-anchor", Role::Group, "", Token::Transparent),
        );
        put_if(
            &mut nodes,
            network,
            node("wifi-glyph", Role::Group, "Wi-Fi connected", Token::Transparent).showing(
                Picture::WifiGlyph,
            ).at(1),
        );
        put_if(
            &mut nodes,
            battery,
            node("battery-outline", Role::Group, "Battery", Token::BorderStrong).at(1),
        );
        put_if(&mut nodes, battery, node("battery-cavity", Role::Group, "", Token::Raised).at(1));
        put_if(
            &mut nodes,
            battery,
            node("battery-level", Role::Group, "", Token::TextSecondary).at(1),
        );
        put_if(
            &mut nodes,
            battery,
            node("battery-terminal", Role::Group, "", Token::BorderStrong).at(1),
        );
        let status = node(
            "status-cluster",
            Role::Text,
            join(&parts, "     ").as_str(),
            Token::Transparent,
        ).lettered(TypeRole::Caption).at(1);
        let status = if self.comfort.text_scale > 100 {
            status.inked(Token::TextPrimary)
        } else {
            status
        };
        put_if(&mut nodes, spoken, status);
        nodes
    }

    fn show_room_name(id: &str, name: &str, here: bool) -> (nodes: Vec<SceneNode>)
        ensures
            node_models(nodes@) == ShellModel::room_nodes(id@, name@, here),
    {
        let mut nodes = no_nodes();
        put(
            &mut nodes,
            node(id, Role::Text, name, Token::Transparent).lettered(
                TypeRole::Label,
            ).centered().at(2),
        );
        put_if(
            &mut nodes,
            here,
            node(
                cat(id, "-underline").as_str(),
                Role::Group,
                "",
                Token::SelectedAccent,
            ).at(3),
        );
        nodes
    }

    fn show_keycap(id: &str, name: &str) -> (nodes: Vec<SceneNode>)
        ensures
            node_models(nodes@) == ShellModel::keycap_nodes(id@, name@),
    {
        let mut nodes = no_nodes();
        put(
            &mut nodes,
            node(cat(id, "-border").as_str(), Role::Group, "", Token::BorderStrong).at(2),
        );
        put(&mut nodes, node(cat(id, "-fill").as_str(), Role::Group, "", Token::Raised).at(3));
        put(
            &mut nodes,
            node(id, Role::Text, name, Token::Raised).lettered(
                TypeRole::Caption,
            ).centered().at(3),
        );
        nodes
    }

    /// The nodes of the rooms.
    pub fn show_rooms(route: Route) -> (nodes: Vec<SceneNode>)
        ensures
            node_models(nodes@) == ShellModel::rooms_nodes(route),
    {
        let mut nodes = no_nodes();
        put(&mut nodes, node("rooms-layout-anchor", Role::Group, "", Token::Transparent));
        put(
            &mut nodes,
            node("rooms", Role::Group, "", Token::Transparent).lettered(TypeRole::Label).at(1),
        );
        put_all(&mut nodes, Self::show_keycap("room-keycap-left", "L"));
        put_all(&mut nodes, Self::show_room_name("room-home", "Home", route == Route::Home));
        put_all(
            &mut nodes,
            Self::show_room_name(
                "room-library",
                "Library",
                route == Route::Library || route == Route::Search || route == Route::Details
                    || route == Route::VariantChooser,
            ),
        );
        put_all(
            &mut nodes,
            Self::show_room_name("room-settings", "Settings", route == Route::Settings),
        );
        put_all(&mut nodes, Self::show_keycap("room-keycap-right", "R"));
        nodes
    }

    /// What is said about the session.
    pub fn show_session_status(&self) -> (nodes: Vec<SceneNode>)
        ensures
            node_models(nodes@) == self@.session_nodes(),
    {
        let mut nodes = no_nodes();
        if let Some(status) = self.session_status() {
            put(&mut nodes, node("session-status", Role::Text, status, Token::Canvas));
        }
        nodes
    }

    /// The prompt for an action, where a button is bound to it.
    pub fn binding_prompt(&self, action: &str, label: &str) -> (prompt: Option<String>)
        ensures
            text_of(prompt) == self@.prompt(action@, label@),
    {
        let ghost bindings = self@.settings.control_bindings;
        let mut next: usize = 0;
        while next < self.settings.control_bindings.len()
            invariant
                next <= self.settings.control_bindings@.len(),
                bindings == self@.settings.control_bindings,
                bound_button(bindings, action@, 0) == bound_button(bindings, action@, next as int),
            decreases self.settings.control_bindings@.len() - next,
        {
            let binding = &self.settings.control_bindings[next];
            if same_text(binding.action.as_str(), action) {
                return Some(cat3(binding.binding.as_str(), " ", label));
            }
            next += 1;
        }
        None
    }

    fn push_prompt(&self, prompts: &mut Vec<String>, wanted: bool, action: &str, label: &str)
        ensures
            texts(final(prompts)@) == texts(old(prompts)@) + self@.prompts_for(
                wanted,
                action@,
                label@,
            ),
    {
        match self.binding_prompt(action, label) {
            Some(prompt) => push_text(prompts, wanted, prompt),
            None => push_text(prompts, false, String::new()),
        }
    }

    fn write_home_footer(&self, supplied: &str) -> (footer: String)
        requires
            self.wf(),
        ensures
            footer@ == self@.home_footer(supplied@),
    {
        match self.focused_item_index() {
            Some(item) => {
                let mut prompts = no_texts();
                self.push_prompt(&mut prompts, true, "Search.open", "Search");
                self.push_prompt(&mut prompts, true, "Quick", "Quick");
                let ready = self.titles.items[item].ready_variants();
                self.push_prompt(
                    &mut prompts,
                    true,
                    "Activate",
                    if ready.len() == 0 {
                        "Details"
                    } else {
                        "Open"
                    },
                );
                let everywhere = match split_once(supplied, "     ") {
                    Some((_, after)) => after,
                    None => supplied.to_owned(),
                };
                let some = everywhere.as_str().unicode_len() > 0;
                push_text(&mut prompts, some, everywhere);
                join(&prompts, " · ")
            },
            None => String::new(),
        }
    }

    fn write_detail_footer(&self) -> (footer: String)
        requires
            self.wf(),
        ensures
            footer@ == self@.detail_footer(),
    {
        assert(self.nav.selected_item matches Some(item) ==> item < self.titles.items@.len()) by {
            reveal(ShellModel::ok);
        }
        let mut prompts = no_texts();
        self.push_prompt(&mut prompts, true, "Back", "Back");
        let verb: Option<&str> = match self.nav.selected_item {
            Some(item) => {
                let favorite = self.titles.items[item].favorite;
                self.push_prompt(
                    &mut prompts,
                    true,
                    "Quick",
                    if favorite {
                        "Unfavorite"
                    } else {
                        "Favorite"
                    },
                );
                if self.nav.focus == self.detail_pin_focus() {
                    Some(
                        if favorite {
                            "Unpin"
                        } else {
                            "Pin"
                        },
                    )
                } else if self.titles.items[item].ready_variants().len() > 0 {
                    Some("Play")
                } else {
                    None
                }
            },
            None => {
                self.push_prompt(&mut prompts, false, "Quick", "Favorite");
                None
            },
        };
        match verb {
            Some(verb) => self.push_prompt(&mut prompts, true, "Activate", verb),
            None => self.push_prompt(&mut prompts, false, "Activate", ""),
        }
        join(&prompts, " · ")
    }

    /// Whether the row that the focus stands on can be changed.
    fn row_changes(&self) -> (answer: bool)
        requires
            self.settings.settings_in_rows && self.settings.settings_row_focused
                ==> self@.room_known(),
        ensures
            answer == (self@.settings.settings_in_rows && self@.settings.settings_row_focused
                && self@.nav.focus < self@.row_count() && self@.row_action(self@.nav.focus)
                is Some),
    {
        if !self.settings.settings_in_rows || !self.settings.settings_row_focused {
            return false;
        }
        let rows = self.settings_scene_rows();
        proof {
            self@.lemma_settings_rows();
        }
        self.nav.focus < rows.len() && rows[self.nav.focus].action.is_some()
    }

    /// Writes the prompts of a scene.
    pub fn write_footer(&self, supplied: &str) -> (footer: String)
        requires
            self.wf(),
            self@.nav.route == Route::Settings && self@.settings.settings_in_rows
                && self@.settings.settings_row_focused ==> self@.room_known(),
        ensures
            footer@ == self@.footer(supplied@),
    {
        match self.nav.route {
            Route::Home => self.write_home_footer(supplied),
            Route::Library => {
                let mut prompts = no_texts();
                self.push_prompt(&mut prompts, true, "Search.open", "Search");
                self.push_prompt(&mut prompts, true, "Filter.next", "Filter");
                self.push_prompt(&mut prompts, self.nav.focus >= 5, "Activate", "Details");
                join(&prompts, "     ")
            },
            Route::Details => self.write_detail_footer(),
            Route::Settings => {
                let mut prompts = no_texts();
                self.push_prompt(&mut prompts, true, "Back", "Back");
                let changes = self.row_changes();
                self.push_prompt(&mut prompts, changes, "Activate", "Change");
                join(&prompts, " · ")
            },
            _ => supplied.to_owned(),
        }
    }

    /// The nodes of the prompts.
    pub fn show_prompts(&self, supplied: &str) -> (nodes: Vec<SceneNode>)
        requires
            self.wf(),
            self@.nav.route == Route::Settings && self@.settings.settings_in_rows
                && self@.settings.settings_row_focused ==> self@.room_known(),
        ensures
            node_models(nodes@) == self@.prompt_bar(supplied@),
    {
        let footer = self.write_footer(supplied);
        let route = self.nav.route;
        let parted = route == Route::Home || route == Route::Library || route == Route::Details
            || route == Route::Quick || route == Route::Search;
        let mut nodes = no_nodes();
        put(&mut nodes, node("prompt-bar", Role::Group, "", Token::Transparent));
        put(
            &mut nodes,
            node(
                "prompts",
                if parted {
                    Role::Group
                } else {
                    Role::Text
                },
                if route == Route::Search || route == Route::Details {
                    ""
                } else {
                    footer.as_str()
                },
                Token::Transparent,
            ).lettered(TypeRole::Label),
        );
        proof {
            reveal_strlit("     ");
        }
        if route == Route::Home {
            put_all(&mut nodes, show_footer(footer.as_str()));
        } else if parted {
            put_all(
                &mut nodes,
                show_footer(replace_each(footer.as_str(), "     ", " · ").as_str()),
            );
        } else {
            put_all(&mut nodes, no_nodes());
        }
        nodes
    }
}

fn show_prompt(piece: &str, index: usize) -> (nodes: Vec<SceneNode>)
    ensures
        node_models(nodes@) == prompt_nodes(piece@, index as int),
{
    let mut nodes = no_nodes();
    if let Some((button, verb)) = split_once(piece, " ") {
        let key = cat("home-prompt-keycap-", decimal(index as u64).as_str());
        put(
            &mut nodes,
            node(
                cat(key.as_str(), "-border").as_str(),
                Role::Group,
                "",
                Token::Transparent,
            ).framed(Token::BorderStrong, BorderWeight::Keycap).at(1),
        );
        put(
            &mut nodes,
            node(key.as_str(), Role::Text, button.as_str(), Token::Transparent).lettered(
                TypeRole::Caption,
            ).centered().inked(Token::TextSecondary).at(1),
        );
        put(
            &mut nodes,
            node(
                cat("home-prompt-verb-", decimal(index as u64).as_str()).as_str(),
                Role::Text,
                trim_lead(verb.as_str()).as_str(),
                Token::Transparent,
            ).lettered(TypeRole::Label).inked(Token::TextSecondary).at(1),
        );
    }
    nodes
}

/// The nodes of a line of prompts.
pub fn show_footer(footer: &str) -> (nodes: Vec<SceneNode>)
    ensures
        node_models(nodes@) == footer_nodes(footer@),
{
    proof {
        reveal_strlit(" · ");
    }
    let prompts = split_at_each(footer, " · ");
    let ghost models = texts(prompts@);
    let mut nodes = no_nodes();
    let mut next: usize = 0;
    while next < prompts.len()
        invariant
            next <= prompts@.len(),
            models == texts(prompts@),
            node_models(nodes@) == prompts_nodes(models, next as int),
        decreases prompts@.len() - next,
    {
        put_all(&mut nodes, show_prompt(prompts[next].as_str(), next));
        next += 1;
    }
    nodes
}

} // verus!
