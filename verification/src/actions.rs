//! What the shell does with each input.

use crate::activation::{preference_effect_for, preference_request, Outcome};
use crate::library::{lemma_places_below, places_below};
use crate::navigation::{floored, least};
use crate::ports::{ActionModel, AxisMove, PowerAction, ShellAction, WifiCredential};
use crate::state::{
    effect_of, picker_ok, ComfortModel, Effect, EffectModel, NetworkFlow, NetworkRoomModel,
    PowerDialog, PowerModel, PreferenceModel, Presentation, Route, SessionStateModel, SettingsRoom,
    ShellCore, ShellModel, SystemFlow, SystemModel,
};
use crate::calendar::{ManualTimePicker, PICKER_FIELDS};
use crate::text::{same_text, Text};
use vstd::prelude::*;
use vstd::string::*;

verus! {

broadcast use {crate::catalog::group_catalog_models, crate::state::group_state_models};

/// The shown preferences that can be changed, in order: the rows of the first
/// run.
#[verifier::opaque]
pub open spec fn first_run_rows(rows: Seq<PreferenceModel>) -> Seq<usize> {
    places_below(rows.len() as int, |i: int| rows[i].interactive)
}

proof fn lemma_first_run_rows(rows: Seq<PreferenceModel>)
    requires
        rows.len() <= 4,
    ensures
        first_run_rows(rows).len() <= 4,
        forall|i: int|
            0 <= i < first_run_rows(rows).len() ==> (#[trigger] first_run_rows(rows)[i])
                < rows.len(),
{
    reveal(first_run_rows);
    reveal(crate::state::places_fit);
    lemma_places_below(rows.len() as int, |i: int| rows[i].interactive);
}

/// The focus on the row of the quick panel that asks for a power action.
pub open spec fn power_row(shell: ShellModel, action: PowerAction) -> int {
    match action {
        PowerAction::PowerOff => 2,
        PowerAction::Restart => 3,
        PowerAction::Sleep => match shell.sleep_row() {
            Some(row) => row,
            None => 2,
        },
    }
}

impl ShellModel {
    /// The state with no power action waiting.
    pub open spec fn undecided(self) -> ShellModel {
        ShellModel {
            power: PowerModel { power_dialog: PowerDialog::Closed, ..self.power },
            ..self
        }
    }

    /// What an input does while a power action waits for the user's word: only
    /// activating the word that confirms asks for it.
    pub open spec fn dialog_step(self, power: PowerAction, action: ActionModel) -> Outcome {
        match action {
            ActionModel::Move(AxisMove::Down) | ActionModel::Move(AxisMove::Right) => (
                self.focusing(1),
                None,
            ),
            ActionModel::Move(AxisMove::Up) | ActionModel::Move(AxisMove::Left) => (
                self.focusing(0),
                None,
            ),
            ActionModel::Back => (self.undecided().focusing(power_row(self, power)), None),
            ActionModel::Activate => if self.nav.focus == 0 {
                (self.undecided().focusing(power_row(self, power)), None)
            } else {
                (self.undecided().focusing(0), Some(EffectModel::RequestPower(power)))
            },
            ActionModel::Custom(_) => (self, None),
        }
    }

    /// The state after the first run.
    pub open spec fn past_first_run(self) -> ShellModel {
        ShellModel {
            comfort: ComfortModel { first_run_complete: true, ..self.comfort },
            session: SessionStateModel { presentation: Presentation::Ready, ..self.session },
            ..self
        }.focusing(0)
    }

    /// What an input does during the first run. It cannot be left but by
    /// finishing it.
    pub open spec fn first_run_step(self, action: ActionModel) -> Outcome {
        let rows = first_run_rows(self.comfort.display_preferences);
        match action {
            ActionModel::Custom(name) => if name == "Start"@ {
                (self.past_first_run(), Some(EffectModel::CompleteFirstRun))
            } else {
                (self, None)
            },
            ActionModel::Move(AxisMove::Down) | ActionModel::Move(AxisMove::Right) => (
                self.focusing(least(self.nav.focus + 1, rows.len() as int)),
                None,
            ),
            ActionModel::Move(AxisMove::Up) | ActionModel::Move(AxisMove::Left) => (
                self.focusing(self.one_back()),
                None,
            ),
            ActionModel::Activate => if self.nav.focus == rows.len() {
                (self.past_first_run(), Some(EffectModel::CompleteFirstRun))
            } else if self.nav.focus < rows.len() {
                (
                    self,
                    preference_request(
                        self.comfort.display_preferences[rows[self.nav.focus] as int],
                    ),
                )
            } else {
                (self, None)
            },
            ActionModel::Back => (self, None),
        }
    }

    /// The state without the secret that was being entered.
    pub open spec fn forgetting_secret(self) -> ShellModel {
        ShellModel {
            network: NetworkRoomModel { wifi_credential: Seq::empty(), ..self.network },
            ..self
        }
    }

    /// What an input does while the secret of a network is entered. The secret
    /// leaves the shell once and is then forgotten.
    pub open spec fn credential_step(self, action: ActionModel) -> Outcome {
        match action {
            ActionModel::Back => (
                ShellModel {
                    network: NetworkRoomModel {
                        network_flow: NetworkFlow::Rows,
                        wifi_credential: Seq::empty(),
                        ..self.network
                    },
                    ..self
                },
                None,
            ),
            ActionModel::Activate => match self.network.selected_wifi {
                Some(place) => if 0 <= place < self.network.wifi_networks.len() {
                    (
                        self.forgetting_secret(),
                        Some(
                            EffectModel::ConnectWifi {
                                ssid: self.network.wifi_networks[place].ssid,
                                credential: self.network.wifi_credential,
                            },
                        ),
                    )
                } else {
                    (self, None)
                },
                None => (self, None),
            },
            _ => (self, None),
        }
    }

    /// The state with another picker.
    pub open spec fn picking(self, picker: ManualTimePicker) -> ShellModel {
        ShellModel { system: SystemModel { manual_time_picker: picker, ..self.system }, ..self }
    }

    /// The state back in the rows of the system room.
    pub open spec fn done_picking(self) -> ShellModel {
        ShellModel { system: SystemModel { system_flow: SystemFlow::Rows, ..self.system }, ..self }
    }

    /// What an input does while the clock is set by hand.
    pub open spec fn clock_step(self, action: ActionModel) -> Outcome {
        let picker = self.system.manual_time_picker;
        match action {
            ActionModel::Move(AxisMove::Left) => (
                self.picking(
                    ManualTimePicker { field: floored(picker.field - 1) as usize, ..picker },
                ),
                None,
            ),
            ActionModel::Move(AxisMove::Right) => (
                self.picking(
                    ManualTimePicker {
                        field: least(picker.field + 1, PICKER_FIELDS - 1) as usize,
                        ..picker
                    },
                ),
                None,
            ),
            ActionModel::Move(AxisMove::Up) => (self.picking(picker.adjusted(1)), None),
            ActionModel::Move(AxisMove::Down) => (self.picking(picker.adjusted(-1)), None),
            ActionModel::Activate => (
                self.done_picking(),
                Some(EffectModel::SetManualTime(picker.instant())),
            ),
            ActionModel::Back => (self.done_picking(), None),
            ActionModel::Custom(_) => (self, None),
        }
    }

    /// The state in which the shell is ready.
    pub open spec fn readied(self) -> ShellModel {
        ShellModel {
            session: SessionStateModel { presentation: Presentation::Ready, ..self.session },
            ..self
        }
    }

    /// What an input does after a crash: the title is dismissed or launched
    /// again.
    pub open spec fn crash_step(self, action: ActionModel) -> Outcome {
        match action {
            ActionModel::Back => (self.readied().going(Route::Home), None),
            ActionModel::Activate => if self.nav.focus == 0 {
                (self.readied().going(Route::Home), None)
            } else {
                self.focusing(self.nav.launch_focus).readied().going(Route::Home).activated()
            },
            ActionModel::Move(AxisMove::Down) | ActionModel::Move(AxisMove::Right) => (
                self.focusing(1),
                None,
            ),
            ActionModel::Move(AxisMove::Up) | ActionModel::Move(AxisMove::Left) => (
                self.focusing(0),
                None,
            ),
            ActionModel::Custom(_) => (self, None),
        }
    }

    /// What is asked for when the focused title is to change being a favorite.
    pub open spec fn focused_favorite(self) -> Option<EffectModel> {
        match self.focused_item() {
            Some(item) => Some(self.favorite_request(item)),
            None => None,
        }
    }

    /// The library with the next filter, the focus within what is listed.
    pub open spec fn next_filter(self) -> ShellModel {
        let listed = self.filtering(self.titles.library_filter.following());
        listed.focusing(least(self.nav.focus, listed.titles.library_items.len() as int + 4))
    }

    /// What a named input does.
    pub open spec fn named_step(self, name: Text) -> Outcome {
        if name == "Favorite"@ {
            (self, self.focused_favorite())
        } else if name == "Search"@ || name == "Search.open"@ {
            (self.remembering().going(Route::Search), None)
        } else if name == "Filter.next"@ && self.nav.route == Route::Library {
            (self.next_filter(), None)
        } else if name == "Room.next"@ {
            (self.in_next_room(), None)
        } else if name == "Room.previous"@ {
            (self.in_previous_room(), None)
        } else if name == "Quick"@ {
            if self.nav.route == Route::Details {
                (self, self.focused_favorite())
            } else {
                (self.going(Route::Quick), None)
            }
        } else if name == "Quick.open"@ {
            (self.going(Route::Quick), None)
        } else {
            (self, None)
        }
    }

    /// What going back does.
    pub open spec fn back_step(self) -> ShellModel {
        match self.nav.route {
            Route::Quick => self.going(self.nav.previous_route),
            Route::Details | Route::Search => self.returning(),
            Route::VariantChooser => self.going(Route::Details),
            Route::Settings => if self.settings.settings_in_rows {
                self.leaving_rows()
            } else {
                self.going(Route::Home)
            },
            Route::Library => self.going(Route::Home),
            Route::Home => self,
        }
    }

    /// What an input does when nothing special is going on.
    pub open spec fn plain_step(self, action: ActionModel) -> Outcome {
        match action {
            ActionModel::Custom(name) => self.named_step(name),
            ActionModel::Back => (self.back_step(), None),
            ActionModel::Move(axis) => (self.moved(axis), None),
            ActionModel::Activate => if self.nav.route == Route::Settings
                && !self.settings.settings_in_rows {
                (self.entering_rows(), None)
            } else {
                self.activated()
            },
        }
    }

    /// Whether the secret of a network is being entered.
    pub open spec fn entering_secret(self) -> bool {
        self.nav.route == Route::Settings && self.settings.settings_room == SettingsRoom::Network
            && self.network.network_flow == NetworkFlow::Credential
    }

    /// Whether the clock is being set by hand.
    pub open spec fn setting_clock(self) -> bool {
        self.nav.route == Route::Settings && self.settings.settings_room == SettingsRoom::System
            && self.system.system_flow == SystemFlow::ManualTime
    }

    /// What an input does once it is known not to ask for a safe return.
    pub open spec fn framed_step(self, action: ActionModel) -> Outcome {
        if !self.session.presentation.has_frame() {
            (self, None)
        } else if self.power.power_dialog is Confirm {
            self.dialog_step(self.power.power_dialog->Confirm_0, action)
        } else if self.session.presentation == Presentation::FirstRun {
            self.first_run_step(action)
        } else if self.entering_secret() {
            self.credential_step(action)
        } else if self.setting_clock() {
            self.clock_step(action)
        } else if self.session.presentation == Presentation::Crash {
            self.crash_step(action)
        } else {
            self.plain_step(action)
        }
    }

    /// What an input does: the state that it leads to, and what it asks for.
    /// A safe return is asked for whatever the shell presents.
    pub open spec fn step(self, action: ActionModel) -> Outcome {
        if action == ActionModel::Custom("SafeReturn"@) {
            (self.bumped(), Some(EffectModel::SafeReturn))
        } else {
            self.bumped().framed_step(action)
        }
    }

    /// Whether going back can be carried out.
    pub open spec fn can_go_back(self) -> bool {
        self.room_known() || match self.nav.route {
            Route::Quick => self.nav.previous_route != Route::Settings,
            Route::Details | Route::Search => self.nav.caller_route != Route::Settings,
            _ => true,
        }
    }

    /// Whether a named input can be carried out.
    pub open spec fn can_do(self, name: Text) -> bool {
        self.room_known() || !((name == "Room.next"@ && self.nav.route == Route::Library) || (name
            == "Room.previous"@ && self.nav.route == Route::Home))
    }

    /// Whether an input can be carried out when nothing special is going on.
    pub open spec fn handles_plainly(self, action: ActionModel) -> bool {
        match action {
            ActionModel::Custom(name) => self.can_do(name),
            ActionModel::Back => self.can_go_back(),
            ActionModel::Move(axis) => self.movable(axis),
            ActionModel::Activate => if self.nav.route == Route::Settings
                && !self.settings.settings_in_rows {
                self.room_known()
            } else {
                self.activatable()
            },
        }
    }

    /// Whether an input can be carried out. It cannot where the rows of a room
    /// are needed that lost the service behind it, where the room above the
    /// focus does not exist, and where the quick panel was opened from itself
    /// and is to activate what was focused there.
    pub open spec fn handles(self, action: ActionModel) -> bool {
        ||| action == ActionModel::Custom("SafeReturn"@)
        ||| !self.session.presentation.has_frame()
        ||| self.power.power_dialog is Confirm
        ||| self.session.presentation == Presentation::FirstRun
        ||| self.entering_secret()
        ||| self.setting_clock()
        ||| self.session.presentation == Presentation::Crash
        ||| self.handles_plainly(action)
    }

    pub proof fn lemma_undecided_ok(self)
        requires
            self.ok(),
        ensures
            self.undecided().ok(),
    {
        reveal(ShellModel::ok);
    }

    pub proof fn lemma_past_first_run_ok(self)
        requires
            self.ok(),
        ensures
            self.past_first_run().ok(),
    {
        reveal(ShellModel::ok);
    }

    pub proof fn lemma_network_ok(self, network: NetworkRoomModel)
        requires
            self.ok(),
        ensures
            (ShellModel { network, ..self }).ok(),
    {
        reveal(ShellModel::ok);
    }

    pub proof fn lemma_session_ok(self, session: SessionStateModel)
        requires
            self.ok(),
        ensures
            (ShellModel { session, ..self }).ok(),
    {
        reveal(ShellModel::ok);
    }

    pub proof fn lemma_system_ok(self, system: SystemModel)
        requires
            self.ok(),
            picker_ok(system.manual_time_picker),
        ensures
            (ShellModel { system, ..self }).ok(),
    {
        reveal(ShellModel::ok);
    }

    pub proof fn lemma_picker(self)
        requires
            self.ok(),
        ensures
            self.system.manual_time_picker.valid(),
    {
        reveal(ShellModel::ok);
        reveal(picker_ok);
    }
}

impl ShellCore {
    fn find_power_row(&self, action: PowerAction) -> (row: usize)
        ensures
            row == power_row(self@, action),
            row <= 4,
    {
        match action {
            PowerAction::PowerOff => 2,
            PowerAction::Restart => 3,
            PowerAction::Sleep => match self.sleep_row() {
                Some(row) => row,
                None => 2,
            },
        }
    }

    fn close_dialog(&mut self)
        requires
            old(self).wf(),
        ensures
            final(self)@ == old(self)@.undecided(),
            final(self).wf(),
    {
        self.power.power_dialog = PowerDialog::Closed;
        proof {
            old(self)@.lemma_undecided_ok();
        }
    }

    fn act_in_dialog(&mut self, power: PowerAction, action: &ShellAction) -> (effect: Option<
        Effect,
    >)
        requires
            old(self).wf(),
        ensures
            (final(self)@, effect_of(effect)) == old(self)@.dialog_step(power, action@),
            final(self).wf(),
    {
        match action {
            ShellAction::Move(AxisMove::Down) | ShellAction::Move(AxisMove::Right) => {
                self.set_focus(1);
                None
            },
            ShellAction::Move(AxisMove::Up) | ShellAction::Move(AxisMove::Left) => {
                self.set_focus(0);
                None
            },
            ShellAction::Back => {
                let row: usize = self.find_power_row(power);
                self.close_dialog();
                self.set_focus(row);
                None
            },
            ShellAction::Activate => if self.nav.focus == 0 {
                let row: usize = self.find_power_row(power);
                self.close_dialog();
                self.set_focus(row);
                None
            } else {
                self.close_dialog();
                self.set_focus(0);
                Some(Effect::RequestPower(power))
            },
            ShellAction::Custom(_) => None,
        }
    }

    /// The shown preferences that can be changed, in order.
    pub fn first_run_preferences(&self) -> (rows: Vec<usize>)
        requires
            self.wf(),
        ensures
            rows@ == first_run_rows(self@.comfort.display_preferences),
            rows@.len() <= 4,
            forall|i: int|
                0 <= i < rows@.len() ==> (#[trigger] rows@[i])
                    < self.comfort.display_preferences@.len(),
    {
        let ghost models = self@.comfort.display_preferences;
        let ghost keep = |i: int| models[i].interactive;
        let mut rows: Vec<usize> = Vec::new();
        let mut next: usize = 0;
        while next < self.comfort.display_preferences.len()
            invariant
                next <= self.comfort.display_preferences@.len(),
                models == self@.comfort.display_preferences,
                keep == |i: int| models[i].interactive,
                rows@ == places_below(next as int, keep),
            decreases self.comfort.display_preferences@.len() - next,
        {
            if self.comfort.display_preferences[next].interactive {
                rows.push(next);
            }
            next += 1;
        }
        proof {
            assert(models.len() <= 4) by {
                reveal(ShellModel::ok);
            }
            lemma_first_run_rows(models);
            reveal(first_run_rows);
        }
        rows
    }

    fn finish_first_run(&mut self)
        requires
            old(self).wf(),
        ensures
            final(self)@ == old(self)@.past_first_run(),
            final(self).wf(),
    {
        self.comfort.first_run_complete = true;
        self.session.presentation = Presentation::Ready;
        self.nav.focus = 0;
        proof {
            old(self)@.lemma_past_first_run_ok();
        }
    }

    fn act_in_first_run(&mut self, action: &ShellAction) -> (effect: Option<Effect>)
        requires
            old(self).wf(),
        ensures
            (final(self)@, effect_of(effect)) == old(self)@.first_run_step(action@),
            final(self).wf(),
    {
        proof {
            self@.lemma_sizes();
        }
        let rows = self.first_run_preferences();
        let focus: usize = self.nav.focus;
        match action {
            ShellAction::Custom(name) => if same_text(name.as_str(), "Start") {
                self.finish_first_run();
                Some(Effect::CompleteFirstRun)
            } else {
                None
            },
            ShellAction::Move(AxisMove::Down) | ShellAction::Move(AxisMove::Right) => {
                self.set_focus(
                    if focus + 1 <= rows.len() {
                        focus + 1
                    } else {
                        rows.len()
                    },
                );
                None
            },
            ShellAction::Move(AxisMove::Up) | ShellAction::Move(AxisMove::Left) => {
                self.set_focus(
                    if focus >= 1 {
                        focus - 1
                    } else {
                        0
                    },
                );
                None
            },
            ShellAction::Activate => if focus == rows.len() {
                self.finish_first_run();
                Some(Effect::CompleteFirstRun)
            } else if focus < rows.len() {
                preference_effect_for(&self.comfort.display_preferences[rows[focus]])
            } else {
                None
            },
            ShellAction::Back => None,
        }
    }

    fn act_on_secret(&mut self, action: &ShellAction) -> (effect: Option<Effect>)
        requires
            old(self).wf(),
        ensures
            (final(self)@, effect_of(effect)) == old(self)@.credential_step(action@),
            final(self).wf(),
    {
        match action {
            ShellAction::Back => {
                self.network.network_flow = NetworkFlow::Rows;
                self.network.wifi_credential = WifiCredential::new(Vec::new());
                proof {
                    old(self)@.lemma_network_ok(self@.network);
                }
                None
            },
            ShellAction::Activate => match self.network.selected_wifi {
                Some(place) => if place < self.network.wifi_networks.len() {
                    let ssid = self.network.wifi_networks[place].ssid.clone();
                    let mut credential = WifiCredential::new(Vec::new());
                    std::mem::swap(&mut credential, &mut self.network.wifi_credential);
                    proof {
                        old(self)@.lemma_network_ok(self@.network);
                    }
                    Some(Effect::ConnectWifi { ssid, credential })
                } else {
                    None
                },
                None => None,
            },
            _ => None,
        }
    }

    fn set_picker(&mut self, picker: ManualTimePicker)
        requires
            old(self).wf(),
            picker.valid(),
        ensures
            final(self)@ == old(self)@.picking(picker),
            final(self).wf(),
    {
        self.system.manual_time_picker = picker;
        proof {
            reveal(picker_ok);
            old(self)@.lemma_system_ok(self@.system);
        }
    }

    fn finish_picking(&mut self)
        requires
            old(self).wf(),
        ensures
            final(self)@ == old(self)@.done_picking(),
            final(self).wf(),
    {
        self.system.system_flow = SystemFlow::Rows;
        proof {
            assert(picker_ok(self@.system.manual_time_picker)) by {
                reveal(ShellModel::ok);
            }
            old(self)@.lemma_system_ok(self@.system);
        }
    }

    fn act_on_clock(&mut self, action: &ShellAction) -> (effect: Option<Effect>)
        requires
            old(self).wf(),
        ensures
            (final(self)@, effect_of(effect)) == old(self)@.clock_step(action@),
            final(self).wf(),
    {
        proof {
            self@.lemma_picker();
        }
        let mut picker = self.system.manual_time_picker;
        match action {
            ShellAction::Move(AxisMove::Left) => {
                picker.field = if picker.field >= 1 {
                    picker.field - 1
                } else {
                    0
                };
                self.set_picker(picker);
                None
            },
            ShellAction::Move(AxisMove::Right) => {
                picker.field = if picker.field + 1 <= PICKER_FIELDS - 1 {
                    picker.field + 1
                } else {
                    PICKER_FIELDS - 1
                };
                self.set_picker(picker);
                None
            },
            ShellAction::Move(AxisMove::Up) => {
                picker.adjust(1);
                self.set_picker(picker);
                None
            },
            ShellAction::Move(AxisMove::Down) => {
                picker.adjust(-1);
                self.set_picker(picker);
                None
            },
            ShellAction::Activate => {
                self.finish_picking();
                Some(Effect::SetManualTime(picker.system_time()))
            },
            ShellAction::Back => {
                self.finish_picking();
                None
            },
            ShellAction::Custom(_) => None,
        }
    }

    fn make_ready(&mut self)
        requires
            old(self).wf(),
        ensures
            final(self)@ == old(self)@.readied(),
            final(self).wf(),
    {
        self.session.presentation = Presentation::Ready;
        proof {
            old(self)@.lemma_session_ok(self@.session);
        }
    }

    fn act_after_crash(&mut self, action: &ShellAction) -> (effect: Option<Effect>)
        requires
            old(self).wf(),
        ensures
            (final(self)@, effect_of(effect)) == old(self)@.crash_step(action@),
            final(self).wf(),
    {
        match action {
            ShellAction::Back => {
                self.make_ready();
                self.go(Route::Home);
                None
            },
            ShellAction::Activate => if self.nav.focus == 0 {
                self.make_ready();
                self.go(Route::Home);
                None
            } else {
                let focus: usize = self.nav.launch_focus;
                proof {
                    self@.lemma_sizes();
                }
                self.set_focus(focus);
                self.make_ready();
                self.go(Route::Home);
                self.activate()
            },
            ShellAction::Move(AxisMove::Down) | ShellAction::Move(AxisMove::Right) => {
                self.set_focus(1);
                None
            },
            ShellAction::Move(AxisMove::Up) | ShellAction::Move(AxisMove::Left) => {
                self.set_focus(0);
                None
            },
            ShellAction::Custom(_) => None,
        }
    }

    fn make_focused_favorite(&self) -> (effect: Option<Effect>)
        requires
            self.wf(),
        ensures
            effect_of(effect) == self@.focused_favorite(),
    {
        match self.focused_item_index() {
            Some(item) => Some(
                Effect::ToggleFavorite {
                    item_id: self.titles.items[item].id.clone(),
                    favorite: !self.titles.items[item].favorite,
                },
            ),
            None => None,
        }
    }

    fn show_next_filter(&mut self)
        requires
            old(self).wf(),
        ensures
            final(self)@ == old(self)@.next_filter(),
            final(self).wf(),
    {
        let filter = self.titles.library_filter.next();
        self.set_library_filter(filter);
        proof {
            self@.lemma_sizes();
        }
        let last: usize = self.titles.library_items.len() + 4;
        let focus: usize = self.nav.focus;
        self.set_focus(
            if focus <= last {
                focus
            } else {
                last
            },
        );
    }

    fn act_by_name(&mut self, name: &str) -> (effect: Option<Effect>)
        requires
            old(self).wf(),
            old(self)@.can_do(name@),
        ensures
            (final(self)@, effect_of(effect)) == old(self)@.named_step(name@),
            final(self).wf(),
    {
        proof {
            reveal_strlit("Room.next");
            reveal_strlit("Room.previous");
            assert("Room.next"@.len() != "Room.previous"@.len());
        }
        if same_text(name, "Favorite") {
            return self.make_focused_favorite();
        }
        if same_text(name, "Search") || same_text(name, "Search.open") {
            self.remember_caller();
            self.go(Route::Search);
        } else if same_text(name, "Filter.next") && self.nav.route == Route::Library {
            self.show_next_filter();
        } else if same_text(name, "Room.next") {
            self.next_room();
        } else if same_text(name, "Room.previous") {
            self.previous_room();
        } else if same_text(name, "Quick") {
            if self.nav.route == Route::Details {
                return self.make_focused_favorite();
            }
            self.go(Route::Quick);
        } else if same_text(name, "Quick.open") {
            self.go(Route::Quick);
        }
        None
    }

    fn go_back(&mut self)
        requires
            old(self).wf(),
            old(self)@.can_go_back(),
        ensures
            final(self)@ == old(self)@.back_step(),
            final(self).wf(),
    {
        match self.nav.route {
            Route::Quick => {
                let route = self.nav.previous_route;
                self.go(route);
            },
            Route::Details | Route::Search => self.restore_caller_focus(),
            Route::VariantChooser => self.go(Route::Details),
            Route::Settings => if self.settings.settings_in_rows {
                self.leave_settings_rows();
            } else {
                self.go(Route::Home);
            },
            Route::Library => self.go(Route::Home),
            Route::Home => {},
        }
    }

    fn act_plainly(&mut self, action: &ShellAction) -> (effect: Option<Effect>)
        requires
            old(self).wf(),
            old(self)@.handles_plainly(action@),
        ensures
            (final(self)@, effect_of(effect)) == old(self)@.plain_step(action@),
            final(self).wf(),
    {
        match action {
            ShellAction::Custom(name) => self.act_by_name(name.as_str()),
            ShellAction::Back => {
                self.go_back();
                None
            },
            ShellAction::Move(axis) => {
                self.move_focus(*axis);
                None
            },
            ShellAction::Activate => if self.nav.route == Route::Settings
                && !self.settings.settings_in_rows {
                self.enter_settings_rows();
                None
            } else {
                self.activate()
            },
        }
    }

    /// Whether the shell is on the screen at all.
    #[must_use]
    pub fn has_shell_frame(&self) -> (answer: bool)
        ensures
            answer == self@.session.presentation.has_frame(),
    {
        match self.session.presentation {
            Presentation::Running | Presentation::RecoveryRequired => false,
            _ => true,
        }
    }

    fn act_framed(&mut self, action: &ShellAction) -> (effect: Option<Effect>)
        requires
            old(self).wf(),
            action@ != ActionModel::Custom("SafeReturn"@),
            old(self)@.handles(action@),
        ensures
            (final(self)@, effect_of(effect)) == old(self)@.framed_step(action@),
            final(self).wf(),
    {
        if !self.has_shell_frame() {
            return None;
        }
        if let PowerDialog::Confirm(power) = self.power.power_dialog {
            return self.act_in_dialog(power, action);
        }
        if self.session.presentation == Presentation::FirstRun {
            return self.act_in_first_run(action);
        }
        if self.nav.route == Route::Settings && self.settings.settings_room == SettingsRoom::Network
            && self.network.network_flow == NetworkFlow::Credential {
            return self.act_on_secret(action);
        }
        if self.nav.route == Route::Settings && self.settings.settings_room == SettingsRoom::System
            && self.system.system_flow == SystemFlow::ManualTime {
            return self.act_on_clock(action);
        }
        if self.session.presentation == Presentation::Crash {
            return self.act_after_crash(action);
        }
        self.act_plainly(action)
    }

    /// Carries out an input.
    pub fn action(&mut self, action: &ShellAction) -> (effect: Option<Effect>)
        requires
            old(self).wf(),
            old(self)@.handles(action@),
        ensures
            (final(self)@, effect_of(effect)) == old(self)@.step(action@),
            final(self).wf(),
    {
        let safe_return = match action {
            ShellAction::Custom(name) => same_text(name.as_str(), "SafeReturn"),
            _ => false,
        };
        self.bump_revision();
        if safe_return {
            return Some(Effect::SafeReturn);
        }
        self.act_framed(action)
    }
}

} // verus!
