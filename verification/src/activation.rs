//! What activating the focused thing does.

use crate::ports::{
    ChangeAuthority, IdlePolicy, LaunchRequest, PowerAction, PreferenceChange, PreferenceKey,
    PreferenceValue, ValueModel,
};
use crate::clock::Duration;
use crate::settings::SettingsRowAction;
use crate::state::{
    effect_of, DisplayPreference, Effect, EffectModel, LibraryFilter, NavModel, PowerDialog,
    PowerModel, PreferenceModel, Presentation, Route, SessionStateModel, ShellCore, ShellModel,
    TitlesModel,
};
use crate::text::{same_text, Text};
use crate::titles::ready_places;
use vstd::prelude::*;
use vstd::string::*;

verus! {

broadcast use {
    crate::textlist::group_texts,
    crate::catalog::group_catalog_models,
    crate::state::group_state_models,
};

/// A state together with the effect that leads to it.
pub type Outcome = (ShellModel, Option<EffectModel>);

/// The value that activating a preference asks for: the other one of two, the
/// next size of the text, or the same number.
pub open spec fn next_value(value: ValueModel) -> ValueModel {
    match value {
        ValueModel::Bool(on) => ValueModel::Bool(!on),
        ValueModel::Text(text) => ValueModel::Text(
            if text == "100%"@ {
                "150%"@
            } else if text == "150%"@ {
                "200%"@
            } else {
                "100%"@
            },
        ),
        ValueModel::Integer(number) => ValueModel::Integer(number),
    }
}

/// What activating a preference asks for. A preference that the service does
/// not apply asks for nothing.
pub open spec fn preference_request(row: PreferenceModel) -> Option<EffectModel> {
    if row.interactive {
        Some(
            EffectModel::ChangePreference {
                key: row.key,
                value: next_value(row.effective),
                authority: "user"@,
            },
        )
    } else {
        None
    }
}

/// The minutes of idling after which the device is to sleep next: 5, 10, 15,
/// and then never.
pub open spec fn next_idle_minutes(sleep_after: Option<nat>) -> Option<nat> {
    match sleep_after {
        None => Some(5),
        Some(span) => if span / 1_000_000_000 / 60 == 5 {
            Some(10)
        } else if span / 1_000_000_000 / 60 == 10 {
            Some(15)
        } else {
            None
        },
    }
}

impl ShellModel {
    /// What is asked for when a title is to change being a favorite.
    pub open spec fn favorite_request(self, item: int) -> EffectModel {
        EffectModel::ToggleFavorite {
            item_id: self.titles.items[item].id,
            favorite: !self.titles.items[item].favorite,
        }
    }

    /// The state in which a title starts.
    pub open spec fn starting(self, item: int) -> ShellModel {
        ShellModel {
            nav: NavModel {
                launch_focus: if self.nav.caller_route == Route::Home {
                    item
                } else {
                    self.nav.caller_focus
                },
                ..self.nav
            },
            session: SessionStateModel {
                active_title: self.titles.items[item].title,
                presentation: Presentation::Starting,
                ..self.session
            },
            ..self
        }
    }

    /// A variant of a title is launched.
    pub open spec fn launched(self, item: int, variant: int) -> Outcome {
        (
            self.starting(item),
            Some(EffectModel::Launch { item_id: self.titles.items[item].variants[variant].app_id }),
        )
    }

    /// The state with a title selected.
    pub open spec fn selecting(self, item: Option<int>) -> ShellModel {
        ShellModel { nav: NavModel { selected_item: item, ..self.nav }, ..self }
    }

    /// The state with a title selected, on another route that leads back here.
    pub open spec fn opening(self, item: Option<int>, route: Route) -> ShellModel {
        self.selecting(item).remembering().going(route)
    }

    /// What the focused row of the settings asks for.
    pub open spec fn settings_request(self) -> Option<EffectModel> {
        if !self.settings.settings_row_focused {
            None
        } else {
            match self.row_action(self.nav.focus) {
                Some(SettingsRowAction::Preference(index)) => preference_request(
                    self.comfort.display_preferences[index as int],
                ),
                Some(SettingsRowAction::Appearance) => Some(
                    EffectModel::ChangePreference {
                        key: "appearance"@,
                        value: ValueModel::Text(
                            if self.comfort.appearance_day {
                                "Dusk"@
                            } else {
                                "Day"@
                            },
                        ),
                        authority: "user"@,
                    },
                ),
                Some(SettingsRowAction::Recovery) => Some(EffectModel::EnterRecovery),
                None => None,
            }
        }
    }

    /// The state in which a power action waits for the user's word. The focus
    /// stands on the word that calls it off.
    pub open spec fn asking(self, action: PowerAction) -> ShellModel {
        ShellModel {
            power: PowerModel { power_dialog: PowerDialog::Confirm(action), ..self.power },
            ..self
        }.focusing(0)
    }

    /// The state with another filter of the library.
    pub open spec fn filtering(self, filter: LibraryFilter) -> ShellModel {
        ShellModel {
            titles: TitlesModel { library_filter: filter, ..self.titles },
            ..self
        }.relisted()
    }

    /// Activating in the library.
    pub open spec fn library_activated(self) -> ShellModel {
        if self.nav.focus == 0 {
            self.remembering().going(Route::Search)
        } else if self.nav.focus <= 4 {
            self.filtering(LibraryFilter::chip(self.nav.focus - 1))
        } else {
            self.opening(
                if self.nav.focus - 5 < self.titles.library_items.len() {
                    Some(self.titles.library_items[self.nav.focus - 5] as int)
                } else {
                    None
                },
                Route::Details,
            )
        }
    }

    /// Activating in the search results.
    pub open spec fn search_activated(self) -> ShellModel {
        if self.nav.focus < self.titles.search_results.len() {
            self.opening(
                Some(self.titles.search_results[self.nav.focus] as int),
                Route::Details,
            )
        } else {
            self
        }
    }

    /// The state in which the user chooses among the variants of a title. The
    /// choice starts at the first one every time.
    pub open spec fn choosing(self) -> ShellModel {
        self.going(Route::VariantChooser).focusing(0)
    }

    /// Activating in the details of a title.
    pub open spec fn details_activated(self) -> Outcome {
        match self.nav.selected_item {
            None => (self, None),
            Some(item) => {
                let variants = self.titles.items[item].variants;
                let rows = self.detail_rows();
                if self.nav.focus < rows.len() {
                    self.launched(item, rows[self.nav.focus])
                } else if self.nav.focus == self.pin_focus() {
                    (self, Some(self.favorite_request(item)))
                } else if ready_places(variants, 0).len() == 0 {
                    (self, None)
                } else if ready_places(variants, 0).len() == 1 {
                    self.launched(item, ready_places(variants, 0)[0])
                } else {
                    (self.choosing(), None)
                }
            },
        }
    }

    /// Activating in the choice of variants.
    pub open spec fn chooser_activated(self) -> Outcome {
        match self.nav.selected_item {
            None => (self, None),
            Some(item) => {
                let ready = ready_places(self.titles.items[item].variants, 0);
                if self.nav.focus < ready.len() {
                    self.launched(item, ready[self.nav.focus])
                } else {
                    (self, None)
                }
            },
        }
    }

    /// Activating on the home screen.
    pub open spec fn home_activated(self) -> Outcome {
        match self.focused_item() {
            None => (self, None),
            Some(item) => {
                let ready = ready_places(self.titles.items[item].variants, 0);
                if ready.len() == 0 {
                    (self.opening(Some(item), Route::Details), None)
                } else if ready.len() == 1 {
                    self.launched(item, ready[0])
                } else {
                    (self.selecting(Some(item)).remembering().choosing(), None)
                }
            },
        }
    }

    /// Activating anywhere but in the quick panel.
    pub open spec fn place_activated(self) -> Outcome {
        match self.nav.route {
            Route::Settings => (self, self.settings_request()),
            Route::Library => (self.library_activated(), None),
            Route::Search => (self.search_activated(), None),
            Route::Details => self.details_activated(),
            Route::VariantChooser => self.chooser_activated(),
            Route::Home => self.home_activated(),
            Route::Quick => (self, None),
        }
    }

    /// What the quick panel asks for at a row below its first four.
    pub open spec fn quick_request(self) -> Option<EffectModel> {
        if self.sleep_row() == Some(self.nav.focus) {
            Some(EffectModel::RequestPower(PowerAction::Sleep))
        } else if self.power.idle_policy_loaded && self.nav.focus == self.idle_row() {
            Some(
                EffectModel::SetIdlePolicy {
                    sleep_after: match next_idle_minutes(self.power.applied_idle_policy.sleep_after) {
                        Some(minutes) => Some(minutes * 60 * 1_000_000_000),
                        None => None,
                    },
                    power_off_after: self.power.applied_idle_policy.power_off_after,
                },
            )
        } else if self.nav.focus == self.screenshot_row() {
            Some(EffectModel::CaptureScreenshot)
        } else {
            None
        }
    }

    /// Activating in the quick panel. Its first row activates what was focused
    /// where the panel was opened; powering off and restarting ask first.
    pub open spec fn quick_activated(self) -> Outcome {
        if self.nav.focus == 0 {
            self.going(self.nav.previous_route).place_activated()
        } else if self.nav.focus == 1 {
            (self.going(Route::Library), None)
        } else if self.nav.focus == 2 && self.supports(PowerAction::PowerOff) {
            (self.asking(PowerAction::PowerOff), None)
        } else if self.nav.focus == 3 && self.supports(PowerAction::Restart) {
            (self.asking(PowerAction::Restart), None)
        } else {
            (self, self.quick_request())
        }
    }

    /// Activating.
    pub open spec fn activated(self) -> Outcome {
        if self.nav.route == Route::Quick {
            self.quick_activated()
        } else {
            self.place_activated()
        }
    }

    /// Whether activating can be carried out: rows are needed only of a room
    /// with a service behind it, and the quick panel was not opened from itself.
    pub open spec fn activatable(self) -> bool {
        &&& (self.nav.route == Route::Settings && self.settings.settings_row_focused)
            ==> self.room_known()
        &&& (self.nav.route == Route::Quick && self.nav.focus == 0) ==> (self.nav.previous_route
            != Route::Quick && (self.nav.previous_route == Route::Settings ==> self.room_known()))
    }

    pub proof fn lemma_starting_ok(self, item: int)
        requires
            self.ok(),
            0 <= item < self.titles.items.len(),
        ensures
            self.starting(item).ok(),
    {
        reveal(ShellModel::ok);
    }

    pub proof fn lemma_selecting_ok(self, item: Option<int>)
        requires
            self.ok(),
            item matches Some(item) ==> 0 <= item < self.titles.items.len(),
        ensures
            self.selecting(item).ok(),
    {
        reveal(ShellModel::ok);
    }

    pub proof fn lemma_asking_ok(self, action: PowerAction)
        requires
            self.ok(),
        ensures
            self.asking(action).ok(),
    {
        reveal(ShellModel::ok);
    }
}

fn next_preference_value(value: &PreferenceValue) -> (next: PreferenceValue)
    ensures
        next@ == next_value(value@),
{
    match value {
        PreferenceValue::Bool(on) => PreferenceValue::Bool(!*on),
        PreferenceValue::Text(text) => PreferenceValue::Text(
            if same_text(text.as_str(), "100%") {
                "150%".to_owned()
            } else if same_text(text.as_str(), "150%") {
                "200%".to_owned()
            } else {
                "100%".to_owned()
            },
        ),
        PreferenceValue::Integer(number) => PreferenceValue::Integer(*number),
    }
}

/// What activating a preference asks for.
pub fn preference_effect_for(row: &DisplayPreference) -> (effect: Option<Effect>)
    ensures
        effect_of(effect) == preference_request(row@),
{
    if !row.interactive {
        return None;
    }
    Some(
        Effect::ChangePreference(
            PreferenceChange {
                key: PreferenceKey(row.key.to_owned()),
                value: next_preference_value(&row.effective),
                authority: ChangeAuthority("user".to_owned()),
            },
        ),
    )
}

impl ShellCore {
    fn make_favorite_request(&self, item: usize) -> (effect: Effect)
        requires
            item < self.titles.items@.len(),
        ensures
            effect@ == self@.favorite_request(item as int),
    {
        Effect::ToggleFavorite {
            item_id: self.titles.items[item].id.clone(),
            favorite: !self.titles.items[item].favorite,
        }
    }

    /// Launches a variant of a title. Where the title has no such variant, nothing
    /// happens.
    pub fn launch_variant(&mut self, item: usize, variant: usize) -> (effect: Option<Effect>)
        requires
            old(self).wf(),
            item < old(self).titles.items@.len(),
        ensures
            (final(self)@, effect_of(effect)) == (if variant
                < old(self)@.titles.items[item as int].variants.len() {
                old(self)@.launched(item as int, variant as int)
            } else {
                (old(self)@, None)
            }),
            final(self).wf(),
    {
        if variant >= self.titles.items[item].variants.len() {
            return None;
        }
        let request = self.titles.items[item].variants[variant].launch_target.app_id.clone();
        self.nav.launch_focus = if self.nav.caller_route == Route::Home {
            item
        } else {
            self.nav.caller_focus
        };
        self.session.active_title = self.titles.items[item].title.clone();
        self.session.presentation = Presentation::Starting;
        proof {
            old(self)@.lemma_starting_ok(item as int);
        }
        Some(Effect::Launch(LaunchRequest { item_id: request }))
    }

    fn select(&mut self, item: Option<usize>)
        requires
            old(self).wf(),
            item matches Some(item) ==> item < old(self).titles.items@.len(),
        ensures
            final(self)@ == old(self)@.selecting(crate::state::place_of(item)),
            final(self).wf(),
    {
        self.nav.selected_item = item;
        proof {
            old(self)@.lemma_selecting_ok(crate::state::place_of(item));
        }
    }

    fn open(&mut self, item: Option<usize>, route: Route)
        requires
            old(self).wf(),
            item matches Some(item) ==> item < old(self).titles.items@.len(),
            route != Route::Settings,
        ensures
            final(self)@ == old(self)@.opening(crate::state::place_of(item), route),
            final(self).wf(),
    {
        self.select(item);
        self.remember_caller();
        self.go(route);
    }

    fn choose_variant(&mut self)
        requires
            old(self).wf(),
        ensures
            final(self)@ == old(self)@.choosing(),
            final(self).wf(),
    {
        self.go(Route::VariantChooser);
        self.set_focus(0);
    }

    /// What activating a shown preference asks for.
    pub fn preference_effect(&self, index: usize) -> (effect: Option<Effect>)
        ensures
            effect_of(effect) == if index < self.comfort.display_preferences@.len() {
                preference_request(self@.comfort.display_preferences[index as int])
            } else {
                None
            },
    {
        if index < self.comfort.display_preferences.len() {
            preference_effect_for(&self.comfort.display_preferences[index])
        } else {
            None
        }
    }

    fn make_settings_request(&self) -> (effect: Option<Effect>)
        requires
            self.settings.settings_row_focused ==> self@.room_known(),
        ensures
            effect_of(effect) == self@.settings_request(),
    {
        if !self.settings.settings_row_focused {
            return None;
        }
        let rows = self.settings_scene_rows();
        if self.nav.focus >= rows.len() {
            return None;
        }
        match rows[self.nav.focus].action {
            Some(SettingsRowAction::Preference(index)) => self.preference_effect(index),
            Some(SettingsRowAction::Appearance) => Some(
                Effect::ChangePreference(
                    PreferenceChange {
                        key: PreferenceKey("appearance".to_owned()),
                        value: PreferenceValue::Text(
                            if self.comfort.appearance_day {
                                "Dusk".to_owned()
                            } else {
                                "Day".to_owned()
                            },
                        ),
                        authority: ChangeAuthority("user".to_owned()),
                    },
                ),
            ),
            Some(SettingsRowAction::Recovery) => Some(Effect::EnterRecovery),
            None => None,
        }
    }

    fn ask_power(&mut self, action: PowerAction)
        requires
            old(self).wf(),
        ensures
            final(self)@ == old(self)@.asking(action),
            final(self).wf(),
    {
        self.power.power_dialog = PowerDialog::Confirm(action);
        self.nav.focus = 0;
        proof {
            old(self)@.lemma_asking_ok(action);
        }
    }

    /// Lists the library by another filter.
    pub fn set_library_filter(&mut self, filter: LibraryFilter)
        requires
            old(self).wf(),
        ensures
            final(self)@ == old(self)@.filtering(filter),
            final(self).wf(),
    {
        self.titles.library_filter = filter;
        proof {
            assert(self@ == ShellModel {
                titles: TitlesModel { library_filter: filter, ..old(self)@.titles },
                ..old(self)@
            });
            assert(self@.ok()) by {
                reveal(ShellModel::ok);
            }
        }
        self.refresh_library_items();
    }

    fn activate_library(&mut self)
        requires
            old(self).wf(),
            old(self)@.nav.route == Route::Library,
        ensures
            final(self)@ == old(self)@.library_activated(),
            final(self).wf(),
    {
        let focus: usize = self.nav.focus;
        if focus == 0 {
            self.remember_caller();
            self.go(Route::Search);
        } else if focus <= 4 {
            let filter = if focus == 1 {
                LibraryFilter::Recent
            } else if focus == 2 {
                LibraryFilter::Alphabetical
            } else if focus == 3 {
                LibraryFilter::Games
            } else {
                LibraryFilter::EverythingElse
            };
            self.set_library_filter(filter);
        } else {
            let item = self.focused_item_index();
            self.open(item, Route::Details);
        }
    }

    fn activate_search(&mut self)
        requires
            old(self).wf(),
            old(self)@.nav.route == Route::Search,
        ensures
            final(self)@ == old(self)@.search_activated(),
            final(self).wf(),
    {
        let item = self.focused_item_index();
        if item.is_some() {
            self.open(item, Route::Details);
        }
    }

    fn activate_details(&mut self) -> (effect: Option<Effect>)
        requires
            old(self).wf(),
        ensures
            (final(self)@, effect_of(effect)) == old(self)@.details_activated(),
            final(self).wf(),
    {
        let item: usize = match self.nav.selected_item {
            Some(item) => item,
            None => {
                return None;
            },
        };
        assert(item < self.titles.items@.len()) by {
            reveal(ShellModel::ok);
        }
        let rows = self.detail_focusable_variants();
        proof {
            let as_int = |place: usize| place as int;
            assert(rows@.map_values(as_int).len() == rows@.len());
            assert(forall|i: int| 0 <= i < rows@.len() ==> rows@.map_values(as_int)[i] == rows@[i]);
        }
        if self.nav.focus < rows.len() {
            let variant: usize = rows[self.nav.focus];
            proof {
                assert(self@.detail_rows()[self@.nav.focus] == variant);
            }
            return self.launch_variant(item, variant);
        }
        if self.nav.focus == self.detail_pin_focus() {
            return Some(self.make_favorite_request(item));
        }
        let ready = self.titles.items[item].ready_variants();
        proof {
            let as_int = |place: usize| place as int;
            assert(ready@.map_values(as_int).len() == ready@.len());
            assert(forall|i: int|
                0 <= i < ready@.len() ==> ready@.map_values(as_int)[i] == ready@[i]);
        }
        if ready.len() == 0 {
            None
        } else if ready.len() == 1 {
            let variant: usize = ready[0];
            proof {
                assert(ready_places(self@.titles.items[item as int].variants, 0)[0] == variant);
            }
            self.launch_variant(item, variant)
        } else {
            self.choose_variant();
            None
        }
    }

    fn activate_chooser(&mut self) -> (effect: Option<Effect>)
        requires
            old(self).wf(),
        ensures
            (final(self)@, effect_of(effect)) == old(self)@.chooser_activated(),
            final(self).wf(),
    {
        let item: usize = match self.nav.selected_item {
            Some(item) => item,
            None => {
                return None;
            },
        };
        assert(item < self.titles.items@.len()) by {
            reveal(ShellModel::ok);
        }
        let ready = self.titles.items[item].ready_variants();
        proof {
            let as_int = |place: usize| place as int;
            assert(ready@.map_values(as_int).len() == ready@.len());
            assert(forall|i: int|
                0 <= i < ready@.len() ==> ready@.map_values(as_int)[i] == ready@[i]);
        }
        if self.nav.focus < ready.len() {
            let variant: usize = ready[self.nav.focus];
            proof {
                assert(ready_places(
                    self@.titles.items[item as int].variants,
                    0,
                )[self@.nav.focus] == variant);
            }
            self.launch_variant(item, variant)
        } else {
            None
        }
    }

    fn activate_home(&mut self) -> (effect: Option<Effect>)
        requires
            old(self).wf(),
            old(self)@.nav.route == Route::Home,
        ensures
            (final(self)@, effect_of(effect)) == old(self)@.home_activated(),
            final(self).wf(),
    {
        let item: usize = match self.focused_item_index() {
            Some(item) => item,
            None => {
                return None;
            },
        };
        let ready = self.titles.items[item].ready_variants();
        proof {
            let as_int = |place: usize| place as int;
            assert(ready@.map_values(as_int).len() == ready@.len());
            assert(forall|i: int|
                0 <= i < ready@.len() ==> ready@.map_values(as_int)[i] == ready@[i]);
        }
        if ready.len() == 0 {
            self.open(Some(item), Route::Details);
            None
        } else if ready.len() == 1 {
            let variant: usize = ready[0];
            proof {
                assert(ready_places(self@.titles.items[item as int].variants, 0)[0] == variant);
            }
            self.launch_variant(item, variant)
        } else {
            self.select(Some(item));
            self.remember_caller();
            self.choose_variant();
            None
        }
    }

    fn activate_place(&mut self) -> (effect: Option<Effect>)
        requires
            old(self).wf(),
            (old(self)@.nav.route == Route::Settings && old(self)@.settings.settings_row_focused)
                ==> old(self)@.room_known(),
        ensures
            (final(self)@, effect_of(effect)) == old(self)@.place_activated(),
            final(self).wf(),
    {
        match self.nav.route {
            Route::Settings => self.make_settings_request(),
            Route::Library => {
                self.activate_library();
                None
            },
            Route::Search => {
                self.activate_search();
                None
            },
            Route::Details => self.activate_details(),
            Route::VariantChooser => self.activate_chooser(),
            Route::Home => self.activate_home(),
            Route::Quick => None,
        }
    }

    fn make_quick_request(&self) -> (effect: Option<Effect>)
        requires
            self.wf(),
        ensures
            effect_of(effect) == self@.quick_request(),
    {
        let row: usize = self.nav.focus;
        if let Some(sleep) = self.sleep_row() {
            if sleep == row {
                return Some(Effect::RequestPower(PowerAction::Sleep));
            }
        }
        if self.power.idle_policy_loaded && row == self.idle_row() {
            let policy = self.power.applied_idle_policy;
            let next: Option<u64> = match policy.sleep_after {
                None => Some(5),
                Some(span) => {
                    let minutes: u64 = span.as_secs() / 60;
                    if minutes == 5 {
                        Some(10)
                    } else if minutes == 10 {
                        Some(15)
                    } else {
                        None
                    }
                },
            };
            return Some(
                Effect::SetIdlePolicy(
                    IdlePolicy {
                        sleep_after: match next {
                            Some(minutes) => Some(Duration::from_secs(minutes * 60)),
                            None => None,
                        },
                        power_off_after: policy.power_off_after,
                    },
                ),
            );
        }
        if row == self.screenshot_row() {
            Some(Effect::CaptureScreenshot)
        } else {
            None
        }
    }

    fn activate_quick(&mut self) -> (effect: Option<Effect>)
        requires
            old(self).wf(),
            old(self)@.nav.route == Route::Quick,
            old(self)@.activatable(),
        ensures
            (final(self)@, effect_of(effect)) == old(self)@.quick_activated(),
            final(self).wf(),
    {
        let row: usize = self.nav.focus;
        if row == 0 {
            let route = self.nav.previous_route;
            self.go(route);
            self.activate_place()
        } else if row == 1 {
            self.go(Route::Library);
            None
        } else if row == 2 && self.supports_power(PowerAction::PowerOff) {
            self.ask_power(PowerAction::PowerOff);
            None
        } else if row == 3 && self.supports_power(PowerAction::Restart) {
            self.ask_power(PowerAction::Restart);
            None
        } else {
            self.make_quick_request()
        }
    }

    /// Activates the focused thing.
    pub fn activate(&mut self) -> (effect: Option<Effect>)
        requires
            old(self).wf(),
            old(self)@.activatable(),
        ensures
            (final(self)@, effect_of(effect)) == old(self)@.activated(),
            final(self).wf(),
    {
        if self.nav.route == Route::Quick {
            self.activate_quick()
        } else {
            self.activate_place()
        }
    }
}

} // verus!
