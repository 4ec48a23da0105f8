//! Where the focus can stand, and how it gets from one place to another.

use crate::catalog::{ItemModel, VariantModel};
use crate::library::{find_shelf, lemma_shelf, shelf};
use crate::ports::{PowerAction, PowerCapability, Support};
use crate::state::{
    focuses_fit, most_focus, most_items, places_fit, variants_fit, NavModel, Route, SettingsModel,
    ShellCore, ShellModel,
};
use crate::text::{cat, cat3, decimal, decimal_text, same_text, strip_prefix, stripped, Text};
use crate::titles::{first_ready, lemma_first_ready, ready_places};
use vstd::prelude::*;
use vstd::string::*;

verus! {

broadcast use {
    crate::textlist::group_texts,
    crate::catalog::group_catalog_models,
    crate::state::group_state_models,
};

/// The lesser of two numbers.
pub open spec fn least(left: int, right: int) -> int {
    if left <= right {
        left
    } else {
        right
    }
}

/// A number, or zero where it is negative.
pub open spec fn floored(value: int) -> int {
    if value < 0 {
        0
    } else {
        value
    }
}

/// The first place of a number on a list.
pub open spec fn place_on(list: Seq<usize>, wanted: int, from: int) -> Option<int>
    decreases list.len() - from,
{
    if from < 0 || from >= list.len() {
        None
    } else if list[from] == wanted {
        Some(from)
    } else {
        place_on(list, wanted, from + 1)
    }
}

/// The place of the first title with an id.
pub open spec fn item_place(items: Seq<ItemModel>, id: Text, from: int) -> Option<int>
    decreases items.len() - from,
{
    if from < 0 || from >= items.len() {
        None
    } else if items[from].id == id {
        Some(from)
    } else {
        item_place(items, id, from + 1)
    }
}

pub proof fn lemma_place_on(list: Seq<usize>, wanted: int, from: int)
    requires
        0 <= from,
    ensures
        match place_on(list, wanted, from) {
            Some(place) => from <= place < list.len() && list[place] == wanted,
            None => forall|i: int| from <= i < list.len() ==> list[i] != wanted,
        },
    decreases list.len() - from,
{
    if from < list.len() && list[from] != wanted {
        lemma_place_on(list, wanted, from + 1);
    }
}

pub proof fn lemma_item_place(items: Seq<ItemModel>, id: Text, from: int)
    requires
        0 <= from,
    ensures
        match item_place(items, id, from) {
            Some(place) => from <= place < items.len() && items[place].id == id && forall|i: int|
                from <= i < place ==> (#[trigger] items[i]).id != id,
            None => forall|i: int| from <= i < items.len() ==> (#[trigger] items[i]).id != id,
        },
    decreases items.len() - from,
{
    if from < items.len() && items[from].id != id {
        lemma_item_place(items, id, from + 1);
    }
}

/// The variants from `from` up to but excluding `to` that can be launched.
pub open spec fn ready_between(variants: Seq<VariantModel>, from: int, to: int) -> Seq<int>
    decreases to - from,
{
    if from < 0 || from >= to || from >= variants.len() {
        Seq::empty()
    } else if variants[from].availability is Ready {
        seq![from] + ready_between(variants, from + 1, to)
    } else {
        ready_between(variants, from + 1, to)
    }
}

pub proof fn lemma_ready_between(variants: Seq<VariantModel>, from: int, to: int)
    requires
        0 <= from,
    ensures
        ready_between(variants, from, to).len() <= floored(to - from),
        forall|i: int|
            0 <= i < ready_between(variants, from, to).len() ==> from <= (#[trigger] ready_between(
                variants,
                from,
                to,
            )[i]) < least(to, variants.len() as int) && variants[ready_between(
                variants,
                from,
                to,
            )[i]].availability is Ready,
    decreases to - from,
{
    if from < to && from < variants.len() {
        lemma_ready_between(variants, from + 1, to);
    }
}

/// How many variants the details of a title show at once.
pub const DETAIL_CAPACITY: usize = 2;

/// The first variant that the details of a title show: those shown hold the
/// first one that can be launched.
pub open spec fn window_start(variants: Seq<VariantModel>) -> int {
    let active = match first_ready(variants, 0) {
        Some(place) => place,
        None => 0,
    };
    least(floored(active - 1), floored(variants.len() - 2))
}

/// The end of the variants that the details of a title show.
pub open spec fn window_end(variants: Seq<VariantModel>) -> int {
    least(window_start(variants) + 2, variants.len() as int)
}

/// The details of a title show the variant that would be launched.
pub proof fn law_details_show_the_active_variant(variants: Seq<VariantModel>)
    requires
        first_ready(variants, 0) is Some,
    ensures
        window_start(variants) <= first_ready(variants, 0)->0 < window_end(variants),
        ready_between(variants, window_start(variants), window_end(variants)).len() > 0,
{
    lemma_first_ready(variants, 0);
    let place = first_ready(variants, 0)->0;
    let start = window_start(variants);
    let end = window_end(variants);
    if start == place {
    } else {
        assert(start + 1 == place);
        assert(ready_between(variants, start + 1, end).len() > 0);
    }
}

impl ShellModel {
    /// The variants of the selected title that the details let the user choose.
    pub open spec fn detail_rows(self) -> Seq<int> {
        match self.nav.selected_item {
            Some(item) => {
                let variants = self.titles.items[item].variants;
                ready_between(variants, window_start(variants), window_end(variants))
            },
            None => Seq::empty(),
        }
    }

    /// The focus of the button that launches the selected title.
    pub open spec fn play_focus(self) -> Option<int> {
        match self.nav.selected_item {
            Some(item) => if ready_places(self.titles.items[item].variants, 0).len() > 0 {
                Some(self.detail_rows().len() as int)
            } else {
                None
            },
            None => None,
        }
    }

    /// The focus of the button that pins the selected title.
    pub open spec fn pin_focus(self) -> int {
        match self.play_focus() {
            Some(play) => play + 1,
            None => self.detail_rows().len() as int,
        }
    }

    /// Whether the device supports a power action.
    pub open spec fn supports(self, action: PowerAction) -> bool {
        exists|i: int|
            0 <= i < self.power.power_capabilities.len() && (#[trigger] self.power.power_capabilities[i]).action
                == action && self.power.power_capabilities[i].support == Support::Supported
    }

    /// The row of the quick panel that puts the device to sleep.
    pub open spec fn sleep_row(self) -> Option<int> {
        if self.supports(PowerAction::Sleep) {
            Some(4)
        } else {
            None
        }
    }

    /// The row of the quick panel that sets when the device sleeps by itself.
    pub open spec fn idle_row(self) -> int {
        if self.supports(PowerAction::Sleep) {
            5
        } else {
            4
        }
    }

    /// The row of the quick panel that takes a screenshot.
    pub open spec fn screenshot_row(self) -> int {
        self.idle_row() + if self.power.idle_policy_loaded {
            1int
        } else {
            0int
        }
    }

    /// How many places the focus can stand at on a route.
    pub open spec fn focus_count(self) -> int {
        match self.nav.route {
            Route::Home => if shelf(self.titles.items).len() == 0 {
                1
            } else {
                shelf(self.titles.items).len() as int
            },
            Route::Library => self.titles.library_items.len() as int + 5,
            Route::Search => if self.titles.search_results.len() == 0 {
                1
            } else {
                self.titles.search_results.len() as int
            },
            Route::Details => self.pin_focus() + 1,
            Route::VariantChooser => match self.nav.selected_item {
                Some(item) => if ready_places(self.titles.items[item].variants, 0).len() == 0 {
                    1
                } else {
                    ready_places(self.titles.items[item].variants, 0).len() as int
                },
                None => 1,
            },
            Route::Settings => self.row_count(),
            Route::Quick => self.screenshot_row() + 1,
        }
    }

    /// Whether counting the places of the focus needs the rows of the settings.
    pub open spec fn countable(self) -> bool {
        self.nav.route == Route::Settings ==> self.room_known()
    }

    /// The title that the focus stands on.
    pub open spec fn focused_item(self) -> Option<int> {
        match self.nav.route {
            Route::Library => if 5 <= self.nav.focus < self.titles.library_items.len() + 5 {
                Some(self.titles.library_items[self.nav.focus - 5] as int)
            } else {
                None
            },
            Route::Search => if 0 <= self.nav.focus < self.titles.search_results.len() {
                Some(self.titles.search_results[self.nav.focus] as int)
            } else {
                None
            },
            Route::Details | Route::VariantChooser => self.nav.selected_item,
            Route::Home => if 0 <= self.nav.focus < shelf(self.titles.items).len() {
                Some(shelf(self.titles.items)[self.nav.focus] as int)
            } else {
                None
            },
            _ => None,
        }
    }

    /// The name of what the focus stands on.
    pub open spec fn focus_name(self) -> Text {
        match self.focused_item() {
            Some(item) => "item-"@ + self.titles.items[item].id,
            None => "route-"@ + self.nav.route.name() + "-"@ + decimal_text(self.nav.focus as nat),
        }
    }

    /// The state that remembers where the user is, to come back to it.
    pub open spec fn remembering(self) -> ShellModel {
        ShellModel {
            nav: NavModel {
                caller_route: self.nav.route,
                caller_focus: self.nav.focus,
                caller_focus_id: Some(self.focus_name()),
                ..self.nav
            },
            ..self
        }
    }

    /// The state on its way to another route: the focus of the old route is
    /// kept, and the quick panel knows where it was opened from.
    pub open spec fn leaving_for(self, route: Route) -> ShellModel {
        ShellModel {
            nav: NavModel {
                saved_focus: self.nav.saved_focus.update(
                    self.nav.route.slot(),
                    self.nav.focus as usize,
                ),
                previous_route: if route == Route::Quick {
                    self.nav.route
                } else {
                    self.nav.previous_route
                },
                route,
                ..self.nav
            },
            ..self
        }
    }

    /// The state on another route. The focus that the route had is taken up
    /// again, as far as it still exists.
    pub open spec fn going(self, route: Route) -> ShellModel {
        let there = self.leaving_for(route);
        there.focusing(least(there.nav.saved_focus[route.slot()] as int, there.focus_count() - 1))
    }

    /// The focus of a title on the route that the user came from.
    pub open spec fn caller_place(self, item: int) -> Option<int> {
        match self.nav.caller_route {
            Route::Home => place_on(shelf(self.titles.items), item, 0),
            Route::Library => match place_on(self.titles.library_items, item, 0) {
                Some(place) => Some(place + 5),
                None => None,
            },
            Route::Search => place_on(self.titles.search_results, item, 0),
            _ => None,
        }
    }

    /// The focus of the title that the user came from, where it still has one.
    pub open spec fn remembered_focus(self) -> Option<int> {
        match self.nav.caller_focus_id {
            Some(name) => match stripped(name, "item-"@) {
                Some(id) => match item_place(self.titles.items, id, 0) {
                    Some(item) => self.caller_place(item),
                    None => None,
                },
                None => None,
            },
            None => None,
        }
    }

    /// The state on the route that the user came from.
    pub open spec fn at_caller(self) -> ShellModel {
        ShellModel { nav: NavModel { route: self.nav.caller_route, ..self.nav }, ..self }
    }

    /// The focus nearest to the place that the user came from.
    pub open spec fn nearby_focus(self) -> int {
        if self.nav.caller_route == Route::Library && self.titles.library_items.len() > 0 {
            if self.nav.caller_focus < 5 {
                5
            } else {
                least(self.nav.caller_focus, self.titles.library_items.len() as int + 4)
            }
        } else if self.nav.caller_route == Route::Search && self.titles.search_results.len() > 0 {
            least(self.nav.caller_focus, self.titles.search_results.len() - 1)
        } else {
            least(self.nav.caller_focus, self.at_caller().focus_count() - 1)
        }
    }

    /// The state back where the user came from: on the same title, or near the
    /// same place where the title is gone.
    pub open spec fn returning(self) -> ShellModel {
        self.at_caller().focusing(
            match self.remembered_focus() {
                Some(focus) => focus,
                None => self.nearby_focus(),
            },
        )
    }

    /// The state in the next room.
    pub open spec fn in_next_room(self) -> ShellModel {
        match self.nav.route {
            Route::Home => self.going(Route::Library),
            Route::Library => self.going(Route::Settings),
            Route::Settings => self.going(Route::Home),
            _ => self,
        }
    }

    /// The state in the previous room.
    pub open spec fn in_previous_room(self) -> ShellModel {
        match self.nav.route {
            Route::Settings => self.going(Route::Library),
            Route::Library => self.going(Route::Home),
            Route::Home => self.going(Route::Settings),
            _ => self,
        }
    }

    /// How far a row lies from a place.
    pub open spec fn row_distance(row: int, place: int) -> int {
        if row < place {
            place - row
        } else {
            row - place
        }
    }

    /// The row below `upto` that does something and lies nearest to a place;
    /// the upper one of two that lie equally near.
    pub open spec fn nearest_row(self, place: int, upto: int) -> Option<int>
        decreases upto,
    {
        if upto <= 0 {
            None
        } else {
            let nearest = self.nearest_row(place, upto - 1);
            if self.row_action(upto - 1) is None {
                nearest
            } else {
                match nearest {
                    Some(row) => if ShellModel::row_distance(upto - 1, place)
                        < ShellModel::row_distance(row, place) {
                        Some(upto - 1)
                    } else {
                        Some(row)
                    },
                    None => Some(upto - 1),
                }
            }
        }
    }

    /// The state in the rows of the room, with the focus on the row that had it
    /// or the nearest one that does something.
    pub open spec fn entering_rows(self) -> ShellModel {
        if self.settings.settings_in_rows {
            self
        } else {
            let saved = self.settings.settings_saved_focus[self.settings.settings_room.slot()] as int;
            let row = self.nearest_row(saved, self.row_count());
            ShellModel {
                settings: SettingsModel {
                    settings_in_rows: true,
                    settings_row_focused: row is Some,
                    ..self.settings
                },
                ..self
            }.focusing(
                match row {
                    Some(row) => row,
                    None => 0,
                },
            )
        }
    }

    /// The state back among the rooms. The focused row is kept for the next
    /// time.
    pub open spec fn leaving_rows(self) -> ShellModel {
        ShellModel {
            settings: SettingsModel {
                settings_saved_focus: if self.settings.settings_row_focused {
                    self.settings.settings_saved_focus.update(
                        self.settings.settings_room.slot(),
                        self.nav.focus as usize,
                    )
                } else {
                    self.settings.settings_saved_focus
                },
                settings_in_rows: false,
                settings_row_focused: false,
                ..self.settings
            },
            ..self
        }.focusing(self.room_place())
    }

    /// The first row at or after a place that does something.
    pub open spec fn row_after(self, from: int) -> Option<int>
        decreases self.row_count() - from,
    {
        if from < 0 || from >= self.row_count() {
            None
        } else if self.row_action(from) is Some {
            Some(from)
        } else {
            self.row_after(from + 1)
        }
    }

    /// The last row before a place that does something.
    pub open spec fn row_before(self, upto: int) -> Option<int>
        decreases upto,
    {
        if upto <= 0 {
            None
        } else if upto - 1 < self.row_count() && self.row_action(upto - 1) is Some {
            Some(upto - 1)
        } else {
            self.row_before(upto - 1)
        }
    }

    /// The state with the focus on the next or the previous row that does
    /// something.
    pub open spec fn along_rows(self, forward: bool) -> ShellModel {
        let row = if forward {
            self.row_after(self.nav.focus + 1)
        } else {
            self.row_before(self.nav.focus)
        };
        self.focusing(
            match row {
                Some(row) if self.settings.settings_row_focused => row,
                _ => self.nav.focus,
            },
        )
    }

    /// The state with the focus elsewhere.
    pub open spec fn focusing(self, focus: int) -> ShellModel {
        ShellModel { nav: NavModel { focus, ..self.nav }, ..self }
    }

    /// The focus one place on.
    pub open spec fn one_on(self) -> int {
        least(self.nav.focus + 1, self.focus_count() - 1)
    }

    /// The focus one place back.
    pub open spec fn one_back(self) -> int {
        floored(self.nav.focus - 1)
    }
}

impl ShellModel {
    /// On every route the focus has at least one place, and its places are
    /// counted without overflow.
    pub proof fn lemma_focus_count(self)
        requires
            self.ok(),
        ensures
            1 <= self.focus_count() <= most_focus(),
            self.detail_rows().len() <= 2,
            0 <= self.pin_focus() <= 3,
            1 <= self.row_count() <= 6,
    {
        reveal(ShellModel::ok);
        reveal(variants_fit);
        lemma_shelf(self.titles.items);
        if let Some(item) = self.nav.selected_item {
            let variants = self.titles.items[item].variants;
            lemma_first_ready(variants, 0);
            lemma_ready_between(variants, window_start(variants), window_end(variants));
        }
    }

    pub proof fn lemma_focusing_ok(self, focus: int)
        requires
            self.ok(),
            0 <= focus <= most_focus(),
        ensures
            self.focusing(focus).ok(),
    {
        reveal(ShellModel::ok);
    }

    pub proof fn lemma_remembering_ok(self)
        requires
            self.ok(),
        ensures
            self.remembering().ok(),
    {
        reveal(ShellModel::ok);
    }

    pub proof fn lemma_leaving_for_ok(self, route: Route)
        requires
            self.ok(),
        ensures
            self.leaving_for(route).ok(),
    {
        reveal(ShellModel::ok);
        reveal(focuses_fit);
    }

    pub proof fn lemma_going_ok(self, route: Route)
        requires
            self.ok(),
        ensures
            self.going(route).ok(),
    {
        let there = self.leaving_for(route);
        self.lemma_leaving_for_ok(route);
        there.lemma_focus_count();
        there.lemma_focusing_ok(
            least(there.nav.saved_focus[route.slot()] as int, there.focus_count() - 1),
        );
    }

    pub proof fn lemma_at_caller_ok(self)
        requires
            self.ok(),
        ensures
            self.at_caller().ok(),
    {
        reveal(ShellModel::ok);
    }

    /// The sizes that a state keeps to.
    pub proof fn lemma_sizes(self)
        requires
            self.ok(),
        ensures
            self.titles.items.len() <= most_items(),
            self.titles.library_items.len() <= most_items(),
            self.titles.search_results.len() <= most_items(),
            0 <= self.nav.focus <= most_focus(),
            0 <= self.nav.caller_focus <= most_focus(),
            0 <= self.nav.launch_focus <= most_focus(),
    {
        reveal(ShellModel::ok);
    }

    /// The focus that the user comes back to is one that occurs.
    pub proof fn lemma_return_focus(self)
        requires
            self.ok(),
        ensures
            self.remembered_focus() matches Some(focus) ==> 0 <= focus <= most_focus(),
            0 <= self.nearby_focus() <= most_focus(),
    {
        self.lemma_sizes();
        self.lemma_at_caller_ok();
        self.at_caller().lemma_focus_count();
        if let Some(name) = self.nav.caller_focus_id {
            if let Some(id) = stripped(name, "item-"@) {
                if let Some(item) = item_place(self.titles.items, id, 0) {
                    lemma_shelf(self.titles.items);
                    lemma_place_on(shelf(self.titles.items), item, 0);
                    lemma_place_on(self.titles.library_items, item, 0);
                    lemma_place_on(self.titles.search_results, item, 0);
                }
            }
        }
    }

    /// The nearest row is one that does something.
    pub proof fn lemma_nearest_row(self, place: int, upto: int)
        ensures
            match self.nearest_row(place, upto) {
                Some(row) => 0 <= row < upto && self.row_action(row) is Some && forall|i: int|
                    0 <= i < upto && #[trigger] self.row_action(i) is Some
                        ==> ShellModel::row_distance(row, place) <= ShellModel::row_distance(
                        i,
                        place,
                    ),
                None => forall|i: int| 0 <= i < upto ==> #[trigger] self.row_action(i) is None,
            },
        decreases upto,
    {
        if upto > 0 {
            self.lemma_nearest_row(place, upto - 1);
        }
    }

    pub proof fn lemma_entering_rows_ok(self)
        requires
            self.ok(),
        ensures
            self.entering_rows().ok(),
    {
        self.lemma_focus_count();
        reveal(ShellModel::ok);
        self.lemma_nearest_row(
            self.settings.settings_saved_focus[self.settings.settings_room.slot()] as int,
            self.row_count(),
        );
    }

    pub proof fn lemma_leaving_rows_ok(self)
        requires
            self.ok(),
        ensures
            self.leaving_rows().ok(),
    {
        reveal(ShellModel::ok);
        reveal(focuses_fit);
    }

    /// The next row is one that does something.
    pub proof fn lemma_row_after(self, from: int)
        requires
            0 <= from,
        ensures
            match self.row_after(from) {
                Some(row) => from <= row < self.row_count() && self.row_action(row) is Some,
                None => true,
            },
        decreases self.row_count() - from,
    {
        if from < self.row_count() && self.row_action(from) is None {
            self.lemma_row_after(from + 1);
        }
    }

    /// The previous row is one that does something.
    pub proof fn lemma_row_before(self, upto: int)
        ensures
            match self.row_before(upto) {
                Some(row) => 0 <= row < upto && row < self.row_count() && self.row_action(
                    row,
                ) is Some,
                None => true,
            },
        decreases upto,
    {
        if upto > 0 {
            self.lemma_row_before(upto - 1);
        }
    }

    pub proof fn lemma_along_rows_ok(self, forward: bool)
        requires
            self.ok(),
        ensures
            self.along_rows(forward).ok(),
    {
        self.lemma_focus_count();
        reveal(ShellModel::ok);
        self.lemma_row_after(self.nav.focus + 1);
        self.lemma_row_before(self.nav.focus);
    }
}

fn find_place(list: &Vec<usize>, wanted: usize) -> (place: Option<usize>)
    ensures
        match place {
            Some(place) => place_on(list@, wanted as int, 0) == Some(place as int) && place
                < list@.len(),
            None => place_on(list@, wanted as int, 0) is None,
        },
{
    let mut next: usize = 0;
    while next < list.len()
        invariant
            next <= list@.len(),
            place_on(list@, wanted as int, 0) == place_on(list@, wanted as int, next as int),
        decreases list@.len() - next,
    {
        if list[next] == wanted {
            return Some(next);
        }
        next += 1;
    }
    None
}

impl ShellCore {
    /// Whether the device supports a power action.
    pub fn supports_power(&self, action: PowerAction) -> (supported: bool)
        ensures
            supported == self@.supports(action),
    {
        let mut next: usize = 0;
        while next < self.power.power_capabilities.len()
            invariant
                next <= self.power.power_capabilities@.len(),
                forall|i: int|
                    0 <= i < next ==> !((#[trigger] self.power.power_capabilities@[i]).action == action
                        && self.power.power_capabilities@[i].support == Support::Supported),
            decreases self.power.power_capabilities@.len() - next,
        {
            let capability: PowerCapability = self.power.power_capabilities[next];
            if capability.action == action && capability.support == Support::Supported {
                proof {
                    assert(self@.power.power_capabilities[next as int].action == action);
                }
                return true;
            }
            next += 1;
        }
        false
    }

    /// The row of the quick panel that puts the device to sleep.
    pub fn sleep_row(&self) -> (row: Option<usize>)
        ensures
            crate::state::place_of(row) == self@.sleep_row(),
    {
        if self.supports_power(PowerAction::Sleep) {
            Some(4)
        } else {
            None
        }
    }

    /// The row of the quick panel that sets when the device sleeps by itself.
    pub fn idle_row(&self) -> (row: usize)
        ensures
            row == self@.idle_row(),
    {
        if self.supports_power(PowerAction::Sleep) {
            5
        } else {
            4
        }
    }

    /// The row of the quick panel that takes a screenshot.
    pub fn screenshot_row(&self) -> (row: usize)
        ensures
            row == self@.screenshot_row(),
            row <= 6,
    {
        if self.power.idle_policy_loaded {
            self.idle_row() + 1
        } else {
            self.idle_row()
        }
    }

    /// The variants that the details of a title show.
    pub fn detail_visible_variants(&self, item: usize) -> (places: Vec<usize>)
        requires
            item < self.titles.items@.len(),
        ensures
            places@.len() == window_end(self@.titles.items[item as int].variants) - window_start(
                self@.titles.items[item as int].variants,
            ),
            forall|i: int|
                0 <= i < places@.len() ==> places@[i] == window_start(
                    self@.titles.items[item as int].variants,
                ) + i,
    {
        let ghost variants = self@.titles.items[item as int].variants;
        proof {
            lemma_first_ready(variants, 0);
        }
        let count: usize = self.titles.items[item].variants.len();
        let active: usize = match self.titles.items[item].active_ready_variant() {
            Some(place) => place,
            None => 0,
        };
        let earliest: usize = if active >= 1 {
            active - 1
        } else {
            0
        };
        let latest: usize = if count >= 2 {
            count - 2
        } else {
            0
        };
        let start: usize = if earliest <= latest {
            earliest
        } else {
            latest
        };
        let end: usize = if count - start >= 2 {
            start + 2
        } else {
            count
        };
        let mut places: Vec<usize> = Vec::new();
        let mut next: usize = start;
        while next < end
            invariant
                start <= next <= end,
                places@.len() == next - start,
                forall|i: int| 0 <= i < places@.len() ==> places@[i] == start + i,
            decreases end - next,
        {
            places.push(next);
            next += 1;
        }
        places
    }

    /// The variants of the selected title that the details let the user choose.
    pub fn detail_focusable_variants(&self) -> (places: Vec<usize>)
        requires
            self.wf(),
        ensures
            places@.map_values(|place: usize| place as int) == self@.detail_rows(),
            places@.len() == self@.detail_rows().len() <= 2,
            self@.nav.selected_item is None ==> places@.len() == 0,
            self@.nav.selected_item is Some ==> forall|i: int|
                0 <= i < places@.len() ==> places@[i]
                    < self.titles.items@[self@.nav.selected_item->0].variants@.len(),
    {
        let ghost as_int = |place: usize| place as int;
        proof {
            self@.lemma_focus_count();
            reveal(ShellModel::ok);
        }
        let mut ready: Vec<usize> = Vec::new();
        match self.nav.selected_item {
            Some(item) => {
                let shown = self.detail_visible_variants(item);
                let ghost variants = self@.titles.items[item as int].variants;
                let ghost start = window_start(variants);
                let ghost end = window_end(variants);
                proof {
                    lemma_first_ready(variants, 0);
                    assert(ready@.map_values(as_int) + ready_between(variants, start, end)
                        =~= ready_between(variants, start, end));
                }
                let mut next: usize = 0;
                while next < shown.len()
                    invariant
                        item < self.titles.items@.len(),
                        next <= shown@.len(),
                        variants == self@.titles.items[item as int].variants,
                        start == window_start(variants),
                        end == window_end(variants),
                        0 <= start,
                        end <= variants.len(),
                        shown@.len() == end - start,
                        forall|i: int| 0 <= i < shown@.len() ==> shown@[i] == start + i,
                        as_int == |place: usize| place as int,
                        ready@.map_values(as_int) + ready_between(variants, start + next, end)
                            == ready_between(variants, start, end),
                        forall|i: int|
                            0 <= i < ready@.len() ==> ready@[i]
                                < self.titles.items@[item as int].variants@.len(),
                    decreases shown@.len() - next,
                {
                    let place: usize = shown[next];
                    let ghost before = ready@;
                    if self.titles.items[item].variants[place].availability.is_ready() {
                        ready.push(place);
                        proof {
                            assert(ready@.map_values(as_int) =~= before.map_values(as_int) + seq![
                                place as int,
                            ]);
                            assert(before.map_values(as_int) + (seq![place as int] + ready_between(
                                variants,
                                start + next + 1,
                                end,
                            )) =~= ready@.map_values(as_int) + ready_between(
                                variants,
                                start + next + 1,
                                end,
                            ));
                        }
                    }
                    next += 1;
                }
                proof {
                    assert(ready@.map_values(as_int) + Seq::<int>::empty() =~= ready@.map_values(
                        as_int,
                    ));
                }
            },
            None => {
                proof {
                    assert(ready@.map_values(as_int) =~= self@.detail_rows());
                }
            },
        }
        ready
    }

    /// The focus of the button that launches the selected title.
    pub fn detail_play_focus(&self) -> (focus: Option<usize>)
        requires
            self.wf(),
        ensures
            crate::state::place_of(focus) == self@.play_focus(),
            focus matches Some(focus) ==> focus <= 2,
    {
        proof {
            reveal(ShellModel::ok);
        }
        match self.nav.selected_item {
            Some(item) => {
                let ready = self.titles.items[item].ready_variants();
                proof {
                    assert(ready@.map_values(|place: usize| place as int).len() == ready@.len());
                }
                if ready.len() > 0 {
                    Some(self.detail_focusable_variants().len())
                } else {
                    None
                }
            },
            None => None,
        }
    }

    /// The focus of the button that pins the selected title.
    pub fn detail_pin_focus(&self) -> (focus: usize)
        requires
            self.wf(),
        ensures
            focus == self@.pin_focus(),
            focus <= 3,
    {
        match self.detail_play_focus() {
            Some(play) => play + 1,
            None => self.detail_focusable_variants().len(),
        }
    }

    /// How many places the focus can stand at.
    pub fn focus_count(&self) -> (count: usize)
        requires
            self.wf(),
            self@.countable(),
        ensures
            count == self@.focus_count(),
            1 <= count <= most_focus(),
    {
        proof {
            self@.lemma_focus_count();
        }
        match self.nav.route {
            Route::Home => {
                assert(self.titles.items@.len() <= most_items()) by {
                    reveal(ShellModel::ok);
                }
                let count: usize = find_shelf(&self.titles.items).len();
                if count == 0 {
                    1
                } else {
                    count
                }
            },
            Route::Library => self.titles.library_items.len() + 5,
            Route::Search => if self.titles.search_results.len() == 0 {
                1
            } else {
                self.titles.search_results.len()
            },
            Route::Details => self.detail_pin_focus() + 1,
            Route::VariantChooser => match self.nav.selected_item {
                Some(item) => {
                    assert(item < self.titles.items@.len()) by {
                        reveal(ShellModel::ok);
                    }
                    let ready = self.titles.items[item].ready_variants();
                    proof {
                        assert(ready@.map_values(|place: usize| place as int).len()
                            == ready@.len());
                    }
                    if ready.len() == 0 {
                        1
                    } else {
                        ready.len()
                    }
                },
                None => 1,
            },
            Route::Settings => self.settings_scene_rows().len(),
            Route::Quick => self.screenshot_row() + 1,
        }
    }

    /// The title that the focus stands on.
    pub fn focused_item_index(&self) -> (item: Option<usize>)
        requires
            self.wf(),
        ensures
            crate::state::place_of(item) == self@.focused_item(),
            item matches Some(item) ==> item < self.titles.items@.len(),
    {
        proof {
            reveal(ShellModel::ok);
            reveal(places_fit);
        }
        match self.nav.route {
            Route::Library => if self.nav.focus >= 5 && self.nav.focus - 5 < self.titles.library_items.len() {
                Some(self.titles.library_items[self.nav.focus - 5])
            } else {
                None
            },
            Route::Search => if self.nav.focus < self.titles.search_results.len() {
                Some(self.titles.search_results[self.nav.focus])
            } else {
                None
            },
            Route::Details | Route::VariantChooser => self.nav.selected_item,
            Route::Home => {
                let places = find_shelf(&self.titles.items);
                if self.nav.focus < places.len() {
                    Some(places[self.nav.focus])
                } else {
                    None
                }
            },
            _ => None,
        }
    }

    /// The name of what the focus stands on.
    pub fn focus_object_id(&self) -> (name: String)
        requires
            self.wf(),
        ensures
            name@ == self@.focus_name(),
    {
        match self.focused_item_index() {
            Some(item) => cat("item-", self.titles.items[item].id.as_str()),
            None => cat3("route-", self.nav.route.label(), "-").concat(
                decimal(self.nav.focus as u64).as_str(),
            ),
        }
    }

    /// Remembers where the user is.
    pub fn remember_caller(&mut self)
        requires
            old(self).wf(),
        ensures
            final(self)@ == old(self)@.remembering(),
            final(self).wf(),
    {
        let name = self.focus_object_id();
        self.nav.caller_route = self.nav.route;
        self.nav.caller_focus = self.nav.focus;
        self.nav.caller_focus_id = Some(name);
        proof {
            old(self)@.lemma_remembering_ok();
        }
    }

    fn leave_for(&mut self, route: Route)
        requires
            old(self).wf(),
        ensures
            final(self)@ == old(self)@.leaving_for(route),
            final(self).wf(),
    {
        let slot: usize = self.nav.route.index();
        let focus: usize = self.nav.focus;
        self.nav.saved_focus[slot] = focus;
        if route == Route::Quick {
            self.nav.previous_route = self.nav.route;
        }
        self.nav.route = route;
        proof {
            old(self)@.lemma_leaving_for_ok(route);
        }
    }

    /// Puts the focus at a place.
    pub fn set_focus(&mut self, focus: usize)
        requires
            old(self).wf(),
            focus <= most_focus(),
        ensures
            final(self)@ == old(self)@.focusing(focus as int),
            final(self).wf(),
    {
        self.nav.focus = focus;
        proof {
            old(self)@.lemma_focusing_ok(focus as int);
        }
    }

    /// Goes to a route.
    pub fn go(&mut self, route: Route)
        requires
            old(self).wf(),
            route == Route::Settings ==> old(self)@.room_known(),
        ensures
            final(self)@ == old(self)@.going(route),
            final(self).wf(),
    {
        self.leave_for(route);
        let last: usize = self.focus_count() - 1;
        let saved: usize = self.nav.saved_focus[route.index()];
        self.set_focus(
            if saved <= last {
                saved
            } else {
                last
            },
        );
    }

    /// Finds the first title with an id.
    pub fn find_item(&self, id: &str) -> (place: Option<usize>)
        ensures
            match place {
                Some(place) => item_place(self@.titles.items, id@, 0) == Some(place as int) && place
                    < self.titles.items@.len(),
                None => item_place(self@.titles.items, id@, 0) is None,
            },
    {
        let mut next: usize = 0;
        while next < self.titles.items.len()
            invariant
                next <= self.titles.items@.len(),
                item_place(self@.titles.items, id@, 0) == item_place(self@.titles.items, id@, next as int),
            decreases self.titles.items@.len() - next,
        {
            if same_text(self.titles.items[next].id.as_str(), id) {
                return Some(next);
            }
            next += 1;
        }
        None
    }

    fn find_remembered_focus(&self) -> (focus: Option<usize>)
        requires
            self.wf(),
        ensures
            crate::state::place_of(focus) == self@.remembered_focus(),
    {
        let item: usize = match &self.nav.caller_focus_id {
            Some(name) => match strip_prefix(name.as_str(), "item-") {
                Some(id) => match self.find_item(id.as_str()) {
                    Some(item) => item,
                    None => {
                        return None;
                    },
                },
                None => {
                    return None;
                },
            },
            None => {
                return None;
            },
        };
        proof {
            reveal(ShellModel::ok);
        }
        match self.nav.caller_route {
            Route::Home => find_place(&find_shelf(&self.titles.items), item),
            Route::Library => match find_place(&self.titles.library_items, item) {
                Some(place) => Some(place + 5),
                None => None,
            },
            Route::Search => find_place(&self.titles.search_results, item),
            _ => None,
        }
    }

    fn find_nearby_focus(&self) -> (focus: usize)
        requires
            self.wf(),
            self@.nav.route == self@.nav.caller_route,
            self@.countable(),
        ensures
            focus == self@.nearby_focus(),
    {
        proof {
            self@.lemma_sizes();
            assert(self@.at_caller() == self@);
        }
        let last: usize = if self.nav.caller_route == Route::Library && self.titles.library_items.len() > 0 {
            if self.nav.caller_focus < 5 {
                return 5;
            }
            self.titles.library_items.len() + 4
        } else if self.nav.caller_route == Route::Search && self.titles.search_results.len() > 0 {
            self.titles.search_results.len() - 1
        } else {
            self.focus_count() - 1
        };
        if self.nav.caller_focus <= last {
            self.nav.caller_focus
        } else {
            last
        }
    }

    fn go_to_caller(&mut self)
        requires
            old(self).wf(),
        ensures
            final(self)@ == old(self)@.at_caller(),
            final(self).wf(),
    {
        self.nav.route = self.nav.caller_route;
        proof {
            old(self)@.lemma_at_caller_ok();
        }
    }

    /// Goes back to where the user came from.
    pub fn restore_caller_focus(&mut self)
        requires
            old(self).wf(),
            old(self)@.nav.caller_route == Route::Settings ==> old(self)@.room_known(),
        ensures
            final(self)@ == old(self)@.returning(),
            final(self).wf(),
    {
        proof {
            self@.lemma_return_focus();
        }
        let remembered = self.find_remembered_focus();
        self.go_to_caller();
        let focus: usize = match remembered {
            Some(focus) => focus,
            None => self.find_nearby_focus(),
        };
        proof {
            assert(self@.at_caller() == self@);
            assert(self@.nearby_focus() == old(self)@.nearby_focus());
        }
        self.set_focus(focus);
    }

    /// Goes to the next room.
    pub fn next_room(&mut self)
        requires
            old(self).wf(),
            old(self)@.nav.route == Route::Library ==> old(self)@.room_known(),
        ensures
            final(self)@ == old(self)@.in_next_room(),
            final(self).wf(),
    {
        match self.nav.route {
            Route::Home => self.go(Route::Library),
            Route::Library => self.go(Route::Settings),
            Route::Settings => self.go(Route::Home),
            _ => {},
        }
    }

    /// Goes to the previous room.
    pub fn previous_room(&mut self)
        requires
            old(self).wf(),
            old(self)@.nav.route == Route::Home ==> old(self)@.room_known(),
        ensures
            final(self)@ == old(self)@.in_previous_room(),
            final(self).wf(),
    {
        match self.nav.route {
            Route::Settings => self.go(Route::Library),
            Route::Library => self.go(Route::Home),
            Route::Home => self.go(Route::Settings),
            _ => {},
        }
    }

    fn find_nearest_row(&self, saved: usize) -> (row: Option<usize>)
        requires
            self@.room_known(),
        ensures
            crate::state::place_of(row) == self@.nearest_row(saved as int, self@.row_count()),
    {
        let rows = self.settings_scene_rows();
        let mut nearest: Option<usize> = None;
        let mut next: usize = 0;
        while next < rows.len()
            invariant
                next <= rows@.len(),
                rows@.len() == self@.row_count(),
                forall|i: int|
                    0 <= i < rows@.len() ==> (#[trigger] rows@[i]).action == self@.row_action(i),
                crate::state::place_of(nearest) == self@.nearest_row(saved as int, next as int),
            decreases rows@.len() - next,
        {
            if rows[next].action.is_some() {
                nearest = match nearest {
                    Some(row) => if abs_diff(next, saved) < abs_diff(row, saved) {
                        Some(next)
                    } else {
                        Some(row)
                    },
                    None => Some(next),
                };
            }
            next += 1;
        }
        nearest
    }

    /// Goes into the rows of the room.
    pub fn enter_settings_rows(&mut self)
        requires
            old(self).wf(),
            !old(self)@.settings.settings_in_rows ==> old(self)@.room_known(),
        ensures
            final(self)@ == old(self)@.entering_rows(),
            final(self).wf(),
    {
        if self.settings.settings_in_rows {
            return;
        }
        let saved: usize = self.settings.settings_saved_focus[self.settings.settings_room.index()];
        let row = self.find_nearest_row(saved);
        self.settings.settings_in_rows = true;
        self.settings.settings_row_focused = row.is_some();
        self.nav.focus = match row {
            Some(row) => row,
            None => 0,
        };
        proof {
            old(self)@.lemma_entering_rows_ok();
        }
    }

    /// Goes back among the rooms.
    pub fn leave_settings_rows(&mut self)
        requires
            old(self).wf(),
        ensures
            final(self)@ == old(self)@.leaving_rows(),
            final(self).wf(),
    {
        if self.settings.settings_row_focused {
            let slot: usize = self.settings.settings_room.index();
            let focus: usize = self.nav.focus;
            self.settings.settings_saved_focus[slot] = focus;
        }
        self.settings.settings_in_rows = false;
        self.settings.settings_row_focused = false;
        self.nav.focus = self.settings_room_place();
        proof {
            old(self)@.lemma_leaving_rows_ok();
        }
    }

    fn find_row_after(&self, from: usize) -> (row: Option<usize>)
        requires
            self@.room_known(),
        ensures
            crate::state::place_of(row) == self@.row_after(from as int),
    {
        let rows = self.settings_scene_rows();
        let mut next: usize = from;
        while next < rows.len()
            invariant
                from <= next,
                rows@.len() == self@.row_count(),
                forall|i: int|
                    0 <= i < rows@.len() ==> (#[trigger] rows@[i]).action == self@.row_action(i),
                self@.row_after(from as int) == self@.row_after(next as int),
            decreases rows@.len() - next,
        {
            if rows[next].action.is_some() {
                return Some(next);
            }
            next += 1;
        }
        None
    }

    fn find_row_before(&self, upto: usize) -> (row: Option<usize>)
        requires
            self@.room_known(),
        ensures
            crate::state::place_of(row) == self@.row_before(upto as int),
    {
        let rows = self.settings_scene_rows();
        let mut next: usize = upto;
        while next > 0
            invariant
                next <= upto,
                rows@.len() == self@.row_count(),
                forall|i: int|
                    0 <= i < rows@.len() ==> (#[trigger] rows@[i]).action == self@.row_action(i),
                self@.row_before(upto as int) == self@.row_before(next as int),
            decreases next,
        {
            if next - 1 < rows.len() && rows[next - 1].action.is_some() {
                return Some(next - 1);
            }
            next -= 1;
        }
        None
    }

    /// Moves the focus to the next or the previous row that does something.
    pub fn move_settings_focus(&mut self, forward: bool)
        requires
            old(self).wf(),
            old(self)@.settings.settings_row_focused ==> old(self)@.room_known(),
        ensures
            final(self)@ == old(self)@.along_rows(forward),
            final(self).wf(),
    {
        proof {
            self@.lemma_along_rows_ok(forward);
        }
        if !self.settings.settings_row_focused {
            return;
        }
        assert(self.nav.focus <= most_focus()) by {
            reveal(ShellModel::ok);
        }
        let row = if forward {
            self.find_row_after(self.nav.focus + 1)
        } else {
            self.find_row_before(self.nav.focus)
        };
        if let Some(row) = row {
            self.nav.focus = row;
        }
    }
}

fn abs_diff(left: usize, right: usize) -> (distance: usize)
    ensures
        distance == ShellModel::row_distance(left as int, right as int),
{
    if left < right {
        right - left
    } else {
        left - right
    }
}

} // verus!
