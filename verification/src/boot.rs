//! How the shell starts, and what becomes of the art of its titles.

use crate::art::{
    catalog_image, digest_image, plate_treatment, sha256_digest, treatment_of, ArtTreatment,
};
use crate::calendar::ManualTimePicker;
use crate::catalog::{
    image_of, item_models, pair_models, CatalogItem, CatalogItemModel, CatalogSnapshot, ImageModel,
    ImageSource, Item, ItemModel,
};
use crate::navigation::item_place;
use crate::ports::{IdlePolicy, LaunchMotion, WifiCredential};
use crate::state::{
    most_items, ComfortModel, Comfort, ControlsFlow, IdleModel, LibraryFilter, LibraryGrid,
    NavModel, Navigation, Network, NetworkFlow, NetworkRoomModel, Power, PowerDialog, PowerModel,
    Presentation, Route, Session, SessionStateModel, SettingsModel, SettingsRoom, SettingsRooms,
    ShellCore, ShellModel, SystemFlow, SystemModel, SystemRoom, Titles, TitlesModel,
};
use crate::text::{same_text, text_of, Text};
use crate::textlist::texts;
use crate::textmap::TextMap;
use crate::titles::{is_listed, listed, make_item, shell_item};
use vstd::prelude::*;

verus! {

broadcast use {
    crate::textlist::group_texts,
    crate::catalog::group_catalog_models,
    crate::state::group_state_models,
};

/// The art to look for: what a title refers to, if it can be decoded.
pub open spec fn wanted_art(item: CatalogItemModel) -> Option<Text> {
    if item.icon_decodable {
        item.icon_reference
    } else {
        None
    }
}

/// The art to look for.
pub fn art_reference(item: &CatalogItem) -> (reference: Option<String>)
    ensures
        text_of(reference) == wanted_art(item@),
{
    if item.presentation.icon_decodable {
        crate::text::copy_text(&item.presentation.icon_reference)
    } else {
        None
    }
}

/// The bytes of the art of the title at a place, where some were found.
pub open spec fn art_at(art: Seq<Option<Vec<u8>>>, place: int) -> Option<Seq<u8>> {
    if 0 <= place < art.len() {
        match art[place] {
            Some(bytes) => Some(bytes@),
            None => None,
        }
    } else {
        None
    }
}

/// The image of a title: the bytes that were found for it, named by their
/// digest. A title that wants no art gets none.
pub open spec fn item_image(item: CatalogItemModel, bytes: Option<Seq<u8>>) -> Option<ImageModel> {
    match (wanted_art(item), bytes) {
        (Some(_), Some(bytes)) => Some(digest_image(sha256_digest(bytes), bytes)),
        _ => None,
    }
}

/// The title that the shell makes of the one at a place of the catalog.
pub open spec fn booted_item(
    snapshot: CatalogSnapshot,
    art: Seq<Option<Vec<u8>>>,
    place: int,
) -> ItemModel {
    shell_item(
        snapshot.items@[place]@,
        texts(snapshot.user_projection.favorite_item_ids@),
        pair_models(snapshot.user_projection.pinned_variant_ids@),
        item_image(snapshot.items@[place]@, art_at(art, place)),
    )
}

/// The titles that the shell makes of a catalog.
#[verifier::opaque]
pub open spec fn booted_items(snapshot: CatalogSnapshot, art: Seq<Option<Vec<u8>>>) -> Seq<
    ItemModel,
> {
    Seq::new(snapshot.items@.len(), |i: int| booted_item(snapshot, art, i))
}

/// The numbers below a count, in order.
#[verifier::opaque]
pub open spec fn counting(count: nat) -> Seq<usize> {
    Seq::new(count, |i: int| i as usize)
}

/// Where the shell starts: at home, with nothing focused but the first place.
pub open spec fn first_navigation() -> NavModel {
    NavModel {
        route: Route::Home,
        previous_route: Route::Home,
        focus: 0,
        saved_focus: seq![0usize, 0, 0, 0, 0, 0, 0],
        caller_route: Route::Home,
        caller_focus: 0,
        caller_focus_id: None,
        selected_item: None,
        launch_focus: 0,
    }
}

/// What the shell lists first: every title, in the catalog's order.
pub open spec fn first_titles(items: Seq<ItemModel>) -> TitlesModel {
    TitlesModel {
        items,
        search_query: Seq::empty(),
        search_results: counting(items.len()),
        library_filter: LibraryFilter::Recent,
        library_items: counting(items.len()),
        library_grid: LibraryGrid { columns: 6, toolbar_columns: 4 },
        playtime: Map::empty(),
        recent_use: Map::empty(),
    }
}

/// What the shell presents first.
pub open spec fn first_session() -> SessionStateModel {
    SessionStateModel {
        presentation: Presentation::Booting,
        active_title: Seq::empty(),
        crash_summary: Seq::empty(),
        crash_receipt_id: Seq::empty(),
        crash_exit_detail: Seq::empty(),
        recovery_available: false,
        authority_unavailable: false,
        safe_return_failed: false,
        session_status: None,
        pending_ack: false,
        just_returned: false,
    }
}

/// The preferences in effect before any are known.
pub open spec fn first_comfort(motion: LaunchMotion, reduced: bool) -> ComfortModel {
    ComfortModel {
        motion_ms: if reduced {
            motion.reduced_ms
        } else {
            motion.normal_ms
        },
        normal_motion_ms: motion.normal_ms,
        env_reduced_motion: reduced,
        reduced_motion: reduced,
        high_contrast: false,
        reduce_flashing: false,
        text_scale: 100,
        appearance_day: false,
        display_preferences: Seq::empty(),
        first_run_complete: true,
    }
}

/// The settings before anything is known.
pub open spec fn first_settings() -> SettingsModel {
    SettingsModel {
        settings_room: SettingsRoom::Accessibility,
        settings_in_rows: false,
        settings_row_focused: false,
        settings_saved_focus: seq![0usize, 0, 0, 0, 0],
        safe_return_binding: "PF · the button below the d-pad"@,
        safe_return_options: Seq::empty(),
        control_bindings: Seq::empty(),
        controls_status: None,
    }
}

/// What is known of the power at first: nothing.
pub open spec fn first_power() -> PowerModel {
    PowerModel {
        power_capabilities: Seq::empty(),
        applied_idle_policy: IdleModel { sleep_after: None, power_off_after: None },
        idle_policy_loaded: false,
        power_status: None,
        power_dialog: PowerDialog::Closed,
        battery_percent: None,
        attention_message: None,
    }
}

/// What is known of the network at first: nothing.
pub open spec fn first_network() -> NetworkRoomModel {
    NetworkRoomModel {
        network_flow: NetworkFlow::Rows,
        network_state: Err("Network status unavailable"@),
        wifi_networks: Seq::empty(),
        selected_wifi: None,
        wifi_credential: Seq::empty(),
        network_status: None,
    }
}

/// What is known of the clock and the transfer services at first: nothing.
pub open spec fn first_system() -> SystemModel {
    SystemModel {
        system_flow: SystemFlow::Rows,
        manual_time_picker: ManualTimePicker::fallback(),
        time_capabilities: Err("Time controls unavailable"@),
        time_state: Err("Time status unavailable"@),
        transfer_services: Err("Transfer status unavailable"@),
        system_status: None,
    }
}

/// The state in which the shell starts.
pub open spec fn booted(items: Seq<ItemModel>, motion: LaunchMotion, reduced: bool) -> ShellModel {
    ShellModel {
        revision: 0,
        nav: first_navigation(),
        titles: first_titles(items),
        session: first_session(),
        comfort: first_comfort(motion, reduced),
        settings: first_settings(),
        power: first_power(),
        network: first_network(),
        system: first_system(),
    }
}

/// Whether a catalog is one that the shell can count: its titles, and the
/// variants of each.
pub open spec fn countable(snapshot: CatalogSnapshot) -> bool {
    snapshot.items@.len() <= most_items() && forall|i: int|
        0 <= i < snapshot.items@.len() ==> (#[trigger] snapshot.items@[i]).variants@.len()
            <= most_items()
}

proof fn lemma_booted_items(snapshot: CatalogSnapshot, art: Seq<Option<Vec<u8>>>)
    requires
        countable(snapshot),
    ensures
        booted_items(snapshot, art).len() == snapshot.items@.len(),
        crate::state::variants_fit(booted_items(snapshot, art)),
{
    reveal(booted_items);
    reveal(crate::state::variants_fit);
    assert forall|i: int| 0 <= i < snapshot.items@.len() implies (#[trigger] booted_items(
        snapshot,
        art,
    )[i]).variants.len() <= most_items() by {
        assert(snapshot.items@[i].variants@.len() <= most_items());
    }
}

proof fn lemma_booted_ok(items: Seq<ItemModel>, motion: LaunchMotion, reduced: bool)
    requires
        items.len() <= most_items(),
        crate::state::variants_fit(items),
    ensures
        booted(items, motion, reduced).ok(),
{
    reveal(ShellModel::ok);
    reveal(counting);
    reveal(crate::state::places_fit);
    reveal(crate::state::places_differ);
    reveal(crate::state::focuses_fit);
    reveal(crate::state::picker_ok);
}

fn count_up(count: usize) -> (numbers: Vec<usize>)
    ensures
        numbers@ == counting(count as nat),
{
    let mut numbers: Vec<usize> = Vec::new();
    let mut next: usize = 0;
    while next < count
        invariant
            next <= count,
            numbers@.len() == next,
            forall|i: int| 0 <= i < next ==> numbers@[i] == i,
        decreases count - next,
    {
        numbers.push(next);
        next += 1;
    }
    proof {
        reveal(counting);
        assert(numbers@ =~= counting(count as nat));
    }
    numbers
}

fn find_image(item: &CatalogItem, bytes: Option<Vec<u8>>) -> (image: Option<ImageSource>)
    ensures
        image_of(image) == item_image(
            item@,
            match bytes {
                Some(bytes) => Some(bytes@),
                None => None,
            },
        ),
{
    if !item.presentation.icon_decodable || item.presentation.icon_reference.is_none() {
        return None;
    }
    match bytes {
        Some(bytes) => Some(catalog_image(bytes)),
        None => None,
    }
}

fn copy_art(art: &Vec<Option<Vec<u8>>>, place: usize) -> (bytes: Option<Vec<u8>>)
    ensures
        (match bytes {
            Some(bytes) => Some(bytes@),
            None => None,
        }) == art_at(art@, place as int),
{
    if place >= art.len() {
        return None;
    }
    match &art[place] {
        Some(bytes) => {
            let mut copy: Vec<u8> = Vec::new();
            let mut next: usize = 0;
            while next < bytes.len()
                invariant
                    next <= bytes@.len(),
                    copy@ == bytes@.take(next as int),
                decreases bytes@.len() - next,
            {
                copy.push(bytes[next]);
                next += 1;
                proof {
                    assert(copy@ =~= bytes@.take(next as int));
                }
            }
            proof {
                assert(bytes@.take(bytes@.len() as int) =~= bytes@);
            }
            Some(copy)
        },
        None => None,
    }
}

fn make_items(snapshot: &CatalogSnapshot, art: &Vec<Option<Vec<u8>>>) -> (items: Vec<Item>)
    ensures
        item_models(items@) == booted_items(*snapshot, art@),
{
    let mut items: Vec<Item> = Vec::new();
    let mut next: usize = 0;
    while next < snapshot.items.len()
        invariant
            next <= snapshot.items@.len(),
            items@.len() == next,
            forall|i: int|
                0 <= i < next ==> (#[trigger] items@[i])@ == booted_item(*snapshot, art@, i),
        decreases snapshot.items@.len() - next,
    {
        let item = &snapshot.items[next];
        let image = find_image(item, copy_art(art, next));
        items.push(make_item(item, &snapshot.user_projection, image));
        next += 1;
    }
    proof {
        reveal(booted_items);
        assert(item_models(items@) =~= booted_items(*snapshot, art@));
    }
    items
}

fn start_navigation() -> (nav: Navigation)
    ensures
        nav@ == first_navigation(),
{
    let nav = Navigation {
        route: Route::Home,
        previous_route: Route::Home,
        focus: 0,
        saved_focus: [0, 0, 0, 0, 0, 0, 0],
        caller_route: Route::Home,
        caller_focus: 0,
        caller_focus_id: None,
        selected_item: None,
        launch_focus: 0,
    };
    proof {
        assert(nav@.saved_focus =~= first_navigation().saved_focus);
    }
    nav
}

fn start_titles(items: Vec<Item>) -> (titles: Titles)
    ensures
        titles@ == first_titles(item_models(items@)),
{
    let count: usize = items.len();
    Titles {
        items,
        search_query: String::new(),
        search_results: count_up(count),
        library_filter: LibraryFilter::Recent,
        library_items: count_up(count),
        library_grid: LibraryGrid { columns: 6, toolbar_columns: 4 },
        playtime: TextMap::new(),
        recent_use: TextMap::new(),
    }
}

fn start_session() -> (session: Session)
    ensures
        session@ == first_session(),
{
    Session {
        presentation: Presentation::Booting,
        active_title: String::new(),
        crash_summary: String::new(),
        crash_receipt_id: String::new(),
        crash_exit_detail: String::new(),
        recovery_available: false,
        authority_unavailable: false,
        safe_return_failed: false,
        session_status: None,
        pending_ack: false,
        just_returned: false,
    }
}

fn start_comfort(motion: LaunchMotion, reduced: bool) -> (comfort: Comfort)
    ensures
        comfort@ == first_comfort(motion, reduced),
{
    let comfort = Comfort {
        motion_ms: if reduced {
            motion.reduced_ms
        } else {
            motion.normal_ms
        },
        normal_motion_ms: motion.normal_ms,
        env_reduced_motion: reduced,
        reduced_motion: reduced,
        high_contrast: false,
        reduce_flashing: false,
        text_scale: 100,
        appearance_day: false,
        display_preferences: Vec::new(),
        first_run_complete: true,
    };
    proof {
        assert(comfort@.display_preferences =~= Seq::empty());
    }
    comfort
}

fn start_settings() -> (settings: SettingsRooms)
    ensures
        settings@ == first_settings(),
{
    let settings = SettingsRooms {
        settings_room: SettingsRoom::Accessibility,
        settings_in_rows: false,
        settings_row_focused: false,
        settings_saved_focus: [0, 0, 0, 0, 0],
        safe_return_binding: "PF · the button below the d-pad".to_owned(),
        safe_return_options: Vec::new(),
        controls_flow: ControlsFlow::Rows,
        control_bindings: Vec::new(),
        controls_status: None,
    };
    proof {
        assert(settings@.settings_saved_focus =~= first_settings().settings_saved_focus);
        assert(settings@.safe_return_options =~= Seq::empty());
        assert(settings@.control_bindings =~= Seq::empty());
    }
    settings
}

fn start_power() -> (power: Power)
    ensures
        power@ == first_power(),
{
    Power {
        power_capabilities: Vec::new(),
        applied_idle_policy: IdlePolicy { sleep_after: None, power_off_after: None },
        idle_policy_loaded: false,
        power_status: None,
        power_dialog: PowerDialog::Closed,
        battery_percent: None,
        attention_message: None,
    }
}

fn start_network() -> (network: Network)
    ensures
        network@ == first_network(),
{
    let network = Network {
        network_flow: NetworkFlow::Rows,
        network_state: Err("Network status unavailable".to_owned()),
        wifi_networks: Vec::new(),
        selected_wifi: None,
        wifi_credential: WifiCredential::new(Vec::new()),
        network_status: None,
    };
    proof {
        assert(network@.wifi_networks =~= Seq::empty());
    }
    network
}

fn start_system() -> (system: SystemRoom)
    ensures
        system@ == first_system(),
{
    SystemRoom {
        system_flow: SystemFlow::Rows,
        manual_time_picker: ManualTimePicker::default_picker(),
        time_capabilities: Err("Time controls unavailable".to_owned()),
        time_state: Err("Time status unavailable".to_owned()),
        transfer_services: Err("Transfer status unavailable".to_owned()),
        system_status: None,
    }
}

impl ShellCore {
    /// Starts the shell on a catalog, without art.
    #[must_use]
    pub fn boot(snapshot: &CatalogSnapshot, motion: &LaunchMotion, reduced_motion: bool) -> (core:
        ShellCore)
        requires
            countable(*snapshot),
        ensures
            core@ == booted(booted_items(*snapshot, Seq::empty()), *motion, reduced_motion),
            core.wf(),
    {
        let art: Vec<Option<Vec<u8>>> = Vec::new();
        proof {
            assert(art@ =~= Seq::empty());
        }
        ShellCore::boot_with_art(snapshot, motion, reduced_motion, &art)
    }

    /// Starts the shell on a catalog, with the bytes of the art that was found
    /// for its titles, each at the place of its title.
    #[must_use]
    pub fn boot_with_art(
        snapshot: &CatalogSnapshot,
        motion: &LaunchMotion,
        reduced_motion: bool,
        art: &Vec<Option<Vec<u8>>>,
    ) -> (core: ShellCore)
        requires
            countable(*snapshot),
        ensures
            core@ == booted(booted_items(*snapshot, art@), *motion, reduced_motion),
            core.wf(),
    {
        let items = make_items(snapshot, art);
        proof {
            lemma_booted_items(*snapshot, art@);
            lemma_booted_ok(booted_items(*snapshot, art@), *motion, reduced_motion);
        }
        ShellCore {
            revision: 0,
            nav: start_navigation(),
            titles: start_titles(items),
            session: start_session(),
            comfort: start_comfort(*motion, reduced_motion),
            settings: start_settings(),
            power: start_power(),
            network: start_network(),
            system: start_system(),
        }
    }

    /// How the art of a title is treated.
    #[must_use]
    pub fn art_treatment(&self, item_id: &str) -> (treatment: Option<ArtTreatment>)
        ensures
            treatment == (match item_place(self@.titles.items, item_id@, 0) {
                Some(item) => Some(treatment_of(self@.titles.items[item])),
                None => None,
            }),
    {
        let mut next: usize = 0;
        while next < self.titles.items.len()
            invariant
                next <= self.titles.items@.len(),
                item_place(self@.titles.items, item_id@, 0) == item_place(
                    self@.titles.items,
                    item_id@,
                    next as int,
                ),
            decreases self.titles.items@.len() - next,
        {
            let item = &self.titles.items[next];
            if same_text(item.id.as_str(), item_id) {
                if item.art.is_some() && !item.art_failed {
                    return Some(ArtTreatment::CatalogArt);
                }
                return Some(plate_treatment(item.id.as_str()));
            }
            next += 1;
        }
        None
    }
}

/// Whether a title shows art that is among the rejected.
pub open spec fn shows_rejected(item: ItemModel, rejected: Seq<Text>) -> bool {
    !item.art_failed && (item.art matches Some(art) && listed(rejected, art.id))
}

/// A title whose rejected art is no longer shown.
pub open spec fn without_rejected(item: ItemModel, rejected: Seq<Text>) -> ItemModel {
    if shows_rejected(item, rejected) {
        ItemModel { art_failed: true, ..item }
    } else {
        item
    }
}

/// The titles whose rejected art is no longer shown.
#[verifier::opaque]
pub open spec fn without_all_rejected(items: Seq<ItemModel>, rejected: Seq<Text>) -> Seq<
    ItemModel,
> {
    Seq::new(items.len(), |i: int| without_rejected(items[i], rejected))
}

/// Whether any title shows art that is among the rejected.
pub open spec fn any_rejected(items: Seq<ItemModel>, rejected: Seq<Text>) -> bool {
    exists|i: int| 0 <= i < items.len() && shows_rejected(#[trigger] items[i], rejected)
}

/// Rejecting the same art twice changes nothing the second time.
pub proof fn law_rejection_is_final(items: Seq<ItemModel>, rejected: Seq<Text>)
    ensures
        !any_rejected(without_all_rejected(items, rejected), rejected),
{
    reveal(without_all_rejected);
}

/// A title whose art was rejected shows its plate.
pub proof fn law_rejected_art_shows_a_plate(item: ItemModel, rejected: Seq<Text>)
    requires
        shows_rejected(item, rejected),
    ensures
        treatment_of(item) == ArtTreatment::CatalogArt,
        treatment_of(without_rejected(item, rejected)) == crate::art::plate_of(item.id),
{
}

impl ShellModel {
    /// The state with other titles.
    pub open spec fn with_items(self, items: Seq<ItemModel>) -> ShellModel {
        ShellModel { titles: TitlesModel { items, ..self.titles }, ..self }
    }

    /// The state after art was rejected: a new revision only where a title
    /// showed some of it.
    pub open spec fn rejecting(self, rejected: Seq<Text>) -> ShellModel {
        let items = self.titles.items;
        if any_rejected(items, rejected) {
            self.with_items(without_all_rejected(items, rejected)).bumped()
        } else {
            self
        }
    }

    pub proof fn lemma_with_items_ok(self, items: Seq<ItemModel>)
        requires
            self.ok(),
            items.len() == self.titles.items.len(),
            forall|i: int|
                0 <= i < items.len() ==> (#[trigger] items[i]).variants.len()
                    == self.titles.items[i].variants.len(),
        ensures
            self.with_items(items).ok(),
    {
        reveal(ShellModel::ok);
        reveal(crate::state::variants_fit);
        assert forall|i: int| 0 <= i < items.len() implies (#[trigger] items[i]).variants.len()
            <= most_items() by {
            assert(self.titles.items[i].variants.len() <= most_items());
        }
    }
}

impl ShellCore {
    /// Takes note of art that could not be painted. Its titles show their
    /// plates from then on. Tells whether anything changed.
    pub fn reject_art_sources(&mut self, source_ids: &Vec<String>) -> (changed: bool)
        requires
            old(self).wf(),
        ensures
            changed == any_rejected(old(self)@.titles.items, texts(source_ids@)),
            final(self)@ == old(self)@.rejecting(texts(source_ids@)),
            final(self).wf(),
    {
        let ghost before = self@.titles.items;
        let ghost rejected = texts(source_ids@);
        let mut changed = false;
        let mut next: usize = 0;
        while next < self.titles.items.len()
            invariant
                next <= self.titles.items@.len(),
                before == old(self)@.titles.items,
                rejected == texts(source_ids@),
                self.titles.items@.len() == before.len(),
                *self == (ShellCore { titles: self.titles, ..*old(self) }),
                self.titles == (Titles { items: self.titles.items, ..old(self).titles }),
                forall|i: int|
                    0 <= i < next ==> (#[trigger] self.titles.items@[i])@ == without_rejected(
                        before[i],
                        rejected,
                    ),
                forall|i: int|
                    next <= i < before.len() ==> (#[trigger] self.titles.items@[i])@ == before[i],
                changed == exists|i: int|
                    0 <= i < next && shows_rejected(#[trigger] before[i], rejected),
            decreases self.titles.items@.len() - next,
        {
            let item = &self.titles.items[next];
            let shown = !item.art_failed && match &item.art {
                Some(art) => is_listed(source_ids, art.id.as_str()),
                None => false,
            };
            proof {
                assert(shown == shows_rejected(before[next as int], rejected));
            }
            if shown {
                self.titles.items[next].art_failed = true;
                changed = true;
            }
            next += 1;
        }
        proof {
            reveal(without_all_rejected);
            let after = item_models(self.titles.items@);
            assert(after =~= without_all_rejected(before, rejected));
            if !changed {
                assert(after =~= before);
            }
            assert(changed == any_rejected(before, rejected));
            assert forall|i: int| 0 <= i < after.len() implies (#[trigger] after[i]).variants.len()
                == before[i].variants.len() by {}
            old(self)@.lemma_with_items_ok(after);
        }
        if changed {
            self.bump_revision();
        }
        changed
    }
}

} // verus!
