//! What the user does with the titles: searching, favoring, pinning, playing.

use crate::catalog::{item_models, ItemModel, VariantModel};
use crate::clock::SystemTime;
use crate::history::{sessions, HistoryEntry, SessionModel};
use crate::library::{search_hits, search_items};
use crate::navigation::{floored, item_place, least, lemma_item_place};
use crate::playtime::{
    derive_playtime, find_latest_use, later, later_time, latest_use, moment, playtimes,
};
use crate::state::{
    places_fit, LibraryGrid, NavModel, SessionStateModel, ShellCore, ShellModel, TitlesModel,
};
use crate::text::{same_text, text_of, Text};
use crate::textmap::TextMap;
use vstd::prelude::*;
use vstd::string::*;

verus! {

broadcast use {crate::catalog::group_catalog_models, crate::textlist::group_texts};

/// The latest use of any of the first variants of a title.
pub open spec fn variants_used(variants: Seq<VariantModel>, history: Seq<SessionModel>) -> Option<
    int,
>
    decreases variants.len(),
{
    if variants.len() == 0 {
        None
    } else {
        later(
            variants_used(variants.drop_last(), history),
            latest_use(history, variants.last().app_id),
        )
    }
}

/// When each title was last used. A title that was never used is missing; where
/// two titles share an id, the later of them on the list counts.
pub open spec fn recent_uses(items: Seq<ItemModel>, history: Seq<SessionModel>) -> Map<Text, int>
    decreases items.len(),
{
    if items.len() == 0 {
        Map::empty()
    } else {
        let before = recent_uses(items.drop_last(), history);
        match variants_used(items.last().variants, history) {
            Some(time) => before.insert(items.last().id, time),
            None => before,
        }
    }
}

fn find_variants_used(item: &crate::catalog::Item, entries: &[HistoryEntry]) -> (latest: Option<
    SystemTime,
>)
    ensures
        moment(latest) == variants_used(item@.variants, sessions(entries@)),
{
    let ghost variants = item@.variants;
    let ghost history = sessions(entries@);
    let mut latest: Option<SystemTime> = None;
    let mut next: usize = 0;
    proof {
        assert(variants.take(0) =~= Seq::empty());
    }
    while next < item.variants.len()
        invariant
            next <= item.variants@.len(),
            variants == item@.variants,
            history == sessions(entries@),
            moment(latest) == variants_used(variants.take(next as int), history),
        decreases item.variants@.len() - next,
    {
        proof {
            assert(variants.take(next + 1).drop_last() =~= variants.take(next as int));
            assert(variants.take(next + 1).last() == item.variants@[next as int]@);
        }
        let used = find_latest_use(entries, item.variants[next].launch_target.app_id.as_str());
        latest = later_time(latest, used);
        next += 1;
    }
    proof {
        assert(variants.take(variants.len() as int) =~= variants);
    }
    latest
}

/// Finds when each title was last used.
pub fn find_recent_uses(items: &Vec<crate::catalog::Item>, entries: &[HistoryEntry]) -> (uses:
    TextMap<SystemTime>)
    ensures
        uses@ == recent_uses(item_models(items@), sessions(entries@)),
{
    let ghost models = item_models(items@);
    let ghost history = sessions(entries@);
    let mut uses: TextMap<SystemTime> = TextMap::new();
    let mut next: usize = 0;
    proof {
        assert(models.take(0) =~= Seq::empty());
    }
    while next < items.len()
        invariant
            next <= items@.len(),
            models == item_models(items@),
            history == sessions(entries@),
            uses@ == recent_uses(models.take(next as int), history),
        decreases items@.len() - next,
    {
        proof {
            assert(models.take(next + 1).drop_last() =~= models.take(next as int));
            assert(models.take(next + 1).last() == items@[next as int]@);
        }
        if let Some(time) = find_variants_used(&items[next], entries) {
            uses.set(items[next].id.as_str(), time);
        }
        next += 1;
    }
    proof {
        assert(models.take(models.len() as int) =~= models);
    }
    uses
}

impl ShellModel {
    /// The state with another list of titles that were found.
    pub open spec fn searching(self, query: Text) -> ShellModel {
        ShellModel {
            nav: NavModel { focus: 0, ..self.nav },
            titles: TitlesModel {
                search_query: query,
                search_results: search_hits(self.titles.items, query),
                ..self.titles
            },
            ..self
        }
    }

    /// The state with one title changed.
    pub open spec fn with_item(self, place: int, item: ItemModel) -> ShellModel {
        self.with_items(self.titles.items.update(place, item))
    }

    /// The state in which the first title with an id is a favorite or is none.
    pub open spec fn favoring(self, item_id: Text, favorite: bool) -> ShellModel {
        match item_place(self.titles.items, item_id, 0) {
            Some(place) => self.with_item(
                place,
                ItemModel { favorite, ..self.titles.items[place] },
            ),
            None => self,
        }
    }

    /// The state in which the first title with an id has another pinned variant.
    pub open spec fn pinning(self, item_id: Text, variant_id: Option<Text>) -> ShellModel {
        match item_place(self.titles.items, item_id, 0) {
            Some(place) => self.with_item(
                place,
                ItemModel { pinned_variant_id: variant_id, ..self.titles.items[place] },
            ),
            None => self,
        }
    }

    /// The state with the focus no further than its last place.
    pub open spec fn focus_kept_inside(self) -> ShellModel {
        self.focusing(least(self.nav.focus, floored(self.focus_count() - 1)))
    }

    /// The state with something said about the session, or nothing.
    pub open spec fn saying(self, status: Option<Text>) -> ShellModel {
        ShellModel {
            session: SessionStateModel { session_status: status, ..self.session },
            ..self
        }
    }

    /// The state once it is known what was played. Nothing new makes no new
    /// revision.
    pub open spec fn played(self, history: Seq<SessionModel>) -> ShellModel {
        let playtime = playtimes(history);
        let recent_use = recent_uses(self.titles.items, history);
        if self.titles.playtime == playtime && self.titles.recent_use == recent_use {
            self
        } else {
            (ShellModel {
                titles: TitlesModel { playtime, recent_use, ..self.titles },
                ..self
            }).relisted().bumped()
        }
    }

    /// Whether a title with an id is a favorite.
    pub open spec fn favors(self, item_id: Text) -> bool {
        exists|i: int|
            0 <= i < self.titles.items.len() && (#[trigger] self.titles.items[i]).id == item_id
                && self.titles.items[i].favorite
    }

    pub proof fn lemma_searching_ok(self, query: Text)
        requires
            self.ok(),
        ensures
            self.searching(query).ok(),
    {
        reveal(ShellModel::ok);
        crate::library::law_search_finds_each_title_once(self.titles.items, query);
    }

    pub proof fn lemma_played_ok(self, titles: TitlesModel)
        requires
            self.ok(),
            titles == (TitlesModel {
                playtime: titles.playtime,
                recent_use: titles.recent_use,
                ..self.titles
            }),
        ensures
            (ShellModel { titles, ..self }).ok(),
    {
        reveal(ShellModel::ok);
    }

    /// The state with the library on another grid.
    pub open spec fn on_grid(self, grid: LibraryGrid) -> ShellModel {
        ShellModel { titles: TitlesModel { library_grid: grid, ..self.titles }, ..self }
    }

    pub proof fn lemma_on_grid_ok(self, grid: LibraryGrid)
        requires
            self.ok(),
            grid.wf(),
        ensures
            self.on_grid(grid).ok(),
    {
        reveal(ShellModel::ok);
    }
}

/// A search looks at every title, whatever the library lists.
pub proof fn law_search_ignores_the_library(shell: ShellModel, other: ShellModel, query: Text)
    requires
        shell.titles.items == other.titles.items,
    ensures
        shell.searching(query).titles.search_results == other.searching(
            query,
        ).titles.search_results,
{
}

/// A favorite that was committed is a favorite, where its title exists.
pub proof fn law_committed_favorites_hold(shell: ShellModel, item_id: Text)
    requires
        item_place(shell.titles.items, item_id, 0) is Some,
    ensures
        shell.favoring(item_id, true).favors(item_id),
{
    lemma_item_place(shell.titles.items, item_id, 0);
    let place = item_place(shell.titles.items, item_id, 0)->0;
    let after = shell.favoring(item_id, true).titles.items;
    assert(after[place].id == item_id && after[place].favorite);
}

/// Favoring one title leaves every other title as it was.
pub proof fn law_favoring_keeps_other_titles(
    shell: ShellModel,
    item_id: Text,
    favorite: bool,
    place: int,
)
    requires
        0 <= place < shell.titles.items.len(),
        shell.titles.items[place].id != item_id,
    ensures
        shell.favoring(item_id, favorite).titles.items[place] == shell.titles.items[place],
{
    lemma_item_place(shell.titles.items, item_id, 0);
}

/// A history that says nothing new changes nothing: loading a history twice is
/// loading it once.
pub proof fn law_loading_history_again_changes_nothing(shell: ShellModel, history: Seq<SessionModel>)
    ensures
        shell.played(history).played(history) == shell.played(history),
{
}

impl ShellCore {
    /// What was searched for.
    #[must_use]
    pub fn search_query(&self) -> (query: &str)
        ensures
            query@ == self@.titles.search_query,
    {
        self.titles.search_query.as_str()
    }

    /// The ids of the titles that were found.
    #[must_use]
    pub fn search_result_ids(&self) -> (ids: Vec<&str>)
        requires
            self.wf(),
        ensures
            ids@.len() == self@.titles.search_results.len(),
            forall|i: int|
                0 <= i < ids@.len() ==> (#[trigger] ids@[i])@
                    == self@.titles.items[self@.titles.search_results[i] as int].id,
    {
        assert(places_fit(self.titles.search_results@, self.titles.items@.len() as int)) by {
            reveal(ShellModel::ok);
        }
        let mut ids: Vec<&str> = Vec::new();
        let mut next: usize = 0;
        while next < self.titles.search_results.len()
            invariant
                next <= self.titles.search_results@.len(),
                places_fit(self.titles.search_results@, self.titles.items@.len() as int),
                ids@.len() == next,
                forall|i: int|
                    0 <= i < next ==> (#[trigger] ids@[i])@
                        == self@.titles.items[self@.titles.search_results[i] as int].id,
            decreases self.titles.search_results@.len() - next,
        {
            let place = self.titles.search_results[next];
            assert(place < self.titles.items@.len()) by {
                reveal(places_fit);
            }
            ids.push(self.titles.items[place].id.as_str());
            next += 1;
        }
        ids
    }

    /// Searches for titles that hold every word of a query.
    pub fn set_search_query(&mut self, query: String)
        requires
            old(self).wf(),
        ensures
            final(self)@ == old(self)@.bumped().searching(query@),
            final(self).wf(),
    {
        self.bump_revision();
        let ghost bumped = self@;
        assert(self.titles.items@.len() <= crate::state::most_items()) by {
            bumped.lemma_sizes();
        }
        self.titles.search_results = search_items(&self.titles.items, query.as_str());
        self.titles.search_query = query;
        self.nav.focus = 0;
        proof {
            bumped.lemma_searching_ok(query@);
        }
    }

    /// Whether a title is a favorite.
    #[must_use]
    pub fn is_favorite(&self, item_id: &str) -> (favorite: bool)
        ensures
            favorite == self@.favors(item_id@),
    {
        let mut next: usize = 0;
        while next < self.titles.items.len()
            invariant
                next <= self.titles.items@.len(),
                forall|i: int|
                    0 <= i < next ==> !((#[trigger] self@.titles.items[i]).id == item_id@
                        && self@.titles.items[i].favorite),
            decreases self.titles.items@.len() - next,
        {
            let item = &self.titles.items[next];
            if same_text(item.id.as_str(), item_id) && item.favorite {
                assert(self@.titles.items[next as int].id == item_id@);
                return true;
            }
            next += 1;
        }
        false
    }

    fn set_favorite(&mut self, item_id: &str, favorite: bool)
        requires
            old(self).wf(),
        ensures
            final(self)@ == old(self)@.favoring(item_id@, favorite),
            final(self).wf(),
    {
        if let Some(place) = self.find_item(item_id) {
            let ghost before = self@.titles.items;
            let ghost item = self.titles.items@[place as int];
            self.titles.items[place].favorite = favorite;
            proof {
                let after = self@.titles.items;
                assert(after =~= before.update(
                    place as int,
                    ItemModel { favorite, ..before[place as int] },
                ));
                old(self)@.lemma_with_items_ok(after);
            }
        }
    }

    /// Takes in that a title became a favorite or is none any more.
    pub fn favorite_committed(&mut self, item_id: &str, favorite: bool)
        requires
            old(self).wf(),
            old(self)@.countable(),
        ensures
            final(self)@ == old(self)@.bumped().favoring(
                item_id@,
                favorite,
            ).relisted().focus_kept_inside().saying(None),
            final(self)@.session.session_status is None,
            final(self)@.titles.search_results == old(self)@.titles.search_results,
            final(self)@.nav.route == old(self)@.nav.route,
            final(self)@.nav.focus <= old(self)@.nav.focus,
            final(self).wf(),
    {
        self.bump_revision();
        self.set_favorite(item_id, favorite);
        self.refresh_library_items();
        let count = self.focus_count();
        if self.nav.focus > count - 1 {
            self.set_focus(count - 1);
        }
        let ghost settled = self@;
        self.session.session_status = None;
        proof {
            settled.lemma_session_ok(self@.session);
        }
    }

    /// Takes in that a favorite could not be kept.
    pub fn favorite_failed(&mut self, status: String)
        requires
            old(self).wf(),
        ensures
            final(self)@ == old(self)@.bumped().saying(Some(status@)),
            final(self).wf(),
    {
        self.bump_revision();
        let ghost bumped = self@;
        self.session.session_status = Some(status);
        proof {
            bumped.lemma_session_ok(self@.session);
        }
    }

    /// Takes in that another variant of a title is pinned, or none.
    pub fn pinned_variant_committed(&mut self, item_id: &str, variant_id: Option<String>)
        requires
            old(self).wf(),
        ensures
            final(self)@ == old(self)@.bumped().pinning(item_id@, text_of(variant_id)).saying(None),
            final(self).wf(),
    {
        self.bump_revision();
        let ghost bumped = self@;
        let ghost wanted = text_of(variant_id);
        if let Some(place) = self.find_item(item_id) {
            let ghost before = self@.titles.items;
            self.titles.items[place].pinned_variant_id = variant_id;
            proof {
                let after = self@.titles.items;
                assert(after =~= before.update(
                    place as int,
                    ItemModel { pinned_variant_id: wanted, ..before[place as int] },
                ));
                bumped.lemma_with_items_ok(after);
            }
        }
        let ghost pinned = self@;
        self.session.session_status = None;
        proof {
            pinned.lemma_session_ok(self@.session);
        }
    }

    /// Takes in that a variant could not be pinned.
    pub fn pinned_variant_failed(&mut self, status: String)
        requires
            old(self).wf(),
        ensures
            final(self)@ == old(self)@.bumped().saying(Some(status@)),
            final(self).wf(),
    {
        self.bump_revision();
        let ghost bumped = self@;
        self.session.session_status = Some(status);
        proof {
            bumped.lemma_session_ok(self@.session);
        }
    }

    /// Takes in what was played.
    pub fn load_history(&mut self, entries: &[HistoryEntry])
        requires
            old(self).wf(),
        ensures
            final(self)@ == old(self)@.played(sessions(entries@)),
            final(self).wf(),
    {
        let playtime = derive_playtime(entries);
        let recent_use = find_recent_uses(&self.titles.items, entries);
        if self.titles.playtime.same(&playtime) && self.titles.recent_use.same(&recent_use) {
            return;
        }
        self.titles.playtime = playtime;
        self.titles.recent_use = recent_use;
        proof {
            old(self)@.lemma_played_ok(self@.titles);
        }
        self.refresh_library_items();
        self.bump_revision();
    }

    /// Takes in how many cards and chips stand beside each other on the surface
    /// that the library is shown on.
    pub fn set_library_grid(&mut self, grid: LibraryGrid)
        requires
            old(self).wf(),
            grid.wf(),
        ensures
            final(self)@ == old(self)@.on_grid(grid),
            final(self).wf(),
    {
        self.titles.library_grid = grid;
        proof {
            old(self)@.lemma_on_grid_ok(grid);
        }
    }
}

} // verus!
