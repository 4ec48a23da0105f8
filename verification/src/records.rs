//! What a catalog and a history of sessions come to: how long and when titles
//! were played, and what the shell knows of each title.

use crate::boot::{booted, booted_items};
use crate::catalog::{pair_models, CatalogSnapshot, ItemModel, VariantModel};
use crate::clock::longest_span;
use crate::collection::{recent_uses, variants_used};
use crate::history::{EndPrecision, SessionModel};
use crate::playtime::{
    counts, ever_approximate, ever_counts, latest_use, playtimes, total_span, PlaytimeModel,
};
use crate::library::{library_order, search_hits};
use crate::ports::LaunchMotion;
use crate::state::{LibraryFilter, PowerDialog, Presentation, Route, SettingsRoom, ShellModel};
use crate::text::{stripped, Text};
use crate::textlist::texts;
use crate::titles::{listed, paired, tagged};
use vstd::prelude::*;
use vstd::string::*;

verus! {

/// The playtime after one session: the time from its start to its end, exact
/// where the end was observed. A clock that went back makes it no time at all.
pub proof fn law_a_session_lasts_from_start_to_end(session: SessionModel)
    requires
        session.started_at is Some,
        session.ended_at is Some,
    ensures
        ({
            let started = session.started_at->0;
            let ended = session.ended_at->0;
            let known = playtimes(seq![session]);
            &&& known.contains_key(session.item_id)
            &&& forall|other: Text| #[trigger] known.contains_key(other) ==> other == session.item_id
            &&& started <= ended.at <= started + longest_span()
                ==> known[session.item_id].duration == ended.at - started
            &&& ended.at < started ==> known[session.item_id].duration == 0
            &&& ended.at > started + longest_span() ==> known[session.item_id].duration
                == longest_span()
            &&& known[session.item_id].approximate == (ended.precision == EndPrecision::Approximate)
        }),
{
    let history = seq![session];
    let id = session.item_id;
    assert(counts(history[0], id));
    assert(history.drop_last() =~= Seq::empty());
    assert(history.last() == session);
    assert(total_span(history.drop_last(), id) == 0);
    if ever_approximate(history, id) {
        let i = choose|i: int|
            0 <= i < history.len() && counts(#[trigger] history[i], id)
                && history[i].ended_at->0.precision == EndPrecision::Approximate;
        assert(history[i] == session);
    }
    assert forall|other: Text| #[trigger] playtimes(history).contains_key(other) implies other
        == id by {
        let i = choose|i: int| 0 <= i < history.len() && counts(#[trigger] history[i], other);
        assert(history[i] == session);
    }
}

proof fn lemma_spans_add(first: Seq<SessionModel>, second: Seq<SessionModel>, item_id: Text)
    ensures
        total_span(first + second, item_id) == total_span(first, item_id) + total_span(
            second,
            item_id,
        ),
        ever_counts(first + second, item_id) == (ever_counts(first, item_id) || ever_counts(
            second,
            item_id,
        )),
        ever_approximate(first + second, item_id) == (ever_approximate(first, item_id)
            || ever_approximate(second, item_id)),
    decreases second.len(),
{
    let both = first + second;
    if second.len() == 0 {
        assert(both =~= first);
    } else {
        lemma_spans_add(first, second.drop_last(), item_id);
        assert(both.drop_last() =~= first + second.drop_last());
        assert(both.last() == second.last());
    }
    assert forall|i: int| 0 <= i < first.len() implies both[i] == #[trigger] first[i] by {}
    assert forall|i: int| 0 <= i < second.len() implies both[first.len() + i]
        == #[trigger] second[i] by {}
    if ever_counts(both, item_id) {
        let i = choose|i: int| 0 <= i < both.len() && counts(#[trigger] both[i], item_id);
        if i < first.len() {
            assert(counts(first[i], item_id));
        } else {
            assert(counts(second[i - first.len()], item_id));
        }
    }
    if ever_approximate(both, item_id) {
        let i = choose|i: int|
            0 <= i < both.len() && counts(#[trigger] both[i], item_id)
                && both[i].ended_at->0.precision == EndPrecision::Approximate;
        if i < first.len() {
            assert(counts(first[i], item_id));
        } else {
            assert(counts(second[i - first.len()], item_id));
        }
    }
}

proof fn lemma_unplayed(history: Seq<SessionModel>, item_id: Text)
    requires
        !ever_counts(history, item_id),
    ensures
        total_span(history, item_id) == 0,
        !ever_approximate(history, item_id),
    decreases history.len(),
{
    if history.len() > 0 {
        let shorter = history.drop_last();
        assert(!counts(history[history.len() - 1], item_id));
        assert(!ever_counts(shorter, item_id)) by {
            if ever_counts(shorter, item_id) {
                let i = choose|i: int|
                    0 <= i < shorter.len() && counts(#[trigger] shorter[i], item_id);
                assert(counts(history[i], item_id));
            }
        }
        lemma_unplayed(shorter, item_id);
    }
}

/// The playtime that a history tells of, and none where it does not tell of any.
pub open spec fn told_playtime(history: Seq<SessionModel>, item_id: Text) -> PlaytimeModel {
    if playtimes(history).contains_key(item_id) {
        playtimes(history)[item_id]
    } else {
        PlaytimeModel { duration: 0, approximate: false }
    }
}

/// The playtimes of two histories, one after the other, add up title by title, as
/// far as a span of time can be counted. A sum is rough where one of its parts is.
pub proof fn law_playtimes_add_up(
    first: Seq<SessionModel>,
    second: Seq<SessionModel>,
    item_id: Text,
)
    ensures
        ({
            let one = told_playtime(first, item_id);
            let two = told_playtime(second, item_id);
            let both = told_playtime(first + second, item_id);
            &&& playtimes(first + second).contains_key(item_id) == (playtimes(first).contains_key(
                item_id,
            ) || playtimes(second).contains_key(item_id))
            &&& one.duration + two.duration <= longest_span() ==> both.duration == one.duration
                + two.duration
            &&& one.duration + two.duration > longest_span() ==> both.duration == longest_span()
            &&& both.approximate == (one.approximate || two.approximate)
        }),
{
    lemma_spans_add(first, second, item_id);
    if !ever_counts(first, item_id) {
        lemma_unplayed(first, item_id);
    }
    if !ever_counts(second, item_id) {
        lemma_unplayed(second, item_id);
    }
}

/// Whether a session tells of a use at a moment: its end, or its start where it
/// has no end.
pub open spec fn used_at(session: SessionModel, app_id: Text, moment: int) -> bool {
    session.item_id == app_id && match (session.started_at, session.ended_at) {
        (_, Some(end)) => end.at == moment,
        (Some(start), None) => start == moment,
        (None, None) => false,
    }
}

/// The latest use is one that a session tells of, and no session tells of a later
/// one. There is none where no session tells of any.
pub proof fn law_latest_use_is_the_latest(history: Seq<SessionModel>, app_id: Text)
    ensures
        latest_use(history, app_id) matches Some(latest) ==> {
            &&& exists|i: int|
                0 <= i < history.len() && used_at(#[trigger] history[i], app_id, latest)
            &&& forall|i: int, moment: int|
                0 <= i < history.len() && #[trigger] used_at(history[i], app_id, moment)
                    ==> moment <= latest
        },
        latest_use(history, app_id) is None ==> forall|i: int, moment: int|
            0 <= i < history.len() ==> !#[trigger] used_at(history[i], app_id, moment),
    decreases history.len(),
{
    if history.len() > 0 {
        let shorter = history.drop_last();
        let last = history[history.len() - 1];
        law_latest_use_is_the_latest(shorter, app_id);
        if let Some(latest) = latest_use(history, app_id) {
            if latest_use(shorter, app_id) == Some(latest) {
                let i = choose|i: int|
                    0 <= i < shorter.len() && used_at(#[trigger] shorter[i], app_id, latest);
                assert(used_at(history[i], app_id, latest));
            } else {
                assert(used_at(last, app_id, latest));
            }
            assert forall|i: int, moment: int|
                0 <= i < history.len() && #[trigger] used_at(history[i], app_id, moment) implies
                moment <= latest by {
                if i < shorter.len() {
                    assert(used_at(shorter[i], app_id, moment));
                }
            }
        } else {
            assert forall|i: int, moment: int| 0 <= i < history.len() implies !#[trigger] used_at(
                history[i],
                app_id,
                moment,
            ) by {
                if i < shorter.len() {
                    assert(!used_at(shorter[i], app_id, moment));
                }
            }
        }
    }
}

proof fn lemma_variants_used(variants: Seq<VariantModel>, history: Seq<SessionModel>)
    ensures
        variants_used(variants, history) matches Some(latest) ==> {
            &&& exists|i: int|
                0 <= i < variants.len() && latest_use(history, (#[trigger] variants[i]).app_id)
                    == Some(latest)
            &&& forall|i: int|
                0 <= i < variants.len() ==> (latest_use(history, (#[trigger] variants[i]).app_id) matches Some(moment)
                    ==> moment <= latest)
        },
        variants_used(variants, history) is None ==> forall|i: int|
            0 <= i < variants.len() ==> latest_use(history, (#[trigger] variants[i]).app_id) is None,
    decreases variants.len(),
{
    if variants.len() > 0 {
        let shorter = variants.drop_last();
        lemma_variants_used(shorter, history);
        let last = variants[variants.len() - 1];
        if let Some(latest) = variants_used(variants, history) {
            if variants_used(shorter, history) == Some(latest) {
                let i = choose|i: int|
                    0 <= i < shorter.len() && latest_use(history, (#[trigger] shorter[i]).app_id)
                        == Some(latest);
                assert(latest_use(history, variants[i].app_id) == Some(latest));
            } else {
                assert(latest_use(history, last.app_id) == Some(latest));
            }
            assert forall|i: int| 0 <= i < variants.len() implies (latest_use(
                history,
                (#[trigger] variants[i]).app_id,
            ) matches Some(moment) ==> moment <= latest) by {
                if i < shorter.len() {
                    assert(shorter[i] == variants[i]);
                }
            }
        } else {
            assert forall|i: int| 0 <= i < variants.len() implies latest_use(
                history,
                (#[trigger] variants[i]).app_id,
            ) is None by {
                if i < shorter.len() {
                    assert(shorter[i] == variants[i]);
                }
            }
        }
    }
}

/// A title was last used when any of its variants was: the latest of their uses.
/// It was never used where none of them was.
pub proof fn law_a_title_is_used_through_its_variants(
    items: Seq<ItemModel>,
    history: Seq<SessionModel>,
    place: int,
)
    requires
        0 <= place < items.len(),
        forall|i: int|
            0 <= i < items.len() && i != place ==> (#[trigger] items[i]).id != items[place].id,
    ensures
        ({
            let item = items[place];
            let uses = recent_uses(items, history);
            &&& uses.contains_key(item.id) == exists|i: int|
                0 <= i < item.variants.len() && latest_use(
                    history,
                    (#[trigger] item.variants[i]).app_id,
                ) is Some
            &&& uses.contains_key(item.id) ==> {
                &&& exists|i: int|
                    0 <= i < item.variants.len() && latest_use(
                        history,
                        (#[trigger] item.variants[i]).app_id,
                    ) == Some(uses[item.id])
                &&& forall|i: int|
                    0 <= i < item.variants.len() ==> (latest_use(
                        history,
                        (#[trigger] item.variants[i]).app_id,
                    ) matches Some(moment) ==> moment <= uses[item.id])
            }
        }),
{
    let item = items[place];
    lemma_variants_used(item.variants, history);
    lemma_recent_use(items, history, place);
}

proof fn lemma_recent_use(items: Seq<ItemModel>, history: Seq<SessionModel>, place: int)
    requires
        0 <= place < items.len(),
        forall|i: int|
            0 <= i < items.len() && i != place ==> (#[trigger] items[i]).id != items[place].id,
    ensures
        recent_uses(items, history).contains_key(items[place].id) == (variants_used(
            items[place].variants,
            history,
        ) is Some),
        variants_used(items[place].variants, history) matches Some(latest) ==> recent_uses(
            items,
            history,
        )[items[place].id] == latest,
    decreases items.len(),
{
    let shorter = items.drop_last();
    if place == items.len() - 1 {
        lemma_unknown(shorter, history, items[place].id);
    } else {
        assert forall|i: int| 0 <= i < shorter.len() && i != place implies (#[trigger] shorter[i]).id
            != shorter[place].id by {
            assert(shorter[i] == items[i]);
        }
        lemma_recent_use(shorter, history, place);
        assert(items[items.len() - 1].id != items[place].id);
    }
}

proof fn lemma_unknown(items: Seq<ItemModel>, history: Seq<SessionModel>, id: Text)
    requires
        forall|i: int| 0 <= i < items.len() ==> (#[trigger] items[i]).id != id,
    ensures
        !recent_uses(items, history).contains_key(id),
    decreases items.len(),
{
    if items.len() > 0 {
        let shorter = items.drop_last();
        assert forall|i: int| 0 <= i < shorter.len() implies (#[trigger] shorter[i]).id != id by {
            assert(shorter[i] == items[i]);
        }
        lemma_unknown(shorter, history, id);
        assert(items[items.len() - 1].id != id);
    }
}

/// A fact of a title is what follows the fact's name in the first tag that begins
/// with it.
pub proof fn law_tags_tell_facts(tags: Seq<Text>, name: Text, place: int, fact: Text)
    requires
        0 <= place < tags.len(),
        tags[place] == name + fact,
        forall|i: int| 0 <= i < place ==> stripped(#[trigger] tags[i], name) is None,
    ensures
        tagged(tags, name) == Some(fact),
    decreases tags.len(),
{
    if place == 0 {
        assert(tags[0].take(name.len() as int) =~= name);
        assert(tags[0].skip(name.len() as int) =~= fact);
    } else {
        assert(stripped(tags[0], name) is None);
        let rest = tags.skip(1);
        assert forall|i: int| 0 <= i < place - 1 implies stripped(#[trigger] rest[i], name) is None by {
            assert(rest[i] == tags[i + 1]);
        }
        law_tags_tell_facts(rest, name, place - 1, fact);
    }
}

/// The shell knows each title of a catalog as the catalog has it: what it is
/// called, of what kind it is, its tags and its variants. Its facts come from its
/// tags, and it is a favorite where the user made it one.
pub proof fn law_titles_are_as_the_catalog_has_them(
    snapshot: CatalogSnapshot,
    art: Seq<Option<Vec<u8>>>,
    place: int,
)
    requires
        0 <= place < snapshot.items@.len(),
    ensures
        booted_items(snapshot, art).len() == snapshot.items@.len(),
        ({
            let given = snapshot.items@[place]@;
            let item = booted_items(snapshot, art)[place];
            let pairs = pair_models(snapshot.user_projection.pinned_variant_ids@);
            &&& item.id == given.id
            &&& item.title == given.title
            &&& item.kind == given.kind
            &&& item.tags == given.tags
            &&& item.variants == given.variants
            &&& item.developer == tagged(given.tags, "developer:"@)
            &&& item.description == tagged(given.tags, "description:"@)
            &&& item.playtime_fact == tagged(given.tags, "playtime:"@)
            &&& item.last_played_fact == tagged(given.tags, "last-played:"@)
            &&& item.size_fact == tagged(given.tags, "size:"@)
            &&& item.favorite == texts(snapshot.user_projection.favorite_item_ids@).contains(
                given.id,
            )
            &&& !item.art_failed
            &&& (item.art is Some == (given.icon_decodable && given.icon_reference is Some && place
                < art.len() && art[place] is Some))
            &&& (item.art matches Some(image) ==> image.bytes == art[place]->0@)
            &&& (item.pinned_variant_id is Some) == exists|i: int|
                0 <= i < pairs.len() && (#[trigger] pairs[i]).0 == given.id
        }),
{
    reveal(booted_items);
    let given = snapshot.items@[place]@;
    let pairs = pair_models(snapshot.user_projection.pinned_variant_ids@);
    lemma_paired(pairs, given.id);
    let favorites = texts(snapshot.user_projection.favorite_item_ids@);
    if listed(favorites, given.id) {
        let i = choose|i: int| 0 <= i < favorites.len() && #[trigger] favorites[i] == given.id;
        assert(favorites.contains(given.id));
    }
    if favorites.contains(given.id) {
        let i = choose|i: int| 0 <= i < favorites.len() && favorites[i] == given.id;
        assert(favorites[i] == given.id);
    }
}

proof fn lemma_paired(pairs: Seq<(Text, Text)>, key: Text)
    ensures
        paired(pairs, key) is Some == exists|i: int| 0 <= i < pairs.len() && (#[trigger] pairs[i]).0 == key,
    decreases pairs.len(),
{
    if pairs.len() > 0 {
        let rest = pairs.skip(1);
        lemma_paired(rest, key);
        if exists|i: int| 0 <= i < rest.len() && (#[trigger] rest[i]).0 == key {
            let i = choose|i: int| 0 <= i < rest.len() && (#[trigger] rest[i]).0 == key;
            assert(pairs[i + 1].0 == key);
        }
        if exists|i: int| 0 <= i < pairs.len() && (#[trigger] pairs[i]).0 == key {
            let i = choose|i: int| 0 <= i < pairs.len() && (#[trigger] pairs[i]).0 == key;
            if i > 0 {
                assert(rest[i - 1].0 == key);
            }
        }
    }
}

/// The shell starts at home, on its first place, with every title listed in the
/// catalog's order and nothing asked, waiting for the session service.
pub proof fn law_the_shell_starts_at_home(
    items: Seq<ItemModel>,
    motion: LaunchMotion,
    reduced: bool,
    place: int,
)
    requires
        0 <= place < items.len() <= usize::MAX,
    ensures
        ({
            let shell = booted(items, motion, reduced);
            &&& shell.revision == 0
            &&& shell.nav.route == Route::Home
            &&& shell.nav.focus == 0
            &&& shell.nav.selected_item is None
            &&& shell.session.presentation == Presentation::Booting
            &&& !shell.session.pending_ack
            &&& shell.power.power_dialog == PowerDialog::Closed
            &&& shell.titles.items == items
            &&& shell.titles.library_filter == LibraryFilter::Recent
            &&& shell.titles.library_items.len() == items.len()
            &&& shell.titles.library_items[place] == place
            &&& shell.titles.search_query.len() == 0
            &&& shell.titles.search_results.len() == items.len()
            &&& shell.titles.search_results[place] == place
            &&& shell.titles.playtime.dom().len() == 0
            &&& !shell.power.idle_policy_loaded
            &&& shell.power.battery_percent is None
            &&& shell.power.power_capabilities.len() == 0
            &&& shell.settings.settings_room == SettingsRoom::Accessibility
            &&& !shell.settings.settings_in_rows
            &&& shell.settings.safe_return_binding == "PF · the button below the d-pad"@
            &&& shell.settings.control_bindings.len() == 0
            &&& shell.network.network_state is Err
            &&& shell.network.wifi_networks.len() == 0
            &&& shell.network.wifi_credential.len() == 0
            &&& shell.system.time_state is Err
            &&& shell.system.transfer_services is Err
            &&& shell.comfort.first_run_complete
            &&& shell.comfort.display_preferences.len() == 0
            &&& shell.comfort.text_scale == 100
            &&& !shell.comfort.high_contrast
            &&& !shell.comfort.appearance_day
            &&& shell.comfort.reduced_motion == reduced
            &&& shell.comfort.motion_ms == (if reduced {
                motion.reduced_ms
            } else {
                motion.normal_ms
            })
        }),
{
    reveal(crate::boot::counting);
}

/// Rejecting pictures takes them from the titles that show them, and only from
/// those; nothing else of any title changes.
pub proof fn law_only_rejected_pictures_are_lost(
    shell: ShellModel,
    rejected: Seq<Text>,
    place: int,
)
    requires
        0 <= place < shell.titles.items.len(),
    ensures
        ({
            let before = shell.titles.items[place];
            let after = shell.rejecting(rejected).titles.items[place];
            let lost = before.art matches Some(image) && rejected.contains(image.id);
            &&& shell.rejecting(rejected).titles.items.len() == shell.titles.items.len()
            &&& after.art_failed == (before.art_failed || lost)
            &&& after == (ItemModel { art_failed: after.art_failed, ..before })
        }),
{
    reveal(crate::boot::without_all_rejected);
    let before = shell.titles.items[place];
    if let Some(image) = before.art {
        if rejected.contains(image.id) {
            let i = choose|i: int| 0 <= i < rejected.len() && rejected[i] == image.id;
            assert(rejected[i] == image.id);
            assert(listed(rejected, image.id));
        }
        if listed(rejected, image.id) {
            let i = choose|i: int|
                0 <= i < rejected.len() && #[trigger] rejected[i] == image.id;
            assert(rejected.contains(image.id));
        }
    }
    if crate::boot::shows_rejected(before, rejected) {
        assert(crate::boot::any_rejected(shell.titles.items, rejected));
    }
}

/// A history that was loaded is known: how long each title was played and when it
/// was last used, and the library is listed by it.
pub proof fn law_a_loaded_history_is_known(shell: ShellModel, history: Seq<SessionModel>)
    ensures
        ({
            let after = shell.played(history);
            let known = playtimes(history);
            let uses = recent_uses(shell.titles.items, history);
            &&& after.titles.playtime == known
            &&& after.titles.recent_use == uses
            &&& after.titles.items == shell.titles.items
            &&& after.nav == shell.nav
            &&& (shell.titles.playtime != known || shell.titles.recent_use != uses)
                ==> after.titles.library_items == library_order(
                shell.titles.items,
                uses,
                shell.titles.library_filter,
            )
        }),
{
}

/// A search that was set is known, its results are those of the query, and the
/// focus stands on the first of them.
pub proof fn law_a_search_starts_at_its_first_result(shell: ShellModel, query: Text)
    ensures
        ({
            let after = shell.searching(query);
            &&& after.titles.search_query == query
            &&& after.titles.search_results == search_hits(shell.titles.items, query)
            &&& after.nav.focus == 0
            &&& after.nav.route == shell.nav.route
            &&& after.titles.library_items == shell.titles.library_items
            &&& after.titles.items == shell.titles.items
        }),
{
}

} // verus!
