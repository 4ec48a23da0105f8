//! What the lists of titles hold: the library under its filters, the shelf and
//! the results of a search.

use crate::catalog::{AppKind, AvailabilityModel, ItemModel};
use crate::library::{
    ahead, in_library_order, law_library_lists_just_its_titles, law_library_order_is_unique,
    law_search_finds_just_the_matches, lemma_places_below, library_order, lists, places_below,
    query_words, search_hits, shelf, used,
};
use crate::library_scene::games_among;
use crate::state::{most_items, places_differ, places_fit, LibraryFilter, ShellModel};
use crate::text::{
    closed_words, is_space, joined, lowercase_text, open_word, precedes, stands_at, with_word,
    words_in, Breaks, Text,
};
use crate::titles::{availability_of, first_ready, is_ready, lemma_first_ready};
use vstd::prelude::*;
use vstd::string::*;

verus! {

proof fn lemma_lists(
    items: Seq<ItemModel>,
    recent: Map<Text, int>,
    filter: LibraryFilter,
    place: usize,
)
    requires
        items.len() <= most_items(),
    ensures
        library_order(items, recent, filter).contains(place) == (place < items.len() && lists(
            filter,
            items[place as int].kind,
        )),
        library_order(items, recent, filter).no_duplicates(),
{
    let places = library_order(items, recent, filter);
    law_library_lists_just_its_titles(items, recent, filter);
    reveal(places_fit);
    reveal(places_differ);
    if places.contains(place) {
        let i = choose|i: int| 0 <= i < places.len() && places[i] == place;
        assert(lists(filter, items[places[i] as int].kind));
    }
}

proof fn lemma_in_catalog_order(
    items: Seq<ItemModel>,
    recent: Map<Text, int>,
    filter: LibraryFilter,
    keep: spec_fn(int) -> bool,
)
    requires
        items.len() <= most_items(),
        filter == LibraryFilter::Games || filter == LibraryFilter::EverythingElse,
        forall|i: int|
            0 <= i < items.len() ==> (#[trigger] keep(i)) == lists(filter, items[i].kind),
    ensures
        library_order(items, recent, filter) == places_below(items.len() as int, keep),
{
    let places = places_below(items.len() as int, keep);
    lemma_places_below(items.len() as int, keep);
    law_library_lists_just_its_titles(items, recent, filter);
    reveal(places_fit);
    assert forall|i: int| 0 <= i < places.len() implies lists(
        filter,
        items[(#[trigger] places[i]) as int].kind,
    ) by {
        assert(keep(places[i] as int));
    }
    assert forall|place: usize|
        place < items.len() && lists(filter, items[place as int].kind) implies
            #[trigger] places.contains(place) by {
        assert(keep(place as int));
    }
    assert(in_library_order(places, items, recent, filter));
    law_library_order_is_unique(
        places,
        library_order(items, recent, filter),
        items,
        recent,
        filter,
    );
}

proof fn lemma_kept_and_not(count: int, keep: spec_fn(int) -> bool, leave: spec_fn(int) -> bool)
    requires
        0 <= count,
        forall|i: int| 0 <= i < count ==> (#[trigger] keep(i)) == !leave(i),
    ensures
        places_below(count, keep).len() + places_below(count, leave).len() == count,
    decreases count,
{
    if count > 0 {
        lemma_kept_and_not(count - 1, keep, leave);
        assert(keep(count - 1) == !leave(count - 1));
    }
}

/// Every title is listed under just one of Games and Everything else: Games lists
/// the titles that are games and Everything else all others. Both list their
/// titles once, and together they list as many as there are.
pub proof fn law_games_and_the_rest_share_the_titles(
    items: Seq<ItemModel>,
    recent: Map<Text, int>,
    place: usize,
)
    requires
        items.len() <= most_items(),
    ensures
        ({
            let games = library_order(items, recent, LibraryFilter::Games);
            let rest = library_order(items, recent, LibraryFilter::EverythingElse);
            &&& games.contains(place) == (place < items.len() && items[place as int].kind
                == AppKind::Game)
            &&& rest.contains(place) == (place < items.len() && items[place as int].kind
                != AppKind::Game)
            &&& place < items.len() ==> games.contains(place) != rest.contains(place)
            &&& games.no_duplicates()
            &&& rest.no_duplicates()
            &&& games.len() + rest.len() == items.len()
        }),
{
    lemma_lists(items, recent, LibraryFilter::Games, place);
    lemma_lists(items, recent, LibraryFilter::EverythingElse, place);
    let is_game = |i: int| items[i].kind == AppKind::Game;
    let is_other = |i: int| items[i].kind != AppKind::Game;
    lemma_in_catalog_order(items, recent, LibraryFilter::Games, is_game);
    lemma_in_catalog_order(items, recent, LibraryFilter::EverythingElse, is_other);
    lemma_kept_and_not(items.len() as int, is_game, is_other);
}

/// Recent and A–Z list every title once.
pub proof fn law_orders_leave_no_title_out(
    items: Seq<ItemModel>,
    recent: Map<Text, int>,
    place: usize,
)
    requires
        items.len() <= most_items(),
        place < items.len(),
    ensures
        library_order(items, recent, LibraryFilter::Recent).contains(place),
        library_order(items, recent, LibraryFilter::Recent).no_duplicates(),
        library_order(items, recent, LibraryFilter::Alphabetical).contains(place),
        library_order(items, recent, LibraryFilter::Alphabetical).no_duplicates(),
{
    lemma_lists(items, recent, LibraryFilter::Recent, place);
    lemma_lists(items, recent, LibraryFilter::Alphabetical, place);
}

proof fn lemma_games_counted(items: Seq<ItemModel>, upto: int, is_game: spec_fn(int) -> bool)
    requires
        0 <= upto <= items.len(),
        forall|i: int|
            0 <= i < items.len() ==> (#[trigger] is_game(i)) == (items[i].kind == AppKind::Game),
    ensures
        places_below(upto, is_game).len() == games_among(items, upto),
    decreases upto,
{
    if upto > 0 {
        lemma_games_counted(items, upto - 1, is_game);
        assert(is_game(upto - 1) == (items[upto - 1].kind == AppKind::Game));
    }
}

/// The numbers on the chips are the lengths of the lists that the chips lead to.
pub proof fn law_chips_count_what_they_list(shell: ShellModel)
    requires
        shell.titles.items.len() <= most_items(),
    ensures
        shell.chip_count(2) == Some(
            shell.filtering(LibraryFilter::Games).titles.library_items.len(),
        ),
        shell.chip_count(3) == Some(
            shell.filtering(LibraryFilter::EverythingElse).titles.library_items.len(),
        ),
        shell.chip_count(0) is None,
        shell.chip_count(1) is None,
{
    let items = shell.titles.items;
    let recent = shell.titles.recent_use;
    let is_game = |i: int| items[i].kind == AppKind::Game;
    law_games_and_the_rest_share_the_titles(items, recent, 0);
    lemma_in_catalog_order(items, recent, LibraryFilter::Games, is_game);
    lemma_games_counted(items, items.len() as int, is_game);
}

/// Games and Everything else list their titles in the order of the catalog.
pub proof fn law_kinds_keep_the_order_of_the_catalog(
    items: Seq<ItemModel>,
    recent: Map<Text, int>,
    filter: LibraryFilter,
    i: int,
    j: int,
)
    requires
        items.len() <= most_items(),
        filter == LibraryFilter::Games || filter == LibraryFilter::EverythingElse,
        0 <= i < j < library_order(items, recent, filter).len(),
    ensures
        library_order(items, recent, filter)[i] < library_order(items, recent, filter)[j],
{
    let places = library_order(items, recent, filter);
    law_library_lists_just_its_titles(items, recent, filter);
    assert(ahead(items, recent, filter, places[i] as int, places[j] as int));
}

/// Recent lists what was used last first. Titles that were never used come after
/// all others, and titles that were used at one moment, or never, keep the order
/// of the catalog.
pub proof fn law_recent_lists_the_latest_first(
    items: Seq<ItemModel>,
    recent: Map<Text, int>,
    i: int,
    j: int,
)
    requires
        items.len() <= most_items(),
        0 <= i < j < library_order(items, recent, LibraryFilter::Recent).len(),
    ensures
        ({
            let places = library_order(items, recent, LibraryFilter::Recent);
            let first = items[places[i] as int].id;
            let second = items[places[j] as int].id;
            &&& recent.contains_key(second) ==> recent.contains_key(first) && recent[first]
                >= recent[second]
            &&& recent.contains_key(first) == recent.contains_key(second) && (
            recent.contains_key(first) ==> recent[first] == recent[second]) ==> places[i]
                < places[j]
        }),
{
    let places = library_order(items, recent, LibraryFilter::Recent);
    law_library_lists_just_its_titles(items, recent, LibraryFilter::Recent);
    assert(ahead(items, recent, LibraryFilter::Recent, places[i] as int, places[j] as int));
}

/// Whether one text stands before another in a dictionary: they agree up to a
/// place where the first one ends or has the lesser character.
pub open spec fn reads_before(left: Text, right: Text) -> bool {
    exists|agreed: int|
        #![trigger left.take(agreed)]
        {
            &&& 0 <= agreed <= left.len()
            &&& agreed < right.len()
            &&& left.take(agreed) == right.take(agreed)
            &&& (agreed == left.len() || left[agreed] < right[agreed])
        }
}

/// Texts are ordered as in a dictionary.
pub proof fn law_texts_are_ordered_as_in_a_dictionary(left: Text, right: Text)
    ensures
        precedes(left, right) == reads_before(left, right),
    decreases left.len(),
{
    if right.len() > 0 {
        if left.len() == 0 {
            assert(left.take(0) =~= right.take(0));
        } else if left[0] == right[0] {
            let (a, b) = (left.skip(1), right.skip(1));
            law_texts_are_ordered_as_in_a_dictionary(a, b);
            if reads_before(a, b) {
                let agreed = choose|agreed: int|
                    #![trigger a.take(agreed)]
                    {
                        &&& 0 <= agreed <= a.len()
                        &&& agreed < b.len()
                        &&& a.take(agreed) == b.take(agreed)
                        &&& (agreed == a.len() || a[agreed] < b[agreed])
                    };
                assert forall|k: int| 0 <= k < agreed + 1 implies left[k] == right[k] by {
                    if k > 0 {
                        assert(a.take(agreed)[k - 1] == b.take(agreed)[k - 1]);
                    }
                }
                assert(left.take(agreed + 1) =~= right.take(agreed + 1));
            }
            if reads_before(left, right) {
                let agreed = choose|agreed: int|
                    #![trigger left.take(agreed)]
                    {
                        &&& 0 <= agreed <= left.len()
                        &&& agreed < right.len()
                        &&& left.take(agreed) == right.take(agreed)
                        &&& (agreed == left.len() || left[agreed] < right[agreed])
                    };
                assert forall|k: int| 0 <= k < agreed - 1 implies a[k] == b[k] by {
                    assert(left.take(agreed)[k + 1] == right.take(agreed)[k + 1]);
                }
                assert(agreed > 0);
                assert(a.take(agreed - 1) =~= b.take(agreed - 1));
            }
        } else {
            assert(left.take(0) =~= right.take(0));
            if reads_before(left, right) {
                let agreed = choose|agreed: int|
                    #![trigger left.take(agreed)]
                    {
                        &&& 0 <= agreed <= left.len()
                        &&& agreed < right.len()
                        &&& left.take(agreed) == right.take(agreed)
                        &&& (agreed == left.len() || left[agreed] < right[agreed])
                    };
                if agreed > 0 {
                    assert(left.take(agreed)[0] == right.take(agreed)[0]);
                }
            }
        }
    }
}

/// A–Z lists the titles as a dictionary does, without regard to case. Titles that
/// are the same but for case stand in the order of their ids.
pub proof fn law_titles_stand_as_in_a_dictionary(
    items: Seq<ItemModel>,
    recent: Map<Text, int>,
    i: int,
    j: int,
)
    requires
        items.len() <= most_items(),
        0 <= i < j < library_order(items, recent, LibraryFilter::Alphabetical).len(),
    ensures
        ({
            let places = library_order(items, recent, LibraryFilter::Alphabetical);
            let first = items[places[i] as int];
            let second = items[places[j] as int];
            let (left, right) = (lowercase_text(first.title), lowercase_text(second.title));
            &&& left == right || reads_before(left, right)
            &&& left == right ==> first.id == second.id || reads_before(first.id, second.id)
            &&& left == right && first.id == second.id ==> places[i] < places[j]
        }),
{
    let places = library_order(items, recent, LibraryFilter::Alphabetical);
    law_library_lists_just_its_titles(items, recent, LibraryFilter::Alphabetical);
    let first = items[places[i] as int];
    let second = items[places[j] as int];
    assert(ahead(items, recent, LibraryFilter::Alphabetical, places[i] as int, places[j] as int));
    law_texts_are_ordered_as_in_a_dictionary(
        lowercase_text(first.title),
        lowercase_text(second.title),
    );
    law_texts_are_ordered_as_in_a_dictionary(first.id, second.id);
}

/// Whether a title has a variant that can be launched.
pub open spec fn can_start(item: ItemModel) -> bool {
    exists|i: int| 0 <= i < item.variants.len() && (#[trigger] item.variants[i]).availability is Ready
}

proof fn lemma_can_start(item: ItemModel)
    ensures
        is_ready(item) == can_start(item),
{
    lemma_first_ready(item.variants, 0);
    if let Some(place) = first_ready(item.variants, 0) {
        assert(item.variants[place].availability is Ready);
    }
}

/// A title is ready where one of its variants is. Where none is, it is as
/// available as its first variant, and one without variants is unsupported.
pub proof fn law_titles_are_as_available_as_their_variants(item: ItemModel)
    ensures
        availability_of(item) is Ready == can_start(item),
        !can_start(item) && item.variants.len() > 0 ==> availability_of(item)
            == item.variants[0].availability,
        item.variants.len() == 0 ==> availability_of(item)
            == (AvailabilityModel::UnsupportedCapability {
            capability: "catalog item has no variants"@,
        }),
{
    lemma_can_start(item);
    lemma_first_ready(item.variants, 0);
}

/// The shelf holds the first six titles that can start, in the order of the
/// catalog: one that can start is left out only where six others come before.
pub proof fn law_shelf_holds_what_can_start(items: Seq<ItemModel>, place: usize)
    requires
        items.len() <= most_items(),
    ensures
        shelf(items).len() <= 6,
        forall|i: int, j: int|
            0 <= i < j < shelf(items).len() ==> (#[trigger] shelf(items)[i]) < (#[trigger] shelf(
                items,
            )[j]),
        shelf(items).contains(place) ==> place < items.len() && can_start(items[place as int]),
        place < items.len() && can_start(items[place as int]) && !shelf(items).contains(place)
            ==> shelf(items).len() == 6 && shelf(items).last() < place,
{
    reveal(shelf);
    reveal(places_fit);
    let keep = |i: int| is_ready(items[i]);
    let ready = places_below(items.len() as int, keep);
    lemma_places_below(items.len() as int, keep);
    if place < items.len() {
        lemma_can_start(items[place as int]);
    }
    if shelf(items).contains(place) {
        let i = choose|i: int| 0 <= i < shelf(items).len() && shelf(items)[i] == place;
        assert(ready[i] == place);
        assert(keep(ready[i] as int));
    }
    if place < items.len() && can_start(items[place as int]) {
        assert(keep(place as int));
        assert(ready.contains(place));
        let i = choose|i: int| 0 <= i < ready.len() && ready[i] == place;
        if i < shelf(items).len() {
            assert(shelf(items)[i] == place);
        } else {
            assert(ready[5] < ready[i]);
        }
    }
}

proof fn lemma_words_join(left: Text, right: Text)
    ensures
        closed_words(left + seq![' '] + right, Breaks::Space) == words_in(left, Breaks::Space)
            + closed_words(right, Breaks::Space),
        open_word(left + seq![' '] + right, Breaks::Space) == open_word(right, Breaks::Space),
    decreases right.len(),
{
    let whole = left + seq![' '] + right;
    if right.len() == 0 {
        assert(whole.drop_last() =~= left);
        assert(whole.last() == ' ');
        assert(words_in(left, Breaks::Space) + closed_words(right, Breaks::Space) =~= words_in(
            left,
            Breaks::Space,
        ));
    } else {
        let shorter = right.drop_last();
        lemma_words_join(left, shorter);
        assert(whole.drop_last() =~= left + seq![' '] + shorter);
        assert(whole.last() == right.last());
        assert(with_word(
            words_in(left, Breaks::Space) + closed_words(shorter, Breaks::Space),
            open_word(shorter, Breaks::Space),
        ) =~= words_in(left, Breaks::Space) + with_word(
            closed_words(shorter, Breaks::Space),
            open_word(shorter, Breaks::Space),
        ));
    }
}

/// More words narrow a search: what two queries with a space between them find is
/// what both of them find.
pub proof fn law_more_words_narrow_a_search(
    items: Seq<ItemModel>,
    left: Text,
    right: Text,
    place: usize,
)
    requires
        items.len() <= most_items(),
        place < items.len(),
    ensures
        search_hits(items, left + seq![' '] + right).contains(place) == (search_hits(
            items,
            left,
        ).contains(place) && search_hits(items, right).contains(place)),
{
    let whole = left + seq![' '] + right;
    law_search_finds_just_the_matches(items, left, place);
    law_search_finds_just_the_matches(items, right, place);
    law_search_finds_just_the_matches(items, whole, place);
    lemma_words_join(left, right);
    let (one, two, both) = (query_words(left), query_words(right), query_words(whole));
    assert(words_in(whole, Breaks::Space) =~= words_in(left, Breaks::Space) + words_in(
        right,
        Breaks::Space,
    ));
    assert(both =~= one + two);
    let item = items[place as int];
    assert forall|i: int| 0 <= i < one.len() implies both[i] == #[trigger] one[i] by {}
    assert forall|i: int| 0 <= i < two.len() implies both[one.len() + i] == #[trigger] two[i] by {}
}

proof fn lemma_one_word(word: Text, upto: int)
    requires
        0 <= upto <= word.len(),
        forall|i: int| 0 <= i < word.len() ==> !is_space(#[trigger] word[i]),
    ensures
        closed_words(word.take(upto), Breaks::Space) == Seq::<Text>::empty(),
        open_word(word.take(upto), Breaks::Space) == word.take(upto),
    decreases upto,
{
    if upto > 0 {
        lemma_one_word(word, upto - 1);
        let start = word.take(upto);
        assert(start.drop_last() =~= word.take(upto - 1));
        assert(start.last() == word[upto - 1]);
        assert(word.take(upto - 1).push(word[upto - 1]) =~= start);
    }
}

/// One word finds the titles in whose title or tags it stands, without regard to
/// case.
pub proof fn law_a_word_finds_titles_and_tags(items: Seq<ItemModel>, word: Text, place: usize)
    requires
        items.len() <= most_items(),
        place < items.len(),
        word.len() > 0,
        forall|i: int| 0 <= i < word.len() ==> !is_space(#[trigger] word[i]),
    ensures
        search_hits(items, word).contains(place) == exists|from: int|
            #[trigger]
            stands_at(
                lowercase_text(
                    items[place as int].title + seq![' '] + joined(
                        items[place as int].tags,
                        seq![' '],
                    ),
                ),
                lowercase_text(word),
                from,
            ),
{
    law_search_finds_just_the_matches(items, word, place);
    lemma_one_word(word, word.len() as int);
    assert(word.take(word.len() as int) =~= word);
    reveal_strlit(" ");
    assert(" "@ =~= seq![' ']);
    let words = query_words(word);
    assert(words_in(word, Breaks::Space) =~= seq![word]);
    assert(words =~= seq![lowercase_text(word)]);
    assert(words[0] == lowercase_text(word));
}

/// The results of a search stand in the order of the catalog.
pub proof fn law_results_keep_the_order_of_the_catalog(
    items: Seq<ItemModel>,
    query: Text,
    i: int,
    j: int,
)
    requires
        items.len() <= most_items(),
        0 <= i < j < search_hits(items, query).len(),
    ensures
        search_hits(items, query)[i] < search_hits(items, query)[j],
{
    reveal(search_hits);
    lemma_places_below(
        items.len() as int,
        |i: int| crate::library::found(items[i], query_words(query)),
    );
}

} // verus!
