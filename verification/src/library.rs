//! Which titles stand where: the shelf, the library and the search.

use crate::catalog::{AppKind, Item, ItemModel};
use crate::titles::is_ready;
use crate::state::{
    most_items, places_differ, places_fit, LibraryFilter, LibraryGrid, ShellCore, ShellModel, TitlesModel,
};
use crate::text::{
    cat3, contains_text, holds, join, joined, law_text_order_is_total,
    law_text_order_is_transitive, lowercase, lowercase_text, precedes, same_text, split_words,
    text_precedes, words_in, Breaks, Text,
};
use crate::textlist::texts;
use crate::textmap::TextMap;
use crate::clock::SystemTime;
use vstd::prelude::*;

verus! {

broadcast use {crate::textlist::group_texts, crate::catalog::group_catalog_models};

/// The numbers below `count` that are to be kept, in order.
pub open spec fn places_below(count: int, keep: spec_fn(int) -> bool) -> Seq<usize>
    decreases count,
{
    if count <= 0 {
        Seq::empty()
    } else if keep(count - 1) {
        places_below(count - 1, keep).push((count - 1) as usize)
    } else {
        places_below(count - 1, keep)
    }
}

pub proof fn lemma_places_below(count: int, keep: spec_fn(int) -> bool)
    requires
        0 <= count <= usize::MAX,
    ensures
        places_below(count, keep).len() <= count,
        places_fit(places_below(count, keep), count),
        forall|i: int|
            0 <= i < places_below(count, keep).len() ==> keep(
                (#[trigger] places_below(count, keep)[i]) as int,
            ),
        forall|i: int, j: int|
            0 <= i < j < places_below(count, keep).len() ==> (#[trigger] places_below(
                count,
                keep,
            )[i]) < (#[trigger] places_below(count, keep)[j]),
        forall|place: usize|
            place < count && keep(place as int) ==> #[trigger] places_below(
                count,
                keep,
            ).contains(place),
    decreases count,
{
    reveal(places_fit);
    if count > 0 {
        lemma_places_below(count - 1, keep);
        let shorter = places_below(count - 1, keep);
        let places = places_below(count, keep);
        assert forall|place: usize| place < count && keep(place as int) implies
            #[trigger] places.contains(place) by {
            if place == count - 1 {
                assert(places[places.len() - 1] == place);
            } else {
                assert(shorter.contains(place));
                let i = choose|i: int| 0 <= i < shorter.len() && shorter[i] == place;
                assert(places[i] == place);
            }
        }
    }
}

/// How many titles the shelf of the home screen holds.
pub const HOME_SHELF_LIMIT: usize = 6;

/// The first titles that can be launched: those that stand on the shelf.
#[verifier::opaque]
pub open spec fn shelf(items: Seq<ItemModel>) -> Seq<usize> {
    let ready = places_below(items.len() as int, |i: int| is_ready(items[i]));
    if ready.len() <= HOME_SHELF_LIMIT {
        ready
    } else {
        ready.take(HOME_SHELF_LIMIT as int)
    }
}

/// All the titles that can be launched.
#[verifier::opaque]
pub open spec fn ready_items(items: Seq<ItemModel>) -> Seq<usize> {
    places_below(items.len() as int, |i: int| is_ready(items[i]))
}

pub proof fn lemma_shelf(items: Seq<ItemModel>)
    requires
        items.len() <= most_items(),
    ensures
        shelf(items).len() <= HOME_SHELF_LIMIT,
        places_fit(shelf(items), items.len() as int),
        forall|i: int| 0 <= i < shelf(items).len() ==> is_ready(items[#[trigger] shelf(items)[i] as int]),
        shelf(items).len() <= ready_items(items).len(),
        forall|i: int| 0 <= i < shelf(items).len() ==> shelf(items)[i] == ready_items(items)[i],
        shelf(items).no_duplicates(),
{
    reveal(shelf);
    reveal(ready_items);
    reveal(places_fit);
    lemma_places_below(items.len() as int, |i: int| is_ready(items[i]));
}

/// The titles of the shelf.
pub fn find_shelf(items: &Vec<Item>) -> (places: Vec<usize>)
    requires
        items@.len() <= most_items(),
    ensures
        places@ == shelf(crate::catalog::item_models(items@)),
        places@.len() <= HOME_SHELF_LIMIT,
        places_fit(places@, items@.len() as int),
{
    proof {
        reveal(shelf);
    }
    let ghost models = crate::catalog::item_models(items@);
    let ghost keep = |i: int| is_ready(models[i]);
    let mut places: Vec<usize> = Vec::new();
    let mut next: usize = 0;
    while next < items.len()
        invariant
            next <= items@.len() <= most_items(),
            models == crate::catalog::item_models(items@),
            keep == |i: int| is_ready(models[i]),
            ({
                let ready = places_below(next as int, keep);
                places@ == if ready.len() <= HOME_SHELF_LIMIT {
                    ready
                } else {
                    ready.take(HOME_SHELF_LIMIT as int)
                }
            }),
        decreases items@.len() - next,
    {
        let ghost before = places_below(next as int, keep);
        if items[next].ready() {
            proof {
                assert(places_below(next + 1, keep) == before.push(next));
            }
            if places.len() < HOME_SHELF_LIMIT {
                places.push(next);
                proof {
                    assert(places@ =~= before.push(next));
                }
            } else {
                proof {
                    assert(before.push(next).take(HOME_SHELF_LIMIT as int) =~= places@);
                }
            }
        } else {
            proof {
                assert(places_below(next + 1, keep) == before);
            }
        }
        next += 1;
    }
    proof {
        lemma_shelf(models);
    }
    places
}

/// Whether a filter lists titles of a kind.
pub open spec fn lists(filter: LibraryFilter, kind: AppKind) -> bool {
    match filter {
        LibraryFilter::Recent | LibraryFilter::Alphabetical => true,
        LibraryFilter::Games => kind == AppKind::Game,
        LibraryFilter::EverythingElse => kind != AppKind::Game,
    }
}

/// When a title was last used.
pub open spec fn used(items: Seq<ItemModel>, recent: Map<Text, int>, place: int) -> Option<int> {
    if recent.contains_key(items[place].id) {
        Some(recent[items[place].id])
    } else {
        None
    }
}

/// Whether one use is more recent than another; any use is more recent than none.
pub open spec fn newer(left: Option<int>, right: Option<int>) -> bool {
    match (left, right) {
        (Some(left), Some(right)) => left > right,
        (Some(_), None) => true,
        (None, _) => false,
    }
}

/// Whether one title stands ahead of another in the library: the more recently
/// used, the one whose title and then whose id comes first, or the one that the
/// catalog lists first. The catalog's order decides between equals.
pub open spec fn ahead(
    items: Seq<ItemModel>,
    recent: Map<Text, int>,
    filter: LibraryFilter,
    left: int,
    right: int,
) -> bool {
    match filter {
        LibraryFilter::Recent => {
            let first = used(items, recent, left);
            let second = used(items, recent, right);
            newer(first, second) || (first == second && left < right)
        },
        LibraryFilter::Alphabetical => {
            let first = lowercase_text(items[left].title);
            let second = lowercase_text(items[right].title);
            precedes(first, second) || (first == second && (precedes(
                items[left].id,
                items[right].id,
            ) || (items[left].id == items[right].id && left < right)))
        },
        _ => left < right,
    }
}

/// Whether a list holds just the titles that a filter lists, in their order.
pub open spec fn in_library_order(
    places: Seq<usize>,
    items: Seq<ItemModel>,
    recent: Map<Text, int>,
    filter: LibraryFilter,
) -> bool {
    &&& places_fit(places, items.len() as int)
    &&& forall|i: int|
        0 <= i < places.len() ==> lists(filter, items[(#[trigger] places[i]) as int].kind)
    &&& forall|place: usize|
        place < items.len() && lists(filter, items[place as int].kind)
            ==> #[trigger] places.contains(place)
    &&& forall|i: int, j: int|
        0 <= i < j < places.len() ==> ahead(
            items,
            recent,
            filter,
            (#[trigger] places[i]) as int,
            (#[trigger] places[j]) as int,
        )
}

/// The titles that a filter lists, in their order.
#[verifier::opaque]
pub open spec fn library_order(
    items: Seq<ItemModel>,
    recent: Map<Text, int>,
    filter: LibraryFilter,
) -> Seq<usize> {
    choose|places: Seq<usize>| in_library_order(places, items, recent, filter)
}

/// Of two different titles exactly one stands ahead of the other, and none
/// stands ahead of itself.
pub proof fn law_library_order_is_total(
    items: Seq<ItemModel>,
    recent: Map<Text, int>,
    filter: LibraryFilter,
    left: int,
    right: int,
)
    ensures
        left == right ==> !ahead(items, recent, filter, left, right),
        left != right ==> ahead(items, recent, filter, left, right) != ahead(
            items,
            recent,
            filter,
            right,
            left,
        ),
{
    law_text_order_is_total(
        lowercase_text(items[left].title),
        lowercase_text(items[right].title),
    );
    law_text_order_is_total(items[left].id, items[right].id);
    law_text_order_is_total(
        lowercase_text(items[right].title),
        lowercase_text(items[left].title),
    );
    law_text_order_is_total(items[right].id, items[left].id);
}

/// The order of the library carries over from neighbour to neighbour.
pub proof fn law_library_order_is_transitive(
    items: Seq<ItemModel>,
    recent: Map<Text, int>,
    filter: LibraryFilter,
    first: int,
    second: int,
    third: int,
)
    requires
        ahead(items, recent, filter, first, second),
        ahead(items, recent, filter, second, third),
    ensures
        ahead(items, recent, filter, first, third),
{
    if filter == LibraryFilter::Alphabetical {
        let a = lowercase_text(items[first].title);
        let b = lowercase_text(items[second].title);
        let c = lowercase_text(items[third].title);
        if precedes(a, b) && precedes(b, c) {
            law_text_order_is_transitive(a, b, c);
        }
        if precedes(items[first].id, items[second].id) && precedes(
            items[second].id,
            items[third].id,
        ) {
            law_text_order_is_transitive(items[first].id, items[second].id, items[third].id);
        }
    }
}

proof fn lemma_same_head(
    left: Seq<usize>,
    right: Seq<usize>,
    items: Seq<ItemModel>,
    recent: Map<Text, int>,
    filter: LibraryFilter,
)
    requires
        sorted(left, items, recent, filter),
        sorted(right, items, recent, filter),
        forall|place: usize| left.contains(place) == right.contains(place),
    ensures
        left == right,
    decreases left.len(),
{
    reveal(places_fit);
    if left.len() == 0 {
        if right.len() > 0 {
            assert(right.contains(right[0]));
            assert(left.contains(right[0]));
        }
        assert(left =~= right);
    } else {
        assert(left.contains(left[0]));
        assert(right.contains(left[0]));
        assert(right.contains(right[0]));
        assert(left.contains(right[0]));
        let m = choose|m: int| 0 <= m < right.len() && right[m] == left[0];
        let k = choose|k: int| 0 <= k < left.len() && left[k] == right[0];
        if m > 0 {
            assert(ahead(items, recent, filter, right[0] as int, right[m] as int));
            if k > 0 {
                assert(ahead(items, recent, filter, left[0] as int, left[k] as int));
            }
            law_library_order_is_total(items, recent, filter, left[0] as int, right[0] as int);
        }
        assert(left[0] == right[0]);
        let left_rest = left.skip(1);
        let right_rest = right.skip(1);
        assert forall|place: usize| left_rest.contains(place) == right_rest.contains(place) by {
            lemma_rest(left, items, recent, filter, place);
            lemma_rest(right, items, recent, filter, place);
        }
        assert(sorted(left_rest, items, recent, filter));
        assert(sorted(right_rest, items, recent, filter));
        lemma_same_head(left_rest, right_rest, items, recent, filter);
        assert(left =~= seq![left[0]] + left_rest);
        assert(right =~= seq![right[0]] + right_rest);
    }
}

spec fn sorted(
    places: Seq<usize>,
    items: Seq<ItemModel>,
    recent: Map<Text, int>,
    filter: LibraryFilter,
) -> bool {
    forall|i: int, j: int|
        0 <= i < j < places.len() ==> ahead(
            items,
            recent,
            filter,
            (#[trigger] places[i]) as int,
            (#[trigger] places[j]) as int,
        )
}

proof fn lemma_rest(
    places: Seq<usize>,
    items: Seq<ItemModel>,
    recent: Map<Text, int>,
    filter: LibraryFilter,
    place: usize,
)
    requires
        places.len() > 0,
        sorted(places, items, recent, filter),
    ensures
        places.skip(1).contains(place) == (places.contains(place) && place != places[0]),
{
    let rest = places.skip(1);
    if rest.contains(place) {
        let i = choose|i: int| 0 <= i < rest.len() && rest[i] == place;
        assert(places[i + 1] == place);
        assert(ahead(items, recent, filter, places[0] as int, places[i + 1] as int));
        law_library_order_is_total(items, recent, filter, places[0] as int, place as int);
    }
    if places.contains(place) && place != places[0] {
        let i = choose|i: int| 0 <= i < places.len() && places[i] == place;
        assert(rest[i - 1] == place);
    }
}

/// Only one list holds just the titles that a filter lists, in their order.
pub proof fn law_library_order_is_unique(
    left: Seq<usize>,
    right: Seq<usize>,
    items: Seq<ItemModel>,
    recent: Map<Text, int>,
    filter: LibraryFilter,
)
    requires
        in_library_order(left, items, recent, filter),
        in_library_order(right, items, recent, filter),
    ensures
        left == right,
{
    reveal(places_fit);
    assert forall|place: usize| left.contains(place) == right.contains(place) by {
        if left.contains(place) {
            let i = choose|i: int| 0 <= i < left.len() && left[i] == place;
            assert(lists(filter, items[left[i] as int].kind));
        }
        if right.contains(place) {
            let i = choose|i: int| 0 <= i < right.len() && right[i] == place;
            assert(lists(filter, items[right[i] as int].kind));
        }
    }
    assert(sorted(left, items, recent, filter));
    assert(sorted(right, items, recent, filter));
    lemma_same_head(left, right, items, recent, filter);
}

/// A use that may be missing.
spec fn use_model(time: Option<SystemTime>) -> Option<int> {
    match time {
        Some(time) => Some(time@),
        None => None,
    }
}

fn more_recent(left: Option<SystemTime>, right: Option<SystemTime>) -> (answer: bool)
    ensures
        answer == newer(use_model(left), use_model(right)),
{
    match (left, right) {
        (Some(left), Some(right)) => right.before(left),
        (Some(_), None) => true,
        (None, _) => false,
    }
}

fn stands_ahead(
    items: &Vec<Item>,
    recent: &TextMap<SystemTime>,
    filter: LibraryFilter,
    left: usize,
    right: usize,
) -> (answer: bool)
    requires
        left < items@.len(),
        right < items@.len(),
    ensures
        answer == ahead(
            crate::catalog::item_models(items@),
            recent@,
            filter,
            left as int,
            right as int,
        ),
{
    match filter {
        LibraryFilter::Recent => {
            let first = recent.get(items[left].id.as_str());
            let second = recent.get(items[right].id.as_str());
            if more_recent(first, second) {
                return true;
            }
            !more_recent(second, first) && left < right
        },
        LibraryFilter::Alphabetical => {
            let first = lowercase(items[left].title.as_str());
            let second = lowercase(items[right].title.as_str());
            if !same_text(first.as_str(), second.as_str()) {
                return text_precedes(first.as_str(), second.as_str());
            }
            proof {
                law_text_order_is_total(first@, second@);
                law_text_order_is_total(items@[left as int].id@, items@[right as int].id@);
            }
            if !same_text(items[left].id.as_str(), items[right].id.as_str()) {
                return text_precedes(items[left].id.as_str(), items[right].id.as_str());
            }
            left < right
        },
        _ => left < right,
    }
}

fn filter_lists(filter: LibraryFilter, kind: AppKind) -> (answer: bool)
    ensures
        answer == lists(filter, kind),
{
    match filter {
        LibraryFilter::Recent | LibraryFilter::Alphabetical => true,
        LibraryFilter::Games => kind == AppKind::Game,
        LibraryFilter::EverythingElse => kind != AppKind::Game,
    }
}

/// The places below `count` whose titles a list holds, in their order.
spec fn partly_ordered(
    places: Seq<usize>,
    count: int,
    items: Seq<ItemModel>,
    recent: Map<Text, int>,
    filter: LibraryFilter,
) -> bool {
    &&& places.len() <= count
    &&& places_fit(places, count)
    &&& forall|i: int|
        0 <= i < places.len() ==> lists(filter, items[(#[trigger] places[i]) as int].kind)
    &&& forall|place: usize|
        place < count && lists(filter, items[place as int].kind) ==> #[trigger] places.contains(
            place,
        )
    &&& sorted(places, items, recent, filter)
}

/// Lists the titles that a filter lists, in their order.
pub fn order_library(
    items: &Vec<Item>,
    recent: &TextMap<SystemTime>,
    filter: LibraryFilter,
) -> (places: Vec<usize>)
    ensures
        places_fit(places@, items@.len() as int),
        places@ == library_order(crate::catalog::item_models(items@), recent@, filter),
        places@.len() <= items@.len(),
{
    let ghost models = crate::catalog::item_models(items@);
    let mut places: Vec<usize> = Vec::new();
    let mut next: usize = 0;
    proof {
        reveal(places_fit);
    }
    while next < items.len()
        invariant
            next <= items@.len(),
            models == crate::catalog::item_models(items@),
            partly_ordered(places@, next as int, models, recent@, filter),
        decreases items@.len() - next,
    {
        if filter_lists(filter, items[next].kind) {
            let mut slot: usize = 0;
            proof {
                reveal(places_fit);
            }
            while slot < places.len() && !stands_ahead(items, recent, filter, next, places[slot])
                invariant
                    next < items@.len(),
                    slot <= places@.len(),
                    forall|i: int| 0 <= i < places@.len() ==> places@[i] < items@.len(),
                            models == crate::catalog::item_models(items@),
                    partly_ordered(places@, next as int, models, recent@, filter),
                    forall|i: int|
                        0 <= i < slot ==> !ahead(
                            models,
                            recent@,
                            filter,
                            next as int,
                            (#[trigger] places@[i]) as int,
                        ),
                decreases places@.len() - slot,
            {
                proof {
                    reveal(places_fit);
                }
                slot += 1;
            }
            let ghost before = places@;
            places.insert(slot, next);
            proof {
                lemma_inserted(before, slot as int, next, models, recent@, filter);
            }
        } else {
            proof {
                reveal(places_fit);
                assert(partly_ordered(places@, next + 1, models, recent@, filter));
            }
        }
        next += 1;
    }
    proof {
        reveal(library_order);
        assert(in_library_order(places@, models, recent@, filter));
        law_library_order_is_unique(
            places@,
            library_order(models, recent@, filter),
            models,
            recent@,
            filter,
        );
    }
    places
}

/// The place in an ordered list at which a further title belongs.
proof fn lemma_slot(
    places: Seq<usize>,
    from: int,
    place: usize,
    items: Seq<ItemModel>,
    recent: Map<Text, int>,
    filter: LibraryFilter,
) -> (slot: int)
    requires
        0 <= from <= places.len(),
    ensures
        from <= slot <= places.len(),
        forall|i: int|
            from <= i < slot ==> !ahead(
                items,
                recent,
                filter,
                place as int,
                (#[trigger] places[i]) as int,
            ),
        slot < places.len() ==> ahead(items, recent, filter, place as int, places[slot] as int),
    decreases places.len() - from,
{
    if from == places.len() || ahead(items, recent, filter, place as int, places[from] as int) {
        from
    } else {
        lemma_slot(places, from + 1, place, items, recent, filter)
    }
}

proof fn lemma_ordered_upto(
    count: int,
    items: Seq<ItemModel>,
    recent: Map<Text, int>,
    filter: LibraryFilter,
) -> (places: Seq<usize>)
    requires
        0 <= count <= items.len() <= most_items(),
    ensures
        partly_ordered(places, count, items, recent, filter),
    decreases count,
{
    reveal(places_fit);
    if count == 0 {
        Seq::empty()
    } else {
        let before = lemma_ordered_upto(count - 1, items, recent, filter);
        let place = (count - 1) as usize;
        if lists(filter, items[count - 1].kind) {
            let slot = lemma_slot(before, 0, place, items, recent, filter);
            lemma_inserted(before, slot, place, items, recent, filter);
            before.insert(slot, place)
        } else {
            before
        }
    }
}

/// The library lists each title that its filter lists, once and in order, and
/// no other.
pub proof fn law_library_lists_just_its_titles(
    items: Seq<ItemModel>,
    recent: Map<Text, int>,
    filter: LibraryFilter,
)
    requires
        items.len() <= most_items(),
    ensures
        in_library_order(library_order(items, recent, filter), items, recent, filter),
        library_order(items, recent, filter).len() <= items.len(),
        places_differ(library_order(items, recent, filter)),
{
    reveal(places_fit);
    reveal(places_differ);
    let places = lemma_ordered_upto(items.len() as int, items, recent, filter);
    reveal(library_order);
    assert(in_library_order(places, items, recent, filter));
    law_library_order_is_unique(
        places,
        library_order(items, recent, filter),
        items,
        recent,
        filter,
    );
    assert forall|i: int, j: int|
        0 <= i < j < places.len() implies (#[trigger] places[i]) != (#[trigger] places[j]) by {
        law_library_order_is_total(items, recent, filter, places[i] as int, places[j] as int);
    }
}

proof fn lemma_inserted(
    places: Seq<usize>,
    slot: int,
    place: usize,
    items: Seq<ItemModel>,
    recent: Map<Text, int>,
    filter: LibraryFilter,
)
    requires
        partly_ordered(places, place as int, items, recent, filter),
        0 <= slot <= places.len(),
        lists(filter, items[place as int].kind),
        forall|i: int|
            0 <= i < slot ==> !ahead(
                items,
                recent,
                filter,
                place as int,
                (#[trigger] places[i]) as int,
            ),
        slot < places.len() ==> ahead(items, recent, filter, place as int, places[slot] as int),
    ensures
        partly_ordered(places.insert(slot, place), place + 1, items, recent, filter),
{
    reveal(places_fit);
    let after = places.insert(slot, place);
    assert forall|other: usize| other < place + 1 && lists(
        filter,
        items[other as int].kind,
    ) implies #[trigger] after.contains(other) by {
        if other == place {
            assert(after[slot] == place);
        } else {
            assert(places.contains(other));
            let i = choose|i: int| 0 <= i < places.len() && places[i] == other;
            assert(after[if i < slot {
                i
            } else {
                i + 1
            }] == other);
        }
    }
    assert forall|i: int, j: int| 0 <= i < j < after.len() implies ahead(
        items,
        recent,
        filter,
        (#[trigger] after[i]) as int,
        (#[trigger] after[j]) as int,
    ) by {
        let a = if i < slot {
            i
        } else {
            i - 1
        };
        let b = if j < slot {
            j
        } else {
            j - 1
        };
        if i != slot && j != slot {
            assert(after[i] == places[a]);
            assert(after[j] == places[b]);
            assert(ahead(items, recent, filter, places[a] as int, places[b] as int));
        } else if j == slot {
            assert(after[i] == places[i]);
            law_library_order_is_total(items, recent, filter, place as int, places[i] as int);
        } else {
            assert(after[j] == places[b]);
            if b > slot {
                assert(ahead(items, recent, filter, places[slot] as int, places[b] as int));
                law_library_order_is_transitive(
                    items,
                    recent,
                    filter,
                    place as int,
                    places[slot] as int,
                    places[b] as int,
                );
            }
        }
    }
    assert(places_fit(after, place + 1));
}

/// The words of a search query, in small letters.
pub open spec fn query_words(query: Text) -> Seq<Text> {
    let words = words_in(query, Breaks::Space);
    Seq::new(words.len(), |i: int| lowercase_text(words[i]))
}

/// What a search looks through: the title and the tags, in small letters.
pub open spec fn haystack(item: ItemModel) -> Text {
    lowercase_text(item.title + " "@ + joined(item.tags, " "@))
}

/// Whether a title holds every word that is searched for.
pub open spec fn found(item: ItemModel, words: Seq<Text>) -> bool {
    forall|i: int| 0 <= i < words.len() ==> holds(haystack(item), #[trigger] words[i])
}

/// The titles that hold every word of a query, in the catalog's order.
#[verifier::opaque]
pub open spec fn search_hits(items: Seq<ItemModel>, query: Text) -> Seq<usize> {
    places_below(items.len() as int, |i: int| found(items[i], query_words(query)))
}

/// A search finds no title twice, and only titles that there are.
pub proof fn law_search_finds_each_title_once(items: Seq<ItemModel>, query: Text)
    requires
        items.len() <= most_items(),
    ensures
        search_hits(items, query).len() <= items.len(),
        places_fit(search_hits(items, query), items.len() as int),
        places_differ(search_hits(items, query)),
{
    reveal(search_hits);
    reveal(places_differ);
    lemma_places_below(items.len() as int, |i: int| found(items[i], query_words(query)));
}

/// An empty query finds every title.
pub proof fn law_empty_query_finds_everything(items: Seq<ItemModel>, place: usize)
    requires
        items.len() <= most_items(),
        place < items.len(),
    ensures
        search_hits(items, Seq::empty()).contains(place),
{
    reveal(search_hits);
    let query = Seq::<char>::empty();
    assert(query_words(query).len() == 0);
    lemma_places_below(items.len() as int, |i: int| found(items[i], query_words(query)));
    assert(found(items[place as int], query_words(query)));
}

/// A search finds just the titles that hold every word, whatever the library's
/// filter is.
pub proof fn law_search_finds_just_the_matches(items: Seq<ItemModel>, query: Text, place: usize)
    requires
        items.len() <= most_items(),
        place < items.len(),
    ensures
        search_hits(items, query).contains(place) == found(
            items[place as int],
            query_words(query),
        ),
{
    reveal(search_hits);
    let keep = |i: int| found(items[i], query_words(query));
    lemma_places_below(items.len() as int, keep);
    if search_hits(items, query).contains(place) {
        let hits = search_hits(items, query);
        let i = choose|i: int| 0 <= i < hits.len() && hits[i] == place;
        assert(keep(places_below(items.len() as int, keep)[i] as int));
    }
    if found(items[place as int], query_words(query)) {
        assert(keep(place as int));
    }
}

fn item_found(item: &Item, words: &Vec<String>) -> (answer: bool)
    ensures
        answer == found(item@, texts(words@)),
{
    let tags = join(&item.tags, " ");
    let hay = lowercase(cat3(item.title.as_str(), " ", tags.as_str()).as_str());
    let mut next: usize = 0;
    while next < words.len()
        invariant
            next <= words@.len(),
            hay@ == haystack(item@),
            forall|i: int| 0 <= i < next ==> holds(hay@, (#[trigger] words@[i])@),
        decreases words@.len() - next,
    {
        if !contains_text(hay.as_str(), words[next].as_str()) {
            proof {
                assert(!holds(haystack(item@), texts(words@)[next as int]));
            }
            return false;
        }
        next += 1;
    }
    true
}

/// Finds the titles that hold every word of a query.
pub fn search_items(items: &Vec<Item>, query: &str) -> (hits: Vec<usize>)
    requires
        items@.len() <= most_items(),
    ensures
        hits@ == search_hits(crate::catalog::item_models(items@), query@),
        hits@.len() <= items@.len(),
        places_fit(hits@, items@.len() as int),
{
    proof {
        reveal(search_hits);
    }
    let plain = split_words(query, Breaks::Space);
    let mut words: Vec<String> = Vec::new();
    let mut next: usize = 0;
    while next < plain.len()
        invariant
            next <= plain@.len(),
            words@.len() == next,
            forall|i: int|
                0 <= i < next ==> (#[trigger] words@[i])@ == lowercase_text(plain@[i]@),
        decreases plain@.len() - next,
    {
        words.push(lowercase(plain[next].as_str()));
        next += 1;
    }
    proof {
        assert(texts(words@) =~= query_words(query@));
    }
    let ghost models = crate::catalog::item_models(items@);
    let ghost keep = |i: int| found(models[i], query_words(query@));
    let mut hits: Vec<usize> = Vec::new();
    let mut place: usize = 0;
    while place < items.len()
        invariant
            place <= items@.len() <= most_items(),
            models == crate::catalog::item_models(items@),
            keep == |i: int| found(models[i], query_words(query@)),
            texts(words@) == query_words(query@),
            hits@ == places_below(place as int, keep),
        decreases items@.len() - place,
    {
        if item_found(&items[place], &words) {
            hits.push(place);
        }
        place += 1;
    }
    proof {
        lemma_places_below(items@.len() as int, keep);
    }
    hits
}

/// How many chips the library's toolbar has.
pub const TOOLBAR_ITEM_COUNT: usize = 4;

impl LibraryGrid {
    /// The rows of the toolbar.
    pub open spec fn rows(self) -> int {
        (TOOLBAR_ITEM_COUNT + self.toolbar_columns - 1) / (self.toolbar_columns as int)
    }

    /// Whether the toolbar needs more than one row.
    pub open spec fn wraps(self) -> bool {
        self.rows() > 1
    }

    /// The row of a chip.
    pub open spec fn row_of(self, chip: int) -> int {
        chip / (self.toolbar_columns as int)
    }

    /// The column of a chip.
    pub open spec fn column_of(self, chip: int) -> int {
        chip % (self.toolbar_columns as int)
    }

    /// The column of cards whose middle lies below the middle of a chip.
    pub open spec fn column_below(self, chip_column: int) -> int {
        let column = ((2 * chip_column + 1) * self.columns) / (2 * self.toolbar_columns);
        if column < self.columns - 1 {
            column
        } else {
            self.columns - 1
        }
    }

    /// The column of chips whose middle lies above the middle of a card.
    pub open spec fn column_above(self, card_column: int) -> int {
        let column = ((2 * card_column + 1) * self.toolbar_columns) / (2 * self.columns);
        if column < self.toolbar_columns - 1 {
            column
        } else {
            self.toolbar_columns - 1
        }
    }

    /// The rows of the toolbar.
    pub fn toolbar_rows(self) -> (rows: usize)
        requires
            self.wf(),
        ensures
            rows == self.rows(),
            1 <= rows <= 4,
    {
        proof {
            let columns = self.toolbar_columns as int;
            assert(columns == 1 || columns == 2 || columns == 3 || columns == 4);
        }
        (TOOLBAR_ITEM_COUNT + self.toolbar_columns - 1) / self.toolbar_columns
    }

    /// The row of a chip.
    pub fn toolbar_row(self, item: usize) -> (row: usize)
        requires
            self.wf(),
        ensures
            row == self.row_of(item as int),
    {
        item / self.toolbar_columns
    }

    /// The column of a chip.
    pub fn toolbar_column(self, item: usize) -> (column: usize)
        requires
            self.wf(),
        ensures
            column == self.column_of(item as int),
            column < self.toolbar_columns,
    {
        item % self.toolbar_columns
    }

    /// Whether the toolbar needs more than one row.
    pub fn wrapped_toolbar(self) -> (wrapped: bool)
        requires
            self.wf(),
        ensures
            wrapped == self.wraps(),
    {
        self.toolbar_rows() > 1
    }

    /// The column of cards below a column of chips.
    pub fn toolbar_to_grid_column(self, toolbar_column: usize) -> (column: usize)
        requires
            self.wf(),
            toolbar_column < 4,
        ensures
            column == self.column_below(toolbar_column as int),
            column < self.columns,
    {
        proof {
            let columns = self.columns as int;
            assert((2 * toolbar_column + 1) * columns <= 7 * 6) by (nonlinear_arith)
                requires
                    0 <= toolbar_column < 4,
                    1 <= columns <= 6,
            ;
            assert((2 * toolbar_column + 1) * columns >= 0) by (nonlinear_arith)
                requires
                    0 <= toolbar_column,
                    1 <= columns,
            ;
        }
        let column: usize = ((2 * toolbar_column + 1) * self.columns) / (2 * self.toolbar_columns);
        if column < self.columns - 1 {
            column
        } else {
            self.columns - 1
        }
    }

    /// The column of chips above a column of cards.
    pub fn grid_to_toolbar_column(self, grid_column: usize) -> (column: usize)
        requires
            self.wf(),
            grid_column < self.columns,
        ensures
            column == self.column_above(grid_column as int),
            column < self.toolbar_columns,
    {
        proof {
            let columns = self.toolbar_columns as int;
            assert((2 * grid_column + 1) * columns <= 11 * 4) by (nonlinear_arith)
                requires
                    0 <= grid_column < 6,
                    1 <= columns <= 4,
            ;
            assert((2 * grid_column + 1) * columns >= 0) by (nonlinear_arith)
                requires
                    0 <= grid_column,
                    1 <= columns,
            ;
        }
        let column: usize = ((2 * grid_column + 1) * self.toolbar_columns) / (2 * self.columns);
        if column < self.toolbar_columns - 1 {
            column
        } else {
            self.toolbar_columns - 1
        }
    }
}

impl ShellModel {
    /// The state with the library listed anew.
    pub open spec fn relisted(self) -> ShellModel {
        ShellModel {
            titles: TitlesModel {
                library_items: library_order(
                    self.titles.items,
                    self.titles.recent_use,
                    self.titles.library_filter,
                ),
                ..self.titles
            },
            ..self
        }
    }

    /// Listing the library anew keeps what must hold of a state.
    pub proof fn lemma_relisted_ok(self)
        requires
            self.ok(),
        ensures
            self.relisted().ok(),
    {
        reveal(ShellModel::ok);
        law_library_lists_just_its_titles(self.titles.items, self.titles.recent_use, self.titles.library_filter);
    }
}

impl ShellCore {
    /// Lists the library anew.
    pub fn refresh_library_items(&mut self)
        requires
            old(self).wf(),
        ensures
            final(self)@ == old(self)@.relisted(),
            final(self).wf(),
    {
        self.titles.library_items = order_library(&self.titles.items, &self.titles.recent_use, self.titles.library_filter);
        proof {
            old(self)@.lemma_relisted_ok();
        }
    }
}

} // verus!
