//! What can be said of the titles of the catalog.

use crate::catalog::{
    image_of, pair_models, variant_models, AppKind, Availability, AvailabilityModel, CatalogItem,
    CatalogItemModel, ImageModel, ImageSource, Item, ItemModel, UserProjection, Variant,
    VariantModel,
};
use crate::text::{
    ascii_lowercase, ascii_lowered, cat, cat3, contains_text, copy_texts, holds,
    humanize_identifier, humanized, same_text, split_words, strip_prefix, stripped, text_of,
    words_in, Breaks, Text,
};
use crate::textlist::texts;
use vstd::prelude::*;
use vstd::string::*;

verus! {

broadcast use {crate::textlist::group_texts, crate::catalog::group_catalog_models};

/// What follows a prefix in the first tag that begins with it.
pub open spec fn tagged(tags: Seq<Text>, prefix: Text) -> Option<Text>
    decreases tags.len(),
{
    if tags.len() == 0 {
        None
    } else if stripped(tags[0], prefix) is Some {
        stripped(tags[0], prefix)
    } else {
        tagged(tags.skip(1), prefix)
    }
}

/// Finds what follows a prefix in the first tag that begins with it.
pub fn find_tag(tags: &Vec<String>, prefix: &str) -> (value: Option<String>)
    ensures
        text_of(value) == tagged(texts(tags@), prefix@),
{
    let mut next: usize = 0;
    let ghost all = texts(tags@);
    proof {
        assert(all.skip(0) =~= all);
    }
    while next < tags.len()
        invariant
            next <= tags@.len(),
            all == texts(tags@),
            tagged(all.skip(next as int), prefix@) == tagged(all, prefix@),
        decreases tags@.len() - next,
    {
        proof {
            assert(all.skip(next as int)[0] == tags@[next as int]@);
            assert(all.skip(next as int).skip(1) =~= all.skip(next + 1));
        }
        let value = strip_prefix(tags[next].as_str(), prefix);
        if value.is_some() {
            return value;
        }
        next += 1;
    }
    None
}

/// Whether a text is on a list.
pub open spec fn listed(list: Seq<Text>, wanted: Text) -> bool {
    exists|i: int| 0 <= i < list.len() && #[trigger] list[i] == wanted
}

/// Whether a text is on a list.
pub fn is_listed(list: &Vec<String>, wanted: &str) -> (found: bool)
    ensures
        found == listed(texts(list@), wanted@),
{
    let mut next: usize = 0;
    while next < list.len()
        invariant
            next <= list@.len(),
            forall|i: int| 0 <= i < next ==> (#[trigger] list@[i])@ != wanted@,
        decreases list@.len() - next,
    {
        if same_text(list[next].as_str(), wanted) {
            proof {
                assert(texts(list@)[next as int] == wanted@);
            }
            return true;
        }
        next += 1;
    }
    false
}

/// The second part of the first pair with a given first part.
pub open spec fn paired(pairs: Seq<(Text, Text)>, key: Text) -> Option<Text>
    decreases pairs.len(),
{
    if pairs.len() == 0 {
        None
    } else if pairs[0].0 == key {
        Some(pairs[0].1)
    } else {
        paired(pairs.skip(1), key)
    }
}

/// Finds the second part of the first pair with a given first part.
pub fn find_pair(pairs: &Vec<(String, String)>, key: &str) -> (value: Option<String>)
    ensures
        text_of(value) == paired(pair_models(pairs@), key@),
{
    let mut next: usize = 0;
    let ghost all = pair_models(pairs@);
    proof {
        assert(all.skip(0) =~= all);
    }
    while next < pairs.len()
        invariant
            next <= pairs@.len(),
            all == pair_models(pairs@),
            paired(all.skip(next as int), key@) == paired(all, key@),
        decreases pairs@.len() - next,
    {
        proof {
            assert(all.skip(next as int)[0] == all[next as int]);
            assert(all.skip(next as int).skip(1) =~= all.skip(next + 1));
        }
        if same_text(pairs[next].0.as_str(), key) {
            return Some(pairs[next].1.clone());
        }
        next += 1;
    }
    None
}

/// A title as the shell holds it, made from the catalog, the user's choices and
/// the image that was found for it.
pub open spec fn shell_item(
    item: CatalogItemModel,
    favorites: Seq<Text>,
    pins: Seq<(Text, Text)>,
    art: Option<ImageModel>,
) -> ItemModel {
    ItemModel {
        id: item.id,
        title: item.title,
        kind: item.kind,
        tags: item.tags,
        playtime_fact: tagged(item.tags, "playtime:"@),
        developer: tagged(item.tags, "developer:"@),
        description: tagged(item.tags, "description:"@),
        last_played_fact: tagged(item.tags, "last-played:"@),
        size_fact: tagged(item.tags, "size:"@),
        art,
        art_failed: false,
        variants: item.variants,
        favorite: listed(favorites, item.id),
        pinned_variant_id: paired(pins, item.id),
    }
}

/// Copies a list of variants.
pub fn copy_variants(variants: &Vec<Variant>) -> (copy: Vec<Variant>)
    ensures
        variant_models(copy@) == variant_models(variants@),
{
    let mut copy: Vec<Variant> = Vec::new();
    let mut next: usize = 0;
    while next < variants.len()
        invariant
            next <= variants@.len(),
            copy@.len() == next,
            forall|i: int| 0 <= i < next ==> (#[trigger] copy@[i])@ == variants@[i]@,
        decreases variants@.len() - next,
    {
        copy.push(variants[next].copy());
        next += 1;
    }
    proof {
        assert(variant_models(copy@) =~= variant_models(variants@));
    }
    copy
}

/// Makes the shell's title from the catalog's.
pub fn make_item(item: &CatalogItem, projection: &UserProjection, art: Option<ImageSource>) -> (made:
    Item)
    ensures
        made@ == shell_item(
            item@,
            texts(projection.favorite_item_ids@),
            pair_models(projection.pinned_variant_ids@),
            image_of(art),
        ),
{
    Item {
        id: item.id.clone(),
        title: item.title.clone(),
        kind: item.kind,
        tags: copy_texts(&item.tags),
        playtime_fact: find_tag(&item.tags, "playtime:"),
        developer: find_tag(&item.tags, "developer:"),
        description: find_tag(&item.tags, "description:"),
        last_played_fact: find_tag(&item.tags, "last-played:"),
        size_fact: find_tag(&item.tags, "size:"),
        art,
        art_failed: false,
        variants: copy_variants(&item.variants),
        favorite: is_listed(&projection.favorite_item_ids, item.id.as_str()),
        pinned_variant_id: find_pair(&projection.pinned_variant_ids, item.id.as_str()),
    }
}

/// The places of the variants that can be launched, in order, from `from` on.
pub open spec fn ready_places(variants: Seq<VariantModel>, from: int) -> Seq<int>
    decreases variants.len() - from,
{
    if from < 0 || from >= variants.len() {
        Seq::empty()
    } else if variants[from].availability is Ready {
        seq![from] + ready_places(variants, from + 1)
    } else {
        ready_places(variants, from + 1)
    }
}

/// The place of the first variant that can be launched.
pub open spec fn first_ready(variants: Seq<VariantModel>, from: int) -> Option<int>
    decreases variants.len() - from,
{
    if from < 0 || from >= variants.len() {
        None
    } else if variants[from].availability is Ready {
        Some(from)
    } else {
        first_ready(variants, from + 1)
    }
}

/// The variant that stands for a title: the first that can be launched, or
/// else the first.
pub open spec fn best_place(variants: Seq<VariantModel>) -> Option<int> {
    match first_ready(variants, 0) {
        Some(place) => Some(place),
        None => if variants.len() > 0 {
            Some(0)
        } else {
            None
        },
    }
}

/// Whether a title can be launched.
pub open spec fn is_ready(item: ItemModel) -> bool {
    first_ready(item.variants, 0) is Some
}

/// The availability of a title: that of the variant which stands for it.
pub open spec fn availability_of(item: ItemModel) -> AvailabilityModel {
    match best_place(item.variants) {
        Some(place) => item.variants[place].availability,
        None => AvailabilityModel::UnsupportedCapability {
            capability: "catalog item has no variants"@,
        },
    }
}

pub proof fn lemma_first_ready(variants: Seq<VariantModel>, from: int)
    requires
        0 <= from,
    ensures
        match first_ready(variants, from) {
            Some(place) => from <= place < variants.len() && variants[place].availability is Ready
                && forall|i: int| from <= i < place ==> !(variants[i].availability is Ready),
            None => forall|i: int|
                from <= i < variants.len() ==> !(variants[i].availability is Ready),
        },
        first_ready(variants, from) is Some <==> ready_places(variants, from).len() > 0,
        first_ready(variants, from) is Some ==> ready_places(variants, from)[0] == first_ready(
            variants,
            from,
        )->0,
        forall|k: int|
            0 <= k < ready_places(variants, from).len() ==> from <= (#[trigger] ready_places(
                variants,
                from,
            )[k]) < variants.len() && variants[ready_places(variants, from)[k]].availability is Ready,
        ready_places(variants, from).len() <= variants.len() - from || from > variants.len(),
        from >= variants.len() ==> ready_places(variants, from).len() == 0,
    decreases variants.len() - from,
{
    if from < variants.len() {
        lemma_first_ready(variants, from + 1);
    }
}

/// A title is ready exactly when its availability says so.
pub proof fn law_ready_titles_have_a_ready_variant(item: ItemModel)
    ensures
        is_ready(item) == (availability_of(item) is Ready),
        is_ready(item) == exists|i: int|
            0 <= i < item.variants.len() && (#[trigger] item.variants[i]).availability is Ready,
{
    lemma_first_ready(item.variants, 0);
    if is_ready(item) {
        assert(item.variants[first_ready(item.variants, 0)->0].availability is Ready);
    }
}

impl Item {
    /// The place of the first variant that can be launched.
    pub fn active_ready_variant(&self) -> (place: Option<usize>)
        ensures
            match place {
                Some(place) => first_ready(self@.variants, 0) == Some(place as int) && place
                    < self.variants@.len(),
                None => first_ready(self@.variants, 0) is None,
            },
    {
        let mut next: usize = 0;
        let ghost variants = self@.variants;
        while next < self.variants.len()
            invariant
                next <= self.variants@.len(),
                variants == variant_models(self.variants@),
                first_ready(variants, next as int) == first_ready(variants, 0),
            decreases self.variants@.len() - next,
        {
            if self.variants[next].availability.is_ready() {
                return Some(next);
            }
            next += 1;
        }
        None
    }

    /// The places of the variants that can be launched, in order.
    pub fn ready_variants(&self) -> (places: Vec<usize>)
        ensures
            places@.map_values(|place: usize| place as int) == ready_places(self@.variants, 0),
            forall|i: int| 0 <= i < places@.len() ==> places@[i] < self.variants@.len(),
    {
        let mut places: Vec<usize> = Vec::new();
        let mut next: usize = 0;
        let ghost variants = self@.variants;
        let ghost as_int = |place: usize| place as int;
        proof {
            assert(places@.map_values(as_int) + ready_places(variants, 0) =~= ready_places(
                variants,
                0,
            ));
        }
        while next < self.variants.len()
            invariant
                next <= self.variants@.len(),
                variants == variant_models(self.variants@),
                as_int == |place: usize| place as int,
                places@.map_values(as_int) + ready_places(variants, next as int) == ready_places(
                    variants,
                    0,
                ),
                forall|i: int| 0 <= i < places@.len() ==> places@[i] < self.variants@.len(),
            decreases self.variants@.len() - next,
        {
            let ghost before = places@;
            if self.variants[next].availability.is_ready() {
                places.push(next);
                proof {
                    assert(places@.map_values(as_int) =~= before.map_values(as_int) + seq![
                        next as int,
                    ]);
                    assert(before.map_values(as_int) + (seq![next as int] + ready_places(
                        variants,
                        next + 1,
                    )) =~= places@.map_values(as_int) + ready_places(variants, next + 1));
                }
            }
            next += 1;
        }
        proof {
            assert(places@.map_values(as_int) + Seq::<int>::empty() =~= places@.map_values(as_int));
        }
        places
    }

    /// The variant that stands for the title.
    pub fn best_variant(&self) -> (variant: Option<&Variant>)
        ensures
            match variant {
                Some(variant) => best_place(self@.variants) is Some && variant@
                    == self@.variants[best_place(self@.variants)->0],
                None => best_place(self@.variants) is None,
            },
    {
        match self.active_ready_variant() {
            Some(place) => Some(&self.variants[place]),
            None => if self.variants.len() > 0 {
                Some(&self.variants[0])
            } else {
                None
            },
        }
    }

    /// Whether the title can be launched.
    pub fn ready(&self) -> (ready: bool)
        ensures
            ready == is_ready(self@),
    {
        self.active_ready_variant().is_some()
    }

    /// The availability of the title.
    pub fn best_availability(&self) -> (availability: Availability)
        ensures
            availability@ == availability_of(self@),
    {
        match self.best_variant() {
            Some(variant) => variant.availability.copy(),
            None => Availability::UnsupportedCapability {
                capability: "catalog item has no variants".to_owned(),
            },
        }
    }
}

/// What a variant that can be launched can say of itself.
#[derive(Clone, Copy, Debug, PartialEq, Eq, Structural)]
pub enum ReadyVariantCapability {
    Native,
    Stream,
    Unknown,
}

/// What a runtime family says: it streams if one of its parts is `stream` or it
/// speaks of streaming, it is native if one of its parts is `native`.
pub open spec fn capability_of(runtime_family: Text) -> ReadyVariantCapability {
    let runtime = ascii_lowered(runtime_family);
    let families = words_in(runtime, Breaks::Family);
    if listed(families, "stream"@) || holds(runtime, "streaming"@) {
        ReadyVariantCapability::Stream
    } else if listed(families, "native"@) {
        ReadyVariantCapability::Native
    } else {
        ReadyVariantCapability::Unknown
    }
}

/// What a variant's runtime family says of it.
pub fn ready_variant_capability(variant: &Variant) -> (capability: ReadyVariantCapability)
    ensures
        capability == capability_of(variant@.provenance.runtime_family),
{
    let runtime = ascii_lowercase(variant.provenance.runtime_family.as_str());
    let families = split_words(runtime.as_str(), Breaks::Family);
    if is_listed(&families, "stream") || contains_text(runtime.as_str(), "streaming") {
        ReadyVariantCapability::Stream
    } else if is_listed(&families, "native") {
        ReadyVariantCapability::Native
    } else {
        ReadyVariantCapability::Unknown
    }
}

/// The label of a variant that can be launched.
pub open spec fn ready_label(variant: VariantModel) -> Text {
    let identity = humanized(variant.id);
    match capability_of(variant.provenance.runtime_family) {
        ReadyVariantCapability::Native => identity + " · Installed on this device"@,
        ReadyVariantCapability::Stream => identity + " · Stream from your PC"@,
        ReadyVariantCapability::Unknown => if variant.provenance.runtime_family.len() == 0 {
            identity
        } else {
            identity + " · "@ + humanized(variant.provenance.runtime_family)
        },
    }
}

/// Labels a variant that can be launched.
pub fn ready_variant_label(variant: &Variant) -> (label: String)
    ensures
        label@ == ready_label(variant@),
{
    let identity = humanize_identifier(variant.id.as_str());
    match ready_variant_capability(variant) {
        ReadyVariantCapability::Native => cat(identity.as_str(), " · Installed on this device"),
        ReadyVariantCapability::Stream => cat(identity.as_str(), " · Stream from your PC"),
        ReadyVariantCapability::Unknown => if variant.provenance.runtime_family.as_str().is_empty() {
            identity
        } else {
            cat3(
                identity.as_str(),
                " · ",
                humanize_identifier(variant.provenance.runtime_family.as_str()).as_str(),
            )
        },
    }
}

/// Where a variant that can be launched is to be had.
pub open spec fn capability_cue(capability: ReadyVariantCapability) -> Text {
    match capability {
        ReadyVariantCapability::Native => "Installed"@,
        ReadyVariantCapability::Stream => "Available over the network"@,
        ReadyVariantCapability::Unknown => "Source availability unknown"@,
    }
}

/// Says where a variant that can be launched is to be had.
pub fn ready_variant_capability_cue(variant: &Variant) -> (cue: &'static str)
    ensures
        cue@ == capability_cue(capability_of(variant@.provenance.runtime_family)),
{
    match ready_variant_capability(variant) {
        ReadyVariantCapability::Native => "Installed",
        ReadyVariantCapability::Stream => "Available over the network",
        ReadyVariantCapability::Unknown => "Source availability unknown",
    }
}

/// A kind in capitals.
pub open spec fn kind_name(kind: AppKind) -> Text {
    match kind {
        AppKind::Media => "MEDIA"@,
        AppKind::Stream => "STREAM"@,
        AppKind::Game => "GAME"@,
        AppKind::System => "TOOL"@,
        AppKind::Settings => "SETTINGS"@,
    }
}

/// Names a kind in capitals.
pub fn kind_text(kind: &AppKind) -> (text: &'static str)
    ensures
        text@ == kind_name(*kind),
{
    match kind {
        AppKind::Media => "MEDIA",
        AppKind::Stream => "STREAM",
        AppKind::Game => "GAME",
        AppKind::System => "TOOL",
        AppKind::Settings => "SETTINGS",
    }
}

/// A kind as it stands in a sentence.
pub open spec fn kind_word(kind: AppKind) -> Text {
    match kind {
        AppKind::Media => "Media"@,
        AppKind::Stream => "Stream"@,
        AppKind::Game => "Game"@,
        AppKind::System => "Tool"@,
        AppKind::Settings => "Settings"@,
    }
}

/// Names a kind as it stands in a sentence.
pub fn sentence_kind(kind: &AppKind) -> (text: &'static str)
    ensures
        text@ == kind_word(*kind),
{
    match kind {
        AppKind::Media => "Media",
        AppKind::Stream => "Stream",
        AppKind::Game => "Game",
        AppKind::System => "Tool",
        AppKind::Settings => "Settings",
    }
}

/// An availability in words. What can be launched is `Starting` while a launch
/// is under way.
pub open spec fn availability_words(availability: AvailabilityModel, starting: bool) -> Text {
    match availability {
        AvailabilityModel::Ready => if starting {
            "Starting"@
        } else {
            "Ready"@
        },
        AvailabilityModel::NeedsNetwork { reason } => "Network required — "@ + reason,
        AvailabilityModel::NeedsSetup { reason } => "Finish setup — "@ + reason,
        AvailabilityModel::UnsupportedCapability {
            capability,
        } => "Not supported on this device — "@ + capability,
        AvailabilityModel::IncompatibleRuntime {
            required,
            available,
        } => "Not supported — requires "@ + required + "; found "@ + available,
    }
}

/// Puts an availability into words.
pub fn availability_text(availability: &Availability, starting: bool) -> (text: String)
    ensures
        text@ == availability_words(availability@, starting),
{
    match availability {
        Availability::Ready => if starting {
            "Starting".to_owned()
        } else {
            "Ready".to_owned()
        },
        Availability::NeedsNetwork { reason } => cat("Network required — ", reason.as_str()),
        Availability::NeedsSetup { reason } => cat("Finish setup — ", reason.as_str()),
        Availability::UnsupportedCapability { capability } => cat(
            "Not supported on this device — ",
            capability.as_str(),
        ),
        Availability::IncompatibleRuntime { required, available } => cat3(
            "Not supported — requires ",
            required.as_str(),
            "; found ",
        ).concat(available.as_str()),
    }
}

/// Where a variant comes from, in words: its kind, its provider and the name of
/// its descriptor.
pub open spec fn provenance_words(kind: AppKind, variant: VariantModel) -> Text {
    kind_word(kind) + " · "@ + humanized(variant.provenance.provider_id) + " · "@ + match
        variant.descriptor_stem {
        Some(stem) => humanized(stem),
        None => "Manifest"@,
    }
}

/// Puts into words where a variant comes from.
pub fn detail_provenance_text(kind: &AppKind, variant: &Variant) -> (text: String)
    ensures
        text@ == provenance_words(*kind, variant@),
{
    let provider = humanize_identifier(variant.provenance.provider_id.as_str());
    let manifest = match &variant.launch_target.descriptor_stem {
        Some(stem) => humanize_identifier(stem.as_str()),
        None => "Manifest".to_owned(),
    };
    cat3(sentence_kind(kind), " · ", provider.as_str()).concat(" · ").concat(manifest.as_str())
}

} // verus!
