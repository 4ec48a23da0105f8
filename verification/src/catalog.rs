//! The titles of the catalog and their models.

use crate::text::{copy_text, text_of, Text};
use crate::textlist::texts;
use vstd::prelude::*;

verus! {

/// What kind of thing a title is.
#[derive(Clone, Copy, Debug, PartialEq, Eq, Structural)]
pub enum AppKind {
    Media,
    Stream,
    Game,
    System,
    Settings,
}

/// Whether a variant can be launched, and if not, why.
#[derive(Clone, Debug, PartialEq, Eq)]
pub enum Availability {
    Ready,
    NeedsNetwork { reason: String },
    NeedsSetup { reason: String },
    UnsupportedCapability { capability: String },
    IncompatibleRuntime { required: String, available: String },
}

/// The model of an availability.
pub ghost enum AvailabilityModel {
    Ready,
    NeedsNetwork { reason: Text },
    NeedsSetup { reason: Text },
    UnsupportedCapability { capability: Text },
    IncompatibleRuntime { required: Text, available: Text },
}

impl View for Availability {
    type V = AvailabilityModel;

    open spec fn view(&self) -> AvailabilityModel {
        match self {
            Availability::Ready => AvailabilityModel::Ready,
            Availability::NeedsNetwork { reason } => AvailabilityModel::NeedsNetwork {
                reason: reason@,
            },
            Availability::NeedsSetup { reason } => AvailabilityModel::NeedsSetup {
                reason: reason@,
            },
            Availability::UnsupportedCapability {
                capability,
            } => AvailabilityModel::UnsupportedCapability { capability: capability@ },
            Availability::IncompatibleRuntime {
                required,
                available,
            } => AvailabilityModel::IncompatibleRuntime {
                required: required@,
                available: available@,
            },
        }
    }
}

impl Availability {
    /// A copy with the same model.
    pub fn copy(&self) -> (copy: Availability)
        ensures
            copy@ == self@,
    {
        match self {
            Availability::Ready => Availability::Ready,
            Availability::NeedsNetwork { reason } => Availability::NeedsNetwork {
                reason: reason.clone(),
            },
            Availability::NeedsSetup { reason } => Availability::NeedsSetup {
                reason: reason.clone(),
            },
            Availability::UnsupportedCapability {
                capability,
            } => Availability::UnsupportedCapability { capability: capability.clone() },
            Availability::IncompatibleRuntime {
                required,
                available,
            } => Availability::IncompatibleRuntime {
                required: required.clone(),
                available: available.clone(),
            },
        }
    }

    /// Whether nothing stands in the way of a launch.
    pub fn is_ready(&self) -> (ready: bool)
        ensures
            ready == (self@ is Ready),
    {
        match self {
            Availability::Ready => true,
            _ => false,
        }
    }
}

/// Something that a variant needs from the device.
#[derive(Clone, Debug, PartialEq, Eq)]
pub struct Requirement {
    pub capability: String,
    pub optional: bool,
}

/// The model of a requirement.
pub ghost struct RequirementModel {
    pub capability: Text,
    pub optional: bool,
}

impl View for Requirement {
    type V = RequirementModel;

    open spec fn view(&self) -> RequirementModel {
        RequirementModel { capability: self.capability@, optional: self.optional }
    }
}

/// Where a variant comes from and what runs it.
#[derive(Clone, Debug, PartialEq, Eq)]
pub struct Provenance {
    pub provider_id: String,
    pub app_version: Option<String>,
    pub runtime_family: String,
}

/// The model of a provenance.
pub ghost struct ProvenanceModel {
    pub provider_id: Text,
    pub app_version: Option<Text>,
    pub runtime_family: Text,
}

impl View for Provenance {
    type V = ProvenanceModel;

    open spec fn view(&self) -> ProvenanceModel {
        ProvenanceModel {
            provider_id: self.provider_id@,
            app_version: text_of(self.app_version),
            runtime_family: self.runtime_family@,
        }
    }
}

/// What is launched: the id of the app, and the name of its descriptor file
/// without directories and extension, where it has one in UTF-8.
#[derive(Clone, Debug, PartialEq, Eq)]
pub struct AppManifestRef {
    pub app_id: String,
    pub descriptor_stem: Option<String>,
}

/// One way to run a title.
#[derive(Clone, Debug, PartialEq, Eq)]
pub struct Variant {
    pub id: String,
    pub availability: Availability,
    pub requirements: Vec<Requirement>,
    pub provenance: Provenance,
    pub launch_target: AppManifestRef,
}

/// The model of a variant.
pub ghost struct VariantModel {
    pub id: Text,
    pub availability: AvailabilityModel,
    pub requirements: Seq<RequirementModel>,
    pub provenance: ProvenanceModel,
    pub app_id: Text,
    pub descriptor_stem: Option<Text>,
}

impl View for Variant {
    type V = VariantModel;

    open spec fn view(&self) -> VariantModel {
        VariantModel {
            id: self.id@,
            availability: self.availability@,
            requirements: requirement_models(self.requirements@),
            provenance: self.provenance@,
            app_id: self.launch_target.app_id@,
            descriptor_stem: text_of(self.launch_target.descriptor_stem),
        }
    }
}

/// The models of a list of requirements.
#[verifier::opaque]
pub open spec fn requirement_models(requirements: Seq<Requirement>) -> Seq<RequirementModel> {
    Seq::new(requirements.len(), |i: int| requirements[i]@)
}

/// A list has as many models as elements.
pub broadcast proof fn lemma_requirement_models_len(requirements: Seq<Requirement>)
    ensures
        #[trigger] requirement_models(requirements).len() == requirements.len(),
{
    reveal(requirement_models);
}

/// Each element of a list has its own model.
pub broadcast proof fn lemma_requirement_models_index(requirements: Seq<Requirement>, i: int)
    requires
        0 <= i < requirements.len(),
    ensures
        (#[trigger] requirement_models(requirements)[i]) == requirements[i]@,
{
    reveal(requirement_models);
}

/// The models of a list of variants.
#[verifier::opaque]
pub open spec fn variant_models(variants: Seq<Variant>) -> Seq<VariantModel> {
    Seq::new(variants.len(), |i: int| variants[i]@)
}

/// A list has as many models as elements.
pub broadcast proof fn lemma_variant_models_len(variants: Seq<Variant>)
    ensures
        #[trigger] variant_models(variants).len() == variants.len(),
{
    reveal(variant_models);
}

/// Each element of a list has its own model.
pub broadcast proof fn lemma_variant_models_index(variants: Seq<Variant>, i: int)
    requires
        0 <= i < variants.len(),
    ensures
        (#[trigger] variant_models(variants)[i]) == variants[i]@,
{
    reveal(variant_models);
}

impl Variant {
    /// A copy with the same model.
    pub fn copy(&self) -> (copy: Variant)
        ensures
            copy@ == self@,
    {
        let mut requirements: Vec<Requirement> = Vec::new();
        let mut next: usize = 0;
        while next < self.requirements.len()
            invariant
                next <= self.requirements@.len(),
                requirements@.len() == next,
                forall|i: int|
                    0 <= i < next ==> (#[trigger] requirements@[i])@ == self.requirements@[i]@,
            decreases self.requirements@.len() - next,
        {
            let requirement = &self.requirements[next];
            requirements.push(
                Requirement {
                    capability: requirement.capability.clone(),
                    optional: requirement.optional,
                },
            );
            next += 1;
        }
        proof {
            broadcast use group_catalog_models;

            assert(requirement_models(requirements@) =~= requirement_models(self.requirements@));
        }
        Variant {
            id: self.id.clone(),
            availability: self.availability.copy(),
            requirements,
            provenance: Provenance {
                provider_id: self.provenance.provider_id.clone(),
                app_version: copy_text(&self.provenance.app_version),
                runtime_family: self.provenance.runtime_family.clone(),
            },
            launch_target: AppManifestRef {
                app_id: self.launch_target.app_id.clone(),
                descriptor_stem: copy_text(&self.launch_target.descriptor_stem),
            },
        }
    }
}

/// How the catalog wants a title shown.
#[derive(Clone, Debug, PartialEq, Eq)]
pub struct CatalogPresentation {
    pub icon_reference: Option<String>,
    pub icon_decodable: bool,
}

/// A title as the catalog lists it.
#[derive(Clone, Debug, PartialEq, Eq)]
pub struct CatalogItem {
    pub id: String,
    pub title: String,
    pub kind: AppKind,
    pub presentation: CatalogPresentation,
    pub tags: Vec<String>,
    pub variants: Vec<Variant>,
}

/// What the user chose about titles: the favorites, and the variant pinned to
/// a title.
#[derive(Clone, Debug, PartialEq, Eq)]
pub struct UserProjection {
    pub favorite_item_ids: Vec<String>,
    pub pinned_variant_ids: Vec<(String, String)>,
}

/// The catalog at one moment.
#[derive(Clone, Debug, PartialEq, Eq)]
pub struct CatalogSnapshot {
    pub items: Vec<CatalogItem>,
    pub user_projection: UserProjection,
}

/// The model of a title as the catalog lists it.
pub ghost struct CatalogItemModel {
    pub id: Text,
    pub title: Text,
    pub kind: AppKind,
    pub icon_reference: Option<Text>,
    pub icon_decodable: bool,
    pub tags: Seq<Text>,
    pub variants: Seq<VariantModel>,
}

impl View for CatalogItem {
    type V = CatalogItemModel;

    open spec fn view(&self) -> CatalogItemModel {
        CatalogItemModel {
            id: self.id@,
            title: self.title@,
            kind: self.kind,
            icon_reference: text_of(self.presentation.icon_reference),
            icon_decodable: self.presentation.icon_decodable,
            tags: texts(self.tags@),
            variants: variant_models(self.variants@),
        }
    }
}

/// An image: the id that names its bytes, and the bytes.
#[derive(Clone, Debug, PartialEq, Eq)]
pub struct ImageSource {
    pub id: String,
    pub bytes: Vec<u8>,
}

/// The model of an image.
pub ghost struct ImageModel {
    pub id: Text,
    pub bytes: Seq<u8>,
}

impl View for ImageSource {
    type V = ImageModel;

    open spec fn view(&self) -> ImageModel {
        ImageModel { id: self.id@, bytes: self.bytes@ }
    }
}

/// The model of an image that may be missing.
pub open spec fn image_of(image: Option<ImageSource>) -> Option<ImageModel> {
    match image {
        Some(image) => Some(image@),
        None => None,
    }
}

/// A title as the shell holds it.
#[derive(Clone, Debug)]
pub struct Item {
    pub id: String,
    pub title: String,
    pub kind: AppKind,
    pub tags: Vec<String>,
    pub playtime_fact: Option<String>,
    pub developer: Option<String>,
    pub description: Option<String>,
    pub last_played_fact: Option<String>,
    pub size_fact: Option<String>,
    pub art: Option<ImageSource>,
    pub art_failed: bool,
    pub variants: Vec<Variant>,
    pub favorite: bool,
    pub pinned_variant_id: Option<String>,
}

/// The model of a title as the shell holds it.
pub ghost struct ItemModel {
    pub id: Text,
    pub title: Text,
    pub kind: AppKind,
    pub tags: Seq<Text>,
    pub playtime_fact: Option<Text>,
    pub developer: Option<Text>,
    pub description: Option<Text>,
    pub last_played_fact: Option<Text>,
    pub size_fact: Option<Text>,
    pub art: Option<ImageModel>,
    pub art_failed: bool,
    pub variants: Seq<VariantModel>,
    pub favorite: bool,
    pub pinned_variant_id: Option<Text>,
}

impl View for Item {
    type V = ItemModel;

    open spec fn view(&self) -> ItemModel {
        ItemModel {
            id: self.id@,
            title: self.title@,
            kind: self.kind,
            tags: texts(self.tags@),
            playtime_fact: text_of(self.playtime_fact),
            developer: text_of(self.developer),
            description: text_of(self.description),
            last_played_fact: text_of(self.last_played_fact),
            size_fact: text_of(self.size_fact),
            art: image_of(self.art),
            art_failed: self.art_failed,
            variants: variant_models(self.variants@),
            favorite: self.favorite,
            pinned_variant_id: text_of(self.pinned_variant_id),
        }
    }
}

/// The models of a list of titles.
#[verifier::opaque]
pub open spec fn item_models(items: Seq<Item>) -> Seq<ItemModel> {
    Seq::new(items.len(), |i: int| items[i]@)
}

/// A list has as many models as elements.
pub broadcast proof fn lemma_item_models_len(items: Seq<Item>)
    ensures
        #[trigger] item_models(items).len() == items.len(),
{
    reveal(item_models);
}

/// Each element of a list has its own model.
pub broadcast proof fn lemma_item_models_index(items: Seq<Item>, i: int)
    requires
        0 <= i < items.len(),
    ensures
        (#[trigger] item_models(items)[i]) == items[i]@,
{
    reveal(item_models);
}

/// The models of a list of pairs.
#[verifier::opaque]
pub open spec fn pair_models(pairs: Seq<(String, String)>) -> Seq<(Text, Text)> {
    Seq::new(pairs.len(), |i: int| (pairs[i].0@, pairs[i].1@))
}

/// A list has as many models as elements.
pub broadcast proof fn lemma_pair_models_len(pairs: Seq<(String, String)>)
    ensures
        #[trigger] pair_models(pairs).len() == pairs.len(),
{
    reveal(pair_models);
}

/// Each element of a list has its own model.
pub broadcast proof fn lemma_pair_models_index(pairs: Seq<(String, String)>, i: int)
    requires
        0 <= i < pairs.len(),
    ensures
        (#[trigger] pair_models(pairs)[i]) == (pairs[i].0@, pairs[i].1@),
{
    reveal(pair_models);
}

pub broadcast group group_catalog_models {
    lemma_requirement_models_len,
    lemma_requirement_models_index,
    lemma_variant_models_len,
    lemma_variant_models_index,
    lemma_item_models_len,
    lemma_item_models_index,
    lemma_pair_models_len,
    lemma_pair_models_index,
}

} // verus!
