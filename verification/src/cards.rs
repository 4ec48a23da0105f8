//! The cards that titles are shown on: their art, their plates, their cues.

use crate::art::{fnv_hash, hash_bytes};
use crate::catalog::{Availability, AvailabilityModel, Item, ItemModel, RequirementModel, Variant};
use crate::cutting::{after_last, raise, raised_text, rest_after_last};
use crate::scene::{
    maybe, no_nodes, node, node_models, plain, put, put_all, put_if, NodeModel, Picture, PlateArt,
    Role, SceneNode, Token, TypeRole,
};
use crate::text::{
    cat, cat3, chars_of, contains_text, ellipsize_to_cells, ellipsized, holds, same_text,
    string_between, Text,
};
use crate::titles::{
    availability_of, availability_text, availability_words, best_place, find_tag, kind_word,
    sentence_kind, tagged,
};
use vstd::prelude::*;
use vstd::string::*;
use vstd::utf8::encode_utf8;

verus! {

broadcast use {
    crate::textlist::group_texts,
    crate::catalog::group_catalog_models,
    crate::scene::group_node_models,
};

/// Where a title is shown.
#[derive(Clone, Copy, Debug, PartialEq, Eq, Structural)]
pub enum Showcase {
    Shelf,
    Library,
    Favorites,
    Details,
}

impl Showcase {
    /// How the nodes of a title begin.
    pub open spec fn prefix(self) -> Text {
        match self {
            Showcase::Shelf => "home-card"@,
            Showcase::Library => "library-card"@,
            Showcase::Favorites => "favorite-card"@,
            Showcase::Details => "detail-art"@,
        }
    }

    /// Whether the reason on a card takes one line.
    pub open spec fn tight(self) -> bool {
        self == Showcase::Shelf || self == Showcase::Library
    }

    /// How the nodes of a title begin.
    pub fn name(self) -> (name: &'static str)
        ensures
            name@ == self.prefix(),
    {
        match self {
            Showcase::Shelf => "home-card",
            Showcase::Library => "library-card",
            Showcase::Favorites => "favorite-card",
            Showcase::Details => "detail-art",
        }
    }
}

/// A text on one line: as it is at the plain scale, cut to the cells that there
/// are at every other.
pub open spec fn one_line(text: Text, cells: int, scale: int) -> Text {
    if scale == 100 {
        text
    } else {
        ellipsized(text, cells)
    }
}

/// Puts a text on one line.
pub fn scale_aware_single_line(text: &str, cells: i64, scale: u16) -> (line: String)
    ensures
        line@ == one_line(text@, cells as int, scale as int),
{
    if scale == 100 {
        text.to_owned()
    } else {
        ellipsize_to_cells(text, cells)
    }
}

/// The id of a title without the provider in front.
pub open spec fn own_id(id: Text) -> Text {
    after_last(id, ":"@).unwrap_or(id)
}

/// The plate of a title: three titles have theirs, the others one by their id.
pub open spec fn plate_art(id: Text) -> PlateArt {
    let own = own_id(id);
    if own == "steam-link"@ {
        PlateArt::A
    } else if own == "tidelines"@ {
        PlateArt::D
    } else if own == "button-tester"@ {
        PlateArt::C
    } else {
        let turn = fnv_hash(encode_utf8(own)) % 3;
        if turn == 0 {
            PlateArt::A
        } else if turn == 1 {
            PlateArt::D
        } else {
            PlateArt::C
        }
    }
}

/// The name of a plate.
pub open spec fn plate_name(plate: PlateArt) -> Text {
    match plate {
        PlateArt::A => "plate-a"@,
        PlateArt::C => "plate-c"@,
        PlateArt::D => "plate-d"@,
    }
}

/// The first letter of a title.
pub open spec fn initial(title: Text) -> Text {
    if title.len() > 0 {
        title.take(1)
    } else {
        "?"@
    }
}

/// The kind of a title as its plate spells it.
pub open spec fn plate_kind(item: ItemModel) -> Text {
    raised_text(tagged(item.tags, "kind-label:"@).unwrap_or(kind_word(item.kind)))
}

fn pick_plate(id: &str) -> (plate: PlateArt)
    ensures
        plate == plate_art(id@),
{
    let own = match rest_after_last(id, ":") {
        Some(rest) => rest,
        None => id.to_owned(),
    };
    if same_text(own.as_str(), "steam-link") {
        return PlateArt::A;
    }
    if same_text(own.as_str(), "tidelines") {
        return PlateArt::D;
    }
    if same_text(own.as_str(), "button-tester") {
        return PlateArt::C;
    }
    let turn: u64 = hash_bytes(own.as_str().as_bytes()) % 3;
    if turn == 0 {
        PlateArt::A
    } else if turn == 1 {
        PlateArt::D
    } else {
        PlateArt::C
    }
}

fn name_plate(plate: PlateArt) -> (name: &'static str)
    ensures
        name@ == plate_name(plate),
{
    match plate {
        PlateArt::A => "plate-a",
        PlateArt::C => "plate-c",
        PlateArt::D => "plate-d",
    }
}

fn first_letter(title: &str) -> (letter: String)
    ensures
        letter@ == initial(title@),
{
    let chars = chars_of(title);
    if chars.len() > 0 {
        let letter = string_between(&chars, 0, 1);
        proof {
            assert(letter@ =~= title@.take(1));
        }
        letter
    } else {
        "?".to_owned()
    }
}

/// The id of a node of a title.
pub open spec fn card_id(showcase: Showcase, part: Text, id: Text) -> Text {
    showcase.prefix() + part + id
}

pub(crate) fn name_part(showcase: Showcase, part: &str, id: &str) -> (name: String)
    ensures
        name@ == card_id(showcase, part@, id@),
{
    cat3(showcase.name(), part, id)
}

/// The title below the art. On the shelf it takes one line.
pub open spec fn title_node(item: ItemModel, showcase: Showcase, cells: int, scale: int) -> NodeModel {
    plain(
        card_id(showcase, "-title-"@, item.id),
        Role::Text,
        if showcase == Showcase::Shelf {
            one_line(item.title, cells, scale)
        } else {
            item.title
        },
        Token::Canvas,
    ).lettered(TypeRole::Label).at(1)
}

/// The plate of a title: its initial and its kind on a plate of its own.
pub open spec fn plate_nodes(item: ItemModel, showcase: Showcase) -> Seq<NodeModel> {
    let plate = plate_art(item.id);
    seq![
        plain(
            card_id(showcase, "-art-"@, item.id),
            Role::Group,
            item.title + " "@ + plate_name(plate) + " identity plate"@,
            Token::Raised,
        ).showing(Picture::Plate(plate)).at(1),
        plain(
            card_id(showcase, "-initial-plate-"@, item.id),
            Role::Text,
            initial(item.title),
            Token::Transparent,
        ).lettered(TypeRole::Plate).inked(Token::PlateInk(plate)).centered().at(1),
        plain(
            card_id(showcase, "-plate-kind-"@, item.id),
            Role::Text,
            plate_kind(item),
            Token::Transparent,
        ).lettered(TypeRole::Eyebrow).inked(Token::PlateInk(plate)).centered().at(1),
    ]
}

/// The art of a title, or its plate where it has none that can be shown.
pub open spec fn art_nodes(
    item: ItemModel,
    place: usize,
    showcase: Showcase,
    cells: int,
    scale: int,
) -> Seq<NodeModel> {
    (if item.art is Some && !item.art_failed {
        seq![
            plain(
                card_id(showcase, "-art-"@, item.id),
                Role::Group,
                item.title + " cover art"@,
                Token::RestSurface,
            ).showing(Picture::Art(place)).at(1),
        ]
    } else {
        plate_nodes(item, showcase)
    }) + maybe(showcase != Showcase::Details, title_node(item, showcase, cells, scale))
}

fn show_plate(item: &Item, showcase: Showcase) -> (nodes: Vec<SceneNode>)
    ensures
        node_models(nodes@) == plate_nodes(item@, showcase),
{
    let plate = pick_plate(item.id.as_str());
    let kind = match find_tag(&item.tags, "kind-label:") {
        Some(kind) => raise(kind.as_str()),
        None => raise(sentence_kind(&item.kind)),
    };
    let mut nodes = no_nodes();
    put(
        &mut nodes,
        node(
            name_part(showcase, "-art-", item.id.as_str()).as_str(),
            Role::Group,
            cat3(item.title.as_str(), " ", name_plate(plate)).concat(" identity plate").as_str(),
            Token::Raised,
        ).showing(Picture::Plate(plate)).at(1),
    );
    put(
        &mut nodes,
        node(
            name_part(showcase, "-initial-plate-", item.id.as_str()).as_str(),
            Role::Text,
            first_letter(item.title.as_str()).as_str(),
            Token::Transparent,
        ).lettered(TypeRole::Plate).inked(Token::PlateInk(plate)).centered().at(1),
    );
    put(
        &mut nodes,
        node(
            name_part(showcase, "-plate-kind-", item.id.as_str()).as_str(),
            Role::Text,
            kind.as_str(),
            Token::Transparent,
        ).lettered(TypeRole::Eyebrow).inked(Token::PlateInk(plate)).centered().at(1),
    );
    nodes
}

/// The art of a title, or its plate.
pub fn show_art(item: &Item, place: usize, showcase: Showcase, cells: i64, scale: u16) -> (nodes:
    Vec<SceneNode>)
    ensures
        node_models(nodes@) == art_nodes(item@, place, showcase, cells as int, scale as int),
{
    let mut nodes = if item.art.is_some() && !item.art_failed {
        let mut nodes = no_nodes();
        put(
            &mut nodes,
            node(
                name_part(showcase, "-art-", item.id.as_str()).as_str(),
                Role::Group,
                cat(item.title.as_str(), " cover art").as_str(),
                Token::RestSurface,
            ).showing(Picture::Art(place)).at(1),
        );
        nodes
    } else {
        show_plate(item, showcase)
    };
    let title = if showcase == Showcase::Shelf {
        scale_aware_single_line(item.title.as_str(), cells, scale)
    } else {
        item.title.as_str().to_owned()
    };
    put_if(
        &mut nodes,
        showcase != Showcase::Details,
        node(
            name_part(showcase, "-title-", item.id.as_str()).as_str(),
            Role::Text,
            title.as_str(),
            Token::Canvas,
        ).lettered(TypeRole::Label).at(1),
    );
    nodes
}

/// Whether one of the requirements is a network that cannot be done without.
pub open spec fn needs_network(requirements: Seq<RequirementModel>) -> bool {
    exists|i: int|
        0 <= i < requirements.len() && !(#[trigger] requirements[i]).optional
            && requirements[i].capability == "network"@
}

/// Whether a title can be launched but needs a network.
pub open spec fn wants_network(item: ItemModel) -> bool {
    availability_of(item) is Ready && match best_place(item.variants) {
        Some(place) => needs_network(item.variants[place].requirements),
        None => false,
    }
}

/// The badge of a title.
pub open spec fn badge_node(item: ItemModel, showcase: Showcase, badge: Text) -> NodeModel {
    plain(
        card_id(showcase, "-badge-"@, item.id),
        Role::Text,
        badge,
        Token::Canvas,
    ).lettered(TypeRole::Caption).at(1)
}

/// The reason below a title.
pub open spec fn reason_node(item: ItemModel, showcase: Showcase, reason: Text) -> NodeModel {
    plain(
        card_id(showcase, "-reason-"@, item.id),
        Role::Text,
        reason,
        Token::Canvas,
    ).lettered(TypeRole::Caption).at(1)
}

/// What the badge of a title that cannot be launched says.
pub open spec fn badge_words(availability: AvailabilityModel) -> Text {
    match availability {
        AvailabilityModel::NeedsNetwork { .. } => "⊘ Network"@,
        AvailabilityModel::NeedsSetup { .. } => "⊘ Setup"@,
        AvailabilityModel::IncompatibleRuntime { .. } => "◉ Update"@,
        _ => "⊘ Unavailable"@,
    }
}

/// Why a title cannot be launched, cut to the cells above the footer where the
/// card stands close to it.
pub open spec fn reason_words(availability: AvailabilityModel, reason_cells: Option<int>) -> Text {
    let reason = "⊘ "@ + availability_words(availability, false);
    match reason_cells {
        Some(cells) => ellipsized(reason, cells),
        None => reason,
    }
}

/// The cues of a title that cannot be launched as it is: a badge, a veil over
/// its art, and the reason where there is room for it.
pub open spec fn cue_nodes(
    item: ItemModel,
    showcase: Showcase,
    reasons: bool,
    cells: int,
    badge_cells: int,
    reason_cells: Option<int>,
    scale: int,
) -> Seq<NodeModel> {
    let availability = availability_of(item);
    if availability is Ready {
        if wants_network(item) {
            seq![
                badge_node(item, showcase, one_line("⊘ Network"@, badge_cells, scale)),
            ] + maybe(
                reasons,
                reason_node(item, showcase, one_line("⊘ Network required"@, cells, scale)),
            )
        } else {
            Seq::empty()
        }
    } else if availability is IncompatibleRuntime {
        seq![badge_node(item, showcase, one_line(badge_words(availability), badge_cells, scale))]
    } else {
        Seq::<NodeModel>::empty() + maybe(
            item.art is Some && !item.art_failed,
            plain(
                card_id(showcase, "-veil-"@, item.id),
                Role::Group,
                ""@,
                Token::UnavailableVeil,
            ).at(1),
        ) + seq![
            badge_node(item, showcase, one_line(badge_words(availability), badge_cells, scale)),
        ] + maybe(
            reasons,
            reason_node(
                item,
                showcase,
                one_line(
                    reason_words(availability, reason_cells),
                    cells,
                    if showcase.tight() {
                        scale
                    } else {
                        100
                    },
                ),
            ),
        )
    }
}

fn variant_needs_network(variant: &Variant) -> (answer: bool)
    ensures
        answer == needs_network(variant@.requirements),
{
    let mut next: usize = 0;
    while next < variant.requirements.len()
        invariant
            next <= variant.requirements@.len(),
            forall|i: int|
                0 <= i < next ==> ((#[trigger] variant@.requirements[i]).optional
                    || variant@.requirements[i].capability != "network"@),
        decreases variant.requirements@.len() - next,
    {
        let requirement = &variant.requirements[next];
        if !requirement.optional && same_text(requirement.capability.as_str(), "network") {
            assert(!variant@.requirements[next as int].optional);
            return true;
        }
        next += 1;
    }
    false
}

fn show_badge(item: &Item, showcase: Showcase, badge: &str, cells: i64, scale: u16) -> (made:
    SceneNode)
    ensures
        made@ == badge_node(item@, showcase, one_line(badge@, cells as int, scale as int)),
{
    node(
        name_part(showcase, "-badge-", item.id.as_str()).as_str(),
        Role::Text,
        scale_aware_single_line(badge, cells, scale).as_str(),
        Token::Canvas,
    ).lettered(TypeRole::Caption).at(1)
}

fn show_reason(item: &Item, showcase: Showcase, reason: &str, cells: i64, scale: u16) -> (made:
    SceneNode)
    ensures
        made@ == reason_node(item@, showcase, one_line(reason@, cells as int, scale as int)),
{
    node(
        name_part(showcase, "-reason-", item.id.as_str()).as_str(),
        Role::Text,
        scale_aware_single_line(reason, cells, scale).as_str(),
        Token::Canvas,
    ).lettered(TypeRole::Caption).at(1)
}

fn badge_text(availability: &Availability) -> (badge: &'static str)
    ensures
        badge@ == badge_words(availability@),
{
    match availability {
        Availability::NeedsNetwork { .. } => "⊘ Network",
        Availability::NeedsSetup { .. } => "⊘ Setup",
        Availability::IncompatibleRuntime { .. } => "◉ Update",
        _ => "⊘ Unavailable",
    }
}

/// The cues of a title that cannot be launched as it is.
pub fn show_cues(
    item: &Item,
    showcase: Showcase,
    reasons: bool,
    cells: i64,
    badge_cells: i64,
    reason_cells: Option<i64>,
    scale: u16,
) -> (nodes: Vec<SceneNode>)
    ensures
        node_models(nodes@) == cue_nodes(
            item@,
            showcase,
            reasons,
            cells as int,
            badge_cells as int,
            match reason_cells {
                Some(cells) => Some(cells as int),
                None => None,
            },
            scale as int,
        ),
{
    let availability = item.best_availability();
    let mut nodes = no_nodes();
    if availability.is_ready() {
        let wanted = match item.best_variant() {
            Some(variant) => variant_needs_network(variant),
            None => false,
        };
        if wanted {
            put(&mut nodes, show_badge(item, showcase, "⊘ Network", badge_cells, scale));
            put_if(
                &mut nodes,
                reasons,
                show_reason(item, showcase, "⊘ Network required", cells, scale),
            );
        }
        return nodes;
    }
    let badge = show_badge(item, showcase, badge_text(&availability), badge_cells, scale);
    if let Availability::IncompatibleRuntime { .. } = availability {
        put(&mut nodes, badge);
        return nodes;
    }
    put_if(
        &mut nodes,
        item.art.is_some() && !item.art_failed,
        node(
            name_part(showcase, "-veil-", item.id.as_str()).as_str(),
            Role::Group,
            "",
            Token::UnavailableVeil,
        ).at(1),
    );
    let mut tail = no_nodes();
    put(&mut tail, badge);
    put_all(&mut nodes, tail);
    let reason = cat("⊘ ", availability_text(&availability, false).as_str());
    let reason = match reason_cells {
        Some(cells) => ellipsize_to_cells(reason.as_str(), cells),
        None => reason,
    };
    let reason_scale: u16 = if showcase == Showcase::Shelf || showcase == Showcase::Library {
        scale
    } else {
        100
    };
    put_if(&mut nodes, reasons, show_reason(item, showcase, reason.as_str(), cells, reason_scale));
    nodes
}

/// The star of a favorite.
pub open spec fn pin_node(item: ItemModel) -> NodeModel {
    plain("favorite-pin-"@ + item.id, Role::Text, "★"@, Token::Scrim).lettered(
        TypeRole::Caption,
    ).at(1)
}

/// The star of a favorite.
pub fn show_pin(item: &Item) -> (made: SceneNode)
    ensures
        made@ == pin_node(item@),
{
    node(
        cat("favorite-pin-", item.id.as_str()).as_str(),
        Role::Text,
        "★",
        Token::Scrim,
    ).lettered(TypeRole::Caption).at(1)
}

/// Whether a node is dropped from a card of the library, which has its title
/// elsewhere.
pub open spec fn dropped(node: NodeModel) -> bool {
    holds(node.id, "-title-"@) || holds(node.id, "-label-mask-"@)
}

/// The first nodes without those that are dropped.
pub open spec fn kept(nodes: Seq<NodeModel>, upto: int) -> Seq<NodeModel>
    decreases upto,
{
    if upto <= 0 {
        Seq::empty()
    } else if dropped(nodes[upto - 1]) {
        kept(nodes, upto - 1)
    } else {
        kept(nodes, upto - 1).push(nodes[upto - 1])
    }
}

/// The place of the first node with an id.
pub open spec fn node_place(nodes: Seq<NodeModel>, id: Text, from: int) -> Option<int>
    decreases nodes.len() - from,
{
    if from < 0 || from >= nodes.len() {
        None
    } else if nodes[from].id == id {
        Some(from)
    } else {
        node_place(nodes, id, from + 1)
    }
}

/// The nodes with the focus on the first node with an id.
pub open spec fn ringed(nodes: Seq<NodeModel>, id: Text) -> Seq<NodeModel> {
    match node_place(nodes, id, 0) {
        Some(place) => nodes.update(
            place,
            NodeModel {
                look: crate::scene::Look { token: Token::FocusedRing, ..nodes[place].look },
                ..nodes[place].focused(true)
            },
        ),
        None => nodes,
    }
}

/// Drops the nodes that a card of the library has elsewhere.
pub fn keep_nodes(nodes: &Vec<SceneNode>) -> (rest: Vec<SceneNode>)
    ensures
        node_models(rest@) == kept(node_models(nodes@), nodes@.len() as int),
{
    let ghost models = node_models(nodes@);
    let mut rest = no_nodes();
    let mut next: usize = 0;
    while next < nodes.len()
        invariant
            next <= nodes@.len(),
            models == node_models(nodes@),
            node_models(rest@) == kept(models, next as int),
        decreases nodes@.len() - next,
    {
        let id = nodes[next].id.as_str();
        if !contains_text(id, "-title-") && !contains_text(id, "-label-mask-") {
            put(&mut rest, nodes[next].copy());
        }
        next += 1;
    }
    rest
}

/// Puts the focus on the first node with an id.
pub fn ring_node(nodes: &mut Vec<SceneNode>, id: &str)
    ensures
        node_models(final(nodes)@) == ringed(node_models(old(nodes)@), id@),
{
    let ghost models = node_models(nodes@);
    let mut next: usize = 0;
    while next < nodes.len()
        invariant
            next <= nodes@.len(),
            nodes@ == old(nodes)@,
            models == node_models(nodes@),
            node_place(models, id@, 0) == node_place(models, id@, next as int),
        decreases nodes@.len() - next,
    {
        if same_text(nodes[next].id.as_str(), id) {
            nodes[next].look.token = Token::FocusedRing;
            nodes[next].state.focused = true;
            proof {
                assert(node_models(nodes@) =~= ringed(models, id@));
            }
            return;
        }
        next += 1;
    }
}

} // verus!
