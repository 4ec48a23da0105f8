//! The scene of the home route: what can be played right now.

use crate::cards::{art_nodes, cue_nodes, pin_node, show_art, show_cues, show_pin, Showcase};
use crate::catalog::{Availability, AvailabilityModel, Item, ItemModel};
use crate::library::{find_shelf, shelf};
use crate::navigation::{floored, least};
use crate::scene::{
    maybe, no_nodes, node, node_models, plain, put, put_all, put_if, NodeModel, Picture, Role,
    SceneNode, Token, TypeRole,
};
use crate::state::{Presentation, ShellCore, ShellModel};
use crate::surface::SurfaceFacts;
use crate::text::{cat, cat3, decimal, decimal_text, Text};
use crate::titles::{
    availability_of, capability_cue, capability_of, first_ready, kind_word,
    ready_variant_capability_cue, sentence_kind,
};
use vstd::prelude::*;
use vstd::string::*;

verus! {

broadcast use {
    crate::textlist::group_texts,
    crate::catalog::group_catalog_models,
    crate::scene::group_node_models,
};

/// What the hero says about the availability of a title.
pub open spec fn hero_words(item: ItemModel, starting: bool) -> Text {
    let kind = kind_word(item.kind);
    match availability_of(item) {
        AvailabilityModel::Ready => (if starting {
            "● Starting · "@
        } else {
            "● Ready · "@
        }) + kind + " · "@ + (match first_ready(item.variants, 0) {
            Some(place) => capability_cue(
                capability_of(item.variants[place].provenance.runtime_family),
            ),
            None => "Source availability unknown"@,
        }),
        AvailabilityModel::NeedsSetup { .. } => "⊘ Needs setup · "@ + kind,
        AvailabilityModel::NeedsNetwork { .. } => "⊘ Network required · "@ + kind,
        _ => "⊘ Unavailable · "@ + kind,
    }
}

/// What the hero says about the title in focus, and how long it was played
/// where that is known.
pub open spec fn hero_status(item: Option<ItemModel>, starting: bool) -> Text {
    match item {
        Some(item) => hero_words(item, starting) + (match item.playtime_fact {
            Some(fact) => " · "@ + fact,
            None => ""@,
        }),
        None => "⊘ Unavailable · Game"@,
    }
}

/// Where what is shown of a list begins: as early as still shows the focus, and
/// no later than the end of the list needs.
pub open spec fn window_from(focus: int, capacity: int, count: int) -> int {
    least(floored(focus - floored(capacity - 1)), floored(count - capacity))
}

/// Where what is shown of a list begins.
pub fn find_window(focus: usize, capacity: usize, count: usize) -> (from: usize)
    ensures
        from == window_from(focus as int, capacity as int, count as int),
{
    let before: usize = if capacity > 0 {
        capacity - 1
    } else {
        0
    };
    let reach: usize = if focus > before {
        focus - before
    } else {
        0
    };
    let most: usize = if count > capacity {
        count - capacity
    } else {
        0
    };
    if reach <= most {
        reach
    } else {
        most
    }
}

/// The focus is always among what is shown of a list.
pub proof fn law_window_shows_the_focus(focus: int, capacity: int, count: int)
    requires
        1 <= capacity,
        0 <= focus < count,
    ensures
        window_from(focus, capacity, count) <= focus < window_from(focus, capacity, count)
            + capacity,
        0 <= window_from(focus, capacity, count),
{
}

/// What is shown of a list is filled as far as the list reaches.
pub proof fn law_window_is_full(focus: int, capacity: int, count: int)
    requires
        1 <= capacity <= count,
        0 <= focus,
    ensures
        window_from(focus, capacity, count) + capacity <= count,
{
}

/// What the pill at the top warns of.
pub open spec fn attention_nodes(message: Text) -> Seq<NodeModel> {
    seq![
        plain("attention-layout-anchor"@, Role::Group, ""@, Token::Transparent),
        plain("attention-pill-border"@, Role::Group, ""@, Token::BorderHairline).at(1),
        plain("attention-pill"@, Role::Group, ""@, Token::Raised).at(2),
        plain("attention-dot"@, Role::Group, ""@, Token::StatusAttention).at(2),
        plain("attention"@, Role::Text, message, Token::Transparent).lettered(
            TypeRole::Caption,
        ).inked(Token::TextSecondary).at(2),
    ]
}

impl ShellModel {
    /// What is warned of: what the device tells, or else that a title had to be
    /// closed.
    pub open spec fn attention(self) -> Option<Text> {
        match self.power.attention_message {
            Some(message) => Some(message),
            None => if self.session.presentation == Presentation::ForcedClose {
                Some("The previous game didn't close cleanly"@)
            } else {
                None
            },
        }
    }

    /// How many cards the shelf shows.
    pub open spec fn shelf_shown(self, facts: SurfaceFacts) -> int {
        let count = shelf(self.titles.items).len() as int;
        if count == 0 {
            1
        } else {
            least(count, facts.shelf_capacity as int)
        }
    }

    /// The first card that the shelf shows.
    pub open spec fn shelf_from(self, facts: SurfaceFacts) -> int {
        window_from(
            self.nav.focus,
            self.shelf_shown(facts),
            shelf(self.titles.items).len() as int,
        )
    }

    /// The nodes of a card of the shelf.
    pub open spec fn shelf_card(self, facts: SurfaceFacts, place: int) -> Seq<NodeModel> {
        let item_place = shelf(self.titles.items)[place];
        let item = self.titles.items[item_place as int];
        let scale = self.comfort.text_scale;
        seq![
            plain("item-"@ + item.id, Role::ListItem, item.title, Token::Canvas).focused(
                place == self.nav.focus,
            ).activated_by(true),
        ] + art_nodes(item, item_place, Showcase::Shelf, facts.shelf_cells as int, scale)
            + cue_nodes(
            item,
            Showcase::Shelf,
            facts.caption_fits,
            facts.shelf_cells as int,
            facts.shelf_badge_cells as int,
            Some(facts.shelf_reason_cells as int),
            scale,
        ) + maybe(item.favorite, pin_node(item))
    }

    /// The nodes of the cards of the shelf before a place.
    pub open spec fn shelf_cards(self, facts: SurfaceFacts, upto: int) -> Seq<NodeModel>
        decreases upto - self.shelf_from(facts),
    {
        if upto <= self.shelf_from(facts) {
            Seq::empty()
        } else {
            self.shelf_cards(facts, upto - 1) + self.shelf_card(facts, upto - 1)
        }
    }

    /// The title in focus.
    pub open spec fn hero(self) -> Option<ItemModel> {
        match self.focused_item() {
            Some(item) => Some(self.titles.items[item]),
            None => None,
        }
    }

    /// The nodes above the shelf.
    pub open spec fn hero_nodes(self) -> Seq<NodeModel> {
        seq![
            plain("home-scroll-region"@, Role::Group, ""@, Token::Canvas),
            plain(
                "hero-wash"@,
                Role::Group,
                "Ridgeline aura: rgba(201,111,87,0.5) to transparent 68%; rgba(58,43,78,0.65) to transparent 70%; layer opacity 0.55"@,
                Token::Transparent,
            ).showing(Picture::HeroWash).inked(Token::UnderlayRole),
        ] + maybe(
            self.comfort.text_scale < 200,
            plain(
                "route-heading"@,
                Role::Heading,
                if self.session.just_returned {
                    "RECENT · JUST NOW"@
                } else {
                    "RECENT · TONIGHT"@
                },
                Token::Transparent,
            ).lettered(TypeRole::Eyebrow).inked(Token::TextMuted),
        ) + seq![
            plain(
                "hero-title"@,
                Role::Heading,
                match self.hero() {
                    Some(item) => item.title,
                    None => "Nothing ready"@,
                },
                Token::Transparent,
            ).lettered(TypeRole::Hero).inked(Token::TextPrimary),
            plain(
                "hero-status"@,
                Role::Text,
                hero_status(self.hero(), self.session.presentation == Presentation::Starting),
                Token::Transparent,
            ).lettered(TypeRole::Label).inked(Token::StatusReady),
        ]
    }

    /// The nodes of the home route.
    pub open spec fn home_nodes(self, facts: SurfaceFacts) -> Seq<NodeModel> {
        self.hero_nodes() + (match self.attention() {
            Some(message) => attention_nodes(message),
            None => Seq::empty(),
        }) + seq![
            plain(
                "home-shelf-label"@,
                Role::Heading,
                "READY NOW · "@ + decimal_text(shelf(self.titles.items).len()),
                Token::Canvas,
            ).lettered(TypeRole::Eyebrow),
        ] + self.shelf_cards(
            facts,
            least(
                self.shelf_from(facts) + self.shelf_shown(facts),
                shelf(self.titles.items).len() as int,
            ),
        )
    }
}

fn hero_text(item: &Item, starting: bool) -> (text: String)
    ensures
        text@ == hero_words(item@, starting),
{
    let kind = sentence_kind(&item.kind);
    match item.best_availability() {
        Availability::Ready => {
            let cue: &'static str = match item.active_ready_variant() {
                Some(place) => ready_variant_capability_cue(&item.variants[place]),
                None => "Source availability unknown",
            };
            cat3(
                if starting {
                    "● Starting · "
                } else {
                    "● Ready · "
                },
                kind,
                " · ",
            ).concat(cue)
        },
        Availability::NeedsSetup { .. } => cat("⊘ Needs setup · ", kind),
        Availability::NeedsNetwork { .. } => cat("⊘ Network required · ", kind),
        _ => cat("⊘ Unavailable · ", kind),
    }
}

fn show_attention(message: &str) -> (nodes: Vec<SceneNode>)
    ensures
        node_models(nodes@) == attention_nodes(message@),
{
    let mut nodes = no_nodes();
    put(&mut nodes, node("attention-layout-anchor", Role::Group, "", Token::Transparent));
    put(&mut nodes, node("attention-pill-border", Role::Group, "", Token::BorderHairline).at(1));
    put(&mut nodes, node("attention-pill", Role::Group, "", Token::Raised).at(2));
    put(&mut nodes, node("attention-dot", Role::Group, "", Token::StatusAttention).at(2));
    put(
        &mut nodes,
        node("attention", Role::Text, message, Token::Transparent).lettered(
            TypeRole::Caption,
        ).inked(Token::TextSecondary).at(2),
    );
    nodes
}

impl ShellCore {
    fn show_hero(&self) -> (nodes: Vec<SceneNode>)
        requires
            self.wf(),
        ensures
            node_models(nodes@) == self@.hero_nodes(),
    {
        let starting = self.session.presentation == Presentation::Starting;
        let mut nodes = no_nodes();
        put(&mut nodes, node("home-scroll-region", Role::Group, "", Token::Canvas));
        put(
            &mut nodes,
            node(
                "hero-wash",
                Role::Group,
                "Ridgeline aura: rgba(201,111,87,0.5) to transparent 68%; rgba(58,43,78,0.65) to transparent 70%; layer opacity 0.55",
                Token::Transparent,
            ).showing(Picture::HeroWash).inked(Token::UnderlayRole),
        );
        put_if(
            &mut nodes,
            self.comfort.text_scale < 200,
            node(
                "route-heading",
                Role::Heading,
                if self.session.just_returned {
                    "RECENT · JUST NOW"
                } else {
                    "RECENT · TONIGHT"
                },
                Token::Transparent,
            ).lettered(TypeRole::Eyebrow).inked(Token::TextMuted),
        );
        let (title, status): (String, String) = match self.focused_item_index() {
            Some(place) => {
                let item = &self.titles.items[place];
                let words = hero_text(item, starting);
                (
                    item.title.as_str().to_owned(),
                    match &item.playtime_fact {
                        Some(fact) => words.concat(cat(" · ", fact.as_str()).as_str()),
                        None => words.concat(""),
                    },
                )
            },
            None => ("Nothing ready".to_owned(), "⊘ Unavailable · Game".to_owned()),
        };
        let mut hero = no_nodes();
        put(
            &mut hero,
            node("hero-title", Role::Heading, title.as_str(), Token::Transparent).lettered(
                TypeRole::Hero,
            ).inked(Token::TextPrimary),
        );
        put(
            &mut hero,
            node("hero-status", Role::Text, status.as_str(), Token::Transparent).lettered(
                TypeRole::Label,
            ).inked(Token::StatusReady),
        );
        put_all(&mut nodes, hero);
        nodes
    }

    fn show_shelf_card(&self, facts: &SurfaceFacts, places: &Vec<usize>, place: usize) -> (nodes:
        Vec<SceneNode>)
        requires
            places@ == shelf(self@.titles.items),
            place < places@.len(),
            places@[place as int] < self.titles.items@.len(),
        ensures
            node_models(nodes@) == self@.shelf_card(*facts, place as int),
    {
        let item_place = places[place];
        let item = &self.titles.items[item_place];
        let scale = self.comfort.text_scale;
        let mut nodes = no_nodes();
        put(
            &mut nodes,
            node(
                cat("item-", item.id.as_str()).as_str(),
                Role::ListItem,
                item.title.as_str(),
                Token::Canvas,
            ).focused(place == self.nav.focus).activated_by(true),
        );
        put_all(&mut nodes, show_art(item, item_place, Showcase::Shelf, facts.shelf_cells, scale));
        put_all(
            &mut nodes,
            show_cues(
                item,
                Showcase::Shelf,
                facts.caption_fits,
                facts.shelf_cells,
                facts.shelf_badge_cells,
                Some(facts.shelf_reason_cells),
                scale,
            ),
        );
        put_if(&mut nodes, item.favorite, show_pin(item));
        nodes
    }

    fn show_shelf(&self, facts: &SurfaceFacts) -> (nodes: Vec<SceneNode>)
        requires
            self.wf(),
            facts.wf(),
        ensures
            node_models(nodes@) == seq![
                plain(
                    "home-shelf-label"@,
                    Role::Heading,
                    "READY NOW · "@ + decimal_text(shelf(self@.titles.items).len()),
                    Token::Canvas,
                ).lettered(TypeRole::Eyebrow),
            ] + self@.shelf_cards(
                *facts,
                least(
                    self@.shelf_from(*facts) + self@.shelf_shown(*facts),
                    shelf(self@.titles.items).len() as int,
                ),
            ),
    {
        assert(self.titles.items@.len() <= crate::state::most_items()) by {
            self@.lemma_sizes();
        }
        let places = find_shelf(&self.titles.items);
        assert(forall|i: int| 0 <= i < places@.len() ==> places@[i] < self.titles.items@.len()) by {
            reveal(crate::state::places_fit);
        }
        let count: usize = places.len();
        let shown: usize = if count == 0 {
            1
        } else if count <= facts.shelf_capacity {
            count
        } else {
            facts.shelf_capacity
        };
        let from: usize = find_window(self.nav.focus, shown, count);
        let end: usize = if count - from <= shown {
            count
        } else {
            from + shown
        };
        let mut cards = no_nodes();
        let mut next: usize = from;
        while next < end
            invariant
                from <= next <= end <= count == places@.len(),
                from == self@.shelf_from(*facts),
                places@ == shelf(self@.titles.items),
                forall|i: int| 0 <= i < places@.len() ==> places@[i] < self.titles.items@.len(),
                node_models(cards@) == self@.shelf_cards(*facts, next as int),
            decreases end - next,
        {
            put_all(&mut cards, self.show_shelf_card(facts, &places, next));
            next += 1;
        }
        let mut nodes = no_nodes();
        put(
            &mut nodes,
            node(
                "home-shelf-label",
                Role::Heading,
                cat("READY NOW · ", decimal(count as u64).as_str()).as_str(),
                Token::Canvas,
            ).lettered(TypeRole::Eyebrow),
        );
        put_all(&mut nodes, cards);
        nodes
    }

    /// The nodes of the home route.
    pub fn show_home(&self, facts: &SurfaceFacts) -> (nodes: Vec<SceneNode>)
        requires
            self.wf(),
            facts.wf(),
        ensures
            node_models(nodes@) == self@.home_nodes(*facts),
    {
        let mut nodes = self.show_hero();
        match &self.power.attention_message {
            Some(message) => put_all(&mut nodes, show_attention(message.as_str())),
            None => if self.session.presentation == Presentation::ForcedClose {
                put_all(&mut nodes, show_attention("The previous game didn't close cleanly"));
            } else {
                put_all(&mut nodes, no_nodes());
            },
        }
        let shelf_nodes = self.show_shelf(facts);
        put_all(&mut nodes, shelf_nodes);
        proof {
            assert(node_models(nodes@) =~= self@.home_nodes(*facts));
        }
        nodes
    }
}

} // verus!
