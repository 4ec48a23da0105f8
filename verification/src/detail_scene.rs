//! The scenes of the details of a title and of the choice between its variants.

use crate::cards::{art_nodes, show_art, Showcase};
use crate::catalog::{Item, ItemModel, Variant, VariantModel};
use crate::home_scene::{find_window, window_from};
use crate::navigation::{least, window_end, window_start};
use crate::playtime::{format_playtime, playtime_text};
use crate::scene::{
    maybe, no_nodes, node, node_models, plain, put, put_all, put_if, BorderWeight, NodeModel, Role,
    SceneNode, Token, TypeRole,
};
use crate::state::{Presentation, ShellCore, ShellModel};
use crate::surface::SurfaceFacts;
use crate::text::{
    cat, cat3, decimal, decimal_text, humanize_identifier, humanized, text_of, Text,
};
use crate::titles::{
    availability_of, availability_text, availability_words, capability_of, detail_provenance_text,
    first_ready, kind_word, lemma_first_ready, provenance_words, ready_label, ready_places,
    ready_variant_capability, ready_variant_label, sentence_kind, ReadyVariantCapability,
};
use vstd::prelude::*;
use vstd::string::*;

verus! {

broadcast use {
    crate::textlist::group_texts,
    crate::catalog::group_catalog_models,
    crate::scene::group_node_models,
};

/// A fact behind a text, where there is one.
pub open spec fn with_fact(text: Text, fact: Option<Text>) -> Text {
    match fact {
        Some(fact) => text + " · "@ + fact,
        None => text,
    }
}

fn add_fact(text: String, fact: &Option<String>) -> (longer: String)
    ensures
        longer@ == with_fact(text@, text_of(*fact)),
{
    match fact {
        Some(fact) => text.concat(" · ").concat(fact.as_str()),
        None => text,
    }
}

/// Where a title comes from, in words.
pub open spec fn source_words(item: ItemModel) -> Text {
    if item.variants.len() > 0 {
        provenance_words(item.kind, item.variants[0])
    } else {
        kind_word(item.kind) + " · Source unavailable"@
    }
}

/// Whether a title can be launched, in words.
pub open spec fn readiness_words(item: ItemModel, starting: bool) -> Text {
    if availability_of(item) is Ready {
        with_fact(with_fact("● Ready"@, item.last_played_fact), item.size_fact)
    } else {
        "⊘ "@ + availability_words(availability_of(item), starting)
    }
}

/// The version of a variant, in words.
pub open spec fn version_words(variant: VariantModel) -> Text {
    match variant.provenance.app_version {
        Some(version) => "Version "@ + version,
        None => "Current version"@,
    }
}

fn version_text(variant: &Variant) -> (text: String)
    ensures
        text@ == version_words(variant@),
{
    match &variant.provenance.app_version {
        Some(version) => cat("Version ", version.as_str()),
        None => "Current version".to_owned(),
    }
}

/// What a row says of its variant in the first line.
pub open spec fn variant_name(variant: VariantModel) -> Text {
    if variant.availability is Ready {
        ready_label(variant)
    } else {
        "⊘ "@ + humanized(variant.id)
    }
}

/// What a row says of its variant in the second line.
pub open spec fn variant_sub(variant: VariantModel, starting: bool) -> Text {
    if variant.availability is Ready {
        let family = variant.provenance.runtime_family;
        version_words(variant) + (if family.len() == 0 {
            ""@
        } else {
            " · "@ + humanized(family)
        }) + (if capability_of(family) == ReadyVariantCapability::Native {
            " · works offline"@
        } else {
            ""@
        })
    } else {
        availability_words(variant.availability, starting)
    }
}

fn name_variant(variant: &Variant) -> (name: String)
    ensures
        name@ == variant_name(variant@),
{
    if variant.availability.is_ready() {
        ready_variant_label(variant)
    } else {
        cat("⊘ ", humanize_identifier(variant.id.as_str()).as_str())
    }
}

fn describe_variant(variant: &Variant, starting: bool) -> (sub: String)
    ensures
        sub@ == variant_sub(variant@, starting),
{
    if variant.availability.is_ready() {
        let family = variant.provenance.runtime_family.as_str();
        let spoken = if family.is_empty() {
            String::new().concat("")
        } else {
            cat(" · ", humanize_identifier(family).as_str())
        };
        let offline = if ready_variant_capability(variant) == ReadyVariantCapability::Native {
            " · works offline"
        } else {
            ""
        };
        proof {
            reveal_strlit("");
            assert(""@ =~= Seq::<char>::empty());
            assert(Seq::<char>::empty() + ""@ =~= ""@);
        }
        version_text(variant).concat(spoken.as_str()).concat(offline)
    } else {
        availability_text(&variant.availability, starting)
    }
}

/// How many variants between two places can be launched.
pub open spec fn ready_count(variants: Seq<VariantModel>, from: int, to: int) -> int
    decreases to - from,
{
    if to <= from {
        0
    } else {
        ready_count(variants, from, to - 1) + (if variants[to - 1].availability is Ready {
            1int
        } else {
            0int
        })
    }
}

impl ShellModel {
    /// Whether a title is being launched.
    pub open spec fn is_starting(self) -> bool {
        self.session.presentation == Presentation::Starting
    }

    /// Whether the focus stands on the row of a variant.
    pub open spec fn variant_focused(self, variants: Seq<VariantModel>, place: int) -> bool {
        variants[place].availability is Ready && self.nav.focus == ready_count(
            variants,
            window_start(variants),
            place + 1,
        ) - 1
    }

    /// The nodes of the row of a variant.
    pub open spec fn variant_nodes(self, variants: Seq<VariantModel>, place: int) -> Seq<NodeModel> {
        let variant = variants[place];
        let ready = variant.availability is Ready;
        let focused = self.variant_focused(variants, place);
        let selected = first_ready(variants, 0) == Some(place);
        let id = "detail-variant-"@ + decimal_text(place as nat);
        let name = variant_name(variant);
        let sub = variant_sub(variant, self.is_starting());
        seq![
            plain(
                id,
                if ready {
                    Role::Button
                } else {
                    Role::Text
                },
                if ready {
                    name + " · "@ + sub
                } else {
                    name
                },
                Token::RestSurface,
            ).focused(focused).unavailable(!ready).selected(selected).framed(
                if focused || selected {
                    Token::SelectedAccent
                } else {
                    Token::BorderHairline
                },
                BorderWeight::Thin,
            ).activated_by(ready),
            plain(id + "-name"@, Role::Text, name, Token::RestSurface).focused(focused).at(1),
            plain(id + "-sub"@, Role::Text, sub, Token::RestSurface).focused(focused).at(1),
        ] + maybe(
            selected,
            plain(id + "-selection-mark"@, Role::Text, "✓"@, Token::RestSurface).centered().inked(
                Token::SelectedAccent,
            ).focused(focused).at(1),
        )
    }

    /// The nodes of the rows of the variants before a place.
    pub open spec fn variants_before(self, variants: Seq<VariantModel>, upto: int) -> Seq<NodeModel>
        decreases upto - window_start(variants),
    {
        if upto <= window_start(variants) {
            Seq::empty()
        } else {
            self.variants_before(variants, upto - 1) + self.variant_nodes(variants, upto - 1)
        }
    }

    /// The rows of the variants, and how many more there are.
    pub open spec fn ways_nodes(self, variants: Seq<VariantModel>) -> Seq<NodeModel> {
        let hidden = variants.len() - (window_end(variants) - window_start(variants));
        self.variants_before(variants, window_end(variants)) + maybe(
            hidden > 0,
            plain(
                "detail-variant-fold"@,
                Role::Text,
                "+"@ + decimal_text(hidden as nat) + " more ways to play"@,
                Token::TextMuted,
            ),
        )
    }

    /// The nodes that describe a title.
    pub open spec fn portrait_nodes(self, place: int) -> Seq<NodeModel> {
        let item = self.titles.items[place];
        seq![
            plain("detail-provenance"@, Role::Text, source_words(item), Token::Canvas).lettered(
                TypeRole::Caption,
            ).inked(Token::TextMuted),
            plain("detail-title"@, Role::Heading, item.title, Token::Canvas).lettered(
                TypeRole::Hero,
            ).inked(Token::TextPrimary),
            plain("detail-cover"@, Role::Group, "Cover for "@ + item.title, Token::Raised).elevated(),
        ] + art_nodes(item, place as usize, Showcase::Details, 0, self.comfort.text_scale) + seq![
            plain(
                "detail-availability-reason"@,
                Role::Text,
                readiness_words(item, self.is_starting()),
                Token::Canvas,
            ).unavailable(!(availability_of(item) is Ready)),
        ] + maybe(
            item.description is Some,
            plain(
                "detail-description"@,
                Role::Text,
                item.description.unwrap_or(""@),
                Token::Canvas,
            ).multiline(true).inked(Token::TextSecondary),
        ) + seq![
            plain("detail-ways-heading"@, Role::Heading, "WAYS TO PLAY"@, Token::Canvas).lettered(
                TypeRole::Eyebrow,
            ),
        ]
    }

    /// The nodes of the button that pins a title.
    pub open spec fn pin_button(self, item: ItemModel, focused: bool) -> Seq<NodeModel> {
        let label = if item.favorite {
            "★ Unpin"@
        } else {
            "★ Pin to favorites"@
        };
        seq![
            plain(
                "detail-pin"@,
                Role::Button,
                label,
                if focused {
                    Token::FocusedRing
                } else {
                    Token::RestSurface
                },
            ).focused(focused).activated_by(true),
            plain("detail-pin-label"@, Role::Text, label, Token::RestSurface).lettered(
                TypeRole::Label,
            ).at(1),
        ]
    }

    /// The nodes of what can be done with a title.
    pub open spec fn deed_nodes(self, item: ItemModel) -> Seq<NodeModel> {
        let ready = ready_places(item.variants, 0).len();
        if ready > 0 {
            let label = if ready == 1 {
                "▶ Play"@
            } else {
                "Choose how to play"@
            };
            let focused = self.nav.focus == self.play_focus().unwrap_or(0);
            seq![
                plain("detail-open"@, Role::Button, label, Token::SelectedAccent).focused(
                    focused,
                ).activated_by(true),
                plain("detail-open-label"@, Role::Text, label, Token::SelectedAccent).lettered(
                    TypeRole::Label,
                ).inked(Token::TextInverse).focused(focused).at(1),
            ] + self.pin_button(item, self.nav.focus == self.pin_focus())
        } else {
            seq![
                plain(
                    "detail-unavailable"@,
                    Role::Text,
                    "No launch action is available"@,
                    Token::UnavailableText,
                ).unavailable(true),
            ] + self.pin_button(item, true)
        }
    }

    /// The nodes of one fact about a title.
    pub open spec fn fact_nodes(id: Text, name: Text, value_id: Text, value: Text) -> Seq<NodeModel> {
        seq![
            plain("detail-fact-"@ + id + "-heading"@, Role::Heading, name, Token::Canvas).lettered(
                TypeRole::Eyebrow,
            ),
            plain(value_id, Role::Text, value, Token::Canvas),
        ]
    }

    /// How long a title was played, in words.
    pub open spec fn played_words(self, item: ItemModel) -> Text {
        playtime_text(self.titles.playtime[item.id])
    }

    /// The nodes of the facts about a title that can be launched.
    pub open spec fn full_facts(self, item: ItemModel, variant: VariantModel) -> Seq<NodeModel> {
        let native = capability_of(variant.provenance.runtime_family)
            == ReadyVariantCapability::Native;
        seq![plain("detail-facts-top-border"@, Role::Group, ""@, Token::BorderHairline)]
            + Self::fact_nodes(
            "developer"@,
            "DEVELOPER"@,
            "detail-fact-developer"@,
            item.developer.unwrap_or(humanized(variant.provenance.provider_id)),
        ) + (if native {
            Self::fact_nodes(
                "installed"@,
                "INSTALLED"@,
                "detail-fact-installed"@,
                version_words(variant),
            )
        } else {
            Seq::empty()
        }) + (if self.titles.playtime.contains_key(item.id) {
            Self::fact_nodes(
                "time-played"@,
                "TIME PLAYED"@,
                "detail-playtime"@,
                self.played_words(item),
            )
        } else {
            Seq::empty()
        }) + (if native {
            Self::fact_nodes("offline"@, "WORKS OFFLINE"@, "detail-fact-offline"@, "Yes"@)
        } else {
            Seq::empty()
        })
    }

    /// The nodes of the facts about a title, as far as they fit.
    pub open spec fn shown_facts(self, facts: SurfaceFacts, item: ItemModel) -> Seq<NodeModel> {
        if !facts.facts_fit {
            Seq::empty()
        } else if first_ready(item.variants, 0) is Some && !facts.small() {
            self.full_facts(item, item.variants[first_ready(item.variants, 0)->0])
        } else if self.titles.playtime.contains_key(item.id) {
            seq![
                plain("detail-facts-top-border"@, Role::Group, ""@, Token::BorderHairline),
                plain(
                    "detail-time-played-heading"@,
                    Role::Heading,
                    "TIME PLAYED"@,
                    Token::Canvas,
                ).lettered(TypeRole::Eyebrow),
                plain("detail-playtime"@, Role::Text, self.played_words(item), Token::Canvas),
            ]
        } else {
            Seq::empty()
        }
    }

    /// The nodes of the details.
    pub open spec fn detail_nodes(self, facts: SurfaceFacts) -> Seq<NodeModel> {
        match self.nav.selected_item {
            Some(place) => {
                let item = self.titles.items[place];
                self.portrait_nodes(place) + self.ways_nodes(item.variants) + self.deed_nodes(item)
                    + self.shown_facts(facts, item)
            },
            None => Seq::empty(),
        }
    }

    /// The node of a variant that can be chosen.
    pub open spec fn choice_node(self, variant: VariantModel, choice: int) -> NodeModel {
        plain(
            "chooser-"@ + variant.id,
            Role::Button,
            humanized(variant.id) + " · Ready"@,
            if self.nav.focus == choice {
                Token::FocusedRing
            } else {
                Token::RestSurface
            },
        ).focused(self.nav.focus == choice).activated_by(true)
    }

    /// The first variant that is shown for a choice, of those that can be
    /// launched. Five are shown at once.
    pub open spec fn choices_from(self, variants: Seq<VariantModel>) -> int {
        window_from(self.nav.focus, 5, ready_places(variants, 0).len() as int)
    }

    /// The nodes of the choices before a place.
    pub open spec fn choices_before(self, variants: Seq<VariantModel>, upto: int) -> Seq<NodeModel>
        decreases upto - self.choices_from(variants),
    {
        if upto <= self.choices_from(variants) {
            Seq::empty()
        } else {
            self.choices_before(variants, upto - 1).push(
                self.choice_node(variants[ready_places(variants, 0)[upto - 1]], upto - 1),
            )
        }
    }

    /// The nodes of the choice between the variants of a title.
    pub open spec fn chooser_nodes(self) -> Seq<NodeModel> {
        let heading = plain(
            "route-heading"@,
            Role::Heading,
            "HOW DO YOU WANT TO PLAY?"@,
            Token::Canvas,
        ).lettered(TypeRole::Eyebrow);
        match self.nav.selected_item {
            Some(place) => {
                let variants = self.titles.items[place].variants;
                seq![
                    heading,
                    plain(
                        "chooser-note"@,
                        Role::Text,
                        "Ready right now. Back leaves without opening anything."@,
                        Token::Canvas,
                    ),
                    plain("chooser-scroll-region"@, Role::Group, ""@, Token::Canvas),
                ] + self.choices_before(
                    variants,
                    least(
                        self.choices_from(variants) + 5,
                        ready_places(variants, 0).len() as int,
                    ),
                )
            },
            None => seq![heading],
        }
    }
}

impl ShellCore {
    fn show_variant(&self, item: &Item, place: usize, turn: usize) -> (nodes: Vec<SceneNode>)
        requires
            place < item.variants@.len(),
            turn == ready_count(item@.variants, window_start(item@.variants), place + 1),
        ensures
            node_models(nodes@) == self@.variant_nodes(item@.variants, place as int),
    {
        let variant = &item.variants[place];
        let ready = variant.availability.is_ready();
        let focused = ready && turn > 0 && self.nav.focus == turn - 1;
        let selected = match item.active_ready_variant() {
            Some(active) => active == place,
            None => false,
        };
        let id = cat("detail-variant-", decimal(place as u64).as_str());
        let name = name_variant(variant);
        let sub = describe_variant(variant, self.session.presentation == Presentation::Starting);
        let label = if ready {
            cat3(name.as_str(), " · ", sub.as_str())
        } else {
            name.as_str().to_owned()
        };
        let mut nodes = no_nodes();
        put(
            &mut nodes,
            node(
                id.as_str(),
                if ready {
                    Role::Button
                } else {
                    Role::Text
                },
                label.as_str(),
                Token::RestSurface,
            ).focused(focused).unavailable(!ready).selected(selected).framed(
                if focused || selected {
                    Token::SelectedAccent
                } else {
                    Token::BorderHairline
                },
                BorderWeight::Thin,
            ).activated_by(ready),
        );
        put(
            &mut nodes,
            node(
                cat(id.as_str(), "-name").as_str(),
                Role::Text,
                name.as_str(),
                Token::RestSurface,
            ).focused(focused).at(1),
        );
        put(
            &mut nodes,
            node(
                cat(id.as_str(), "-sub").as_str(),
                Role::Text,
                sub.as_str(),
                Token::RestSurface,
            ).focused(focused).at(1),
        );
        put_if(
            &mut nodes,
            selected,
            node(
                cat(id.as_str(), "-selection-mark").as_str(),
                Role::Text,
                "✓",
                Token::RestSurface,
            ).centered().inked(Token::SelectedAccent).focused(focused).at(1),
        );
        nodes
    }

    fn show_ways(&self, place: usize) -> (nodes: Vec<SceneNode>)
        requires
            place < self.titles.items@.len(),
        ensures
            node_models(nodes@) == self@.ways_nodes(self@.titles.items[place as int].variants),
    {
        let item = &self.titles.items[place];
        let ghost variants = item@.variants;
        let shown = self.detail_visible_variants(place);
        proof {
            lemma_first_ready(variants, 0);
        }
        let ghost start = window_start(variants);
        let mut nodes = no_nodes();
        let mut turn: usize = 0;
        let mut next: usize = 0;
        while next < shown.len()
            invariant
                next <= shown@.len() <= 2,
                turn <= next,
                variants == item@.variants,
                start == window_start(variants),
                0 <= start,
                window_end(variants) <= variants.len(),
                shown@.len() == window_end(variants) - start,
                forall|i: int| 0 <= i < shown@.len() ==> shown@[i] == start + i,
                turn == ready_count(variants, start, start + next),
                node_models(nodes@) == self@.variants_before(variants, start + next),
            decreases shown@.len() - next,
        {
            let index: usize = shown[next];
            if item.variants[index].availability.is_ready() {
                turn += 1;
            }
            put_all(&mut nodes, self.show_variant(item, index, turn));
            next += 1;
        }
        let hidden: usize = item.variants.len() - shown.len();
        put_if(
            &mut nodes,
            hidden > 0,
            node(
                "detail-variant-fold",
                Role::Text,
                cat3("+", decimal(hidden as u64).as_str(), " more ways to play").as_str(),
                Token::TextMuted,
            ),
        );
        nodes
    }

    fn show_portrait(&self, place: usize) -> (nodes: Vec<SceneNode>)
        requires
            place < self.titles.items@.len(),
        ensures
            node_models(nodes@) == self@.portrait_nodes(place as int),
    {
        let item = &self.titles.items[place];
        let starting = self.session.presentation == Presentation::Starting;
        let source = if item.variants.len() > 0 {
            detail_provenance_text(&item.kind, &item.variants[0])
        } else {
            cat(sentence_kind(&item.kind), " · Source unavailable")
        };
        let availability = item.best_availability();
        let ready = availability.is_ready();
        let words = if ready {
            add_fact(add_fact("● Ready".to_owned(), &item.last_played_fact), &item.size_fact)
        } else {
            cat("⊘ ", availability_text(&availability, starting).as_str())
        };
        let mut nodes = no_nodes();
        put(
            &mut nodes,
            node("detail-provenance", Role::Text, source.as_str(), Token::Canvas).lettered(
                TypeRole::Caption,
            ).inked(Token::TextMuted),
        );
        put(
            &mut nodes,
            node("detail-title", Role::Heading, item.title.as_str(), Token::Canvas).lettered(
                TypeRole::Hero,
            ).inked(Token::TextPrimary),
        );
        put(
            &mut nodes,
            node(
                "detail-cover",
                Role::Group,
                cat("Cover for ", item.title.as_str()).as_str(),
                Token::Raised,
            ).elevated(),
        );
        put_all(&mut nodes, show_art(item, place, Showcase::Details, 0, self.comfort.text_scale));
        let mut reason = no_nodes();
        put(
            &mut reason,
            node(
                "detail-availability-reason",
                Role::Text,
                words.as_str(),
                Token::Canvas,
            ).unavailable(!ready),
        );
        put_all(&mut nodes, reason);
        let description: &str = match &item.description {
            Some(description) => description.as_str(),
            None => "",
        };
        put_if(
            &mut nodes,
            item.description.is_some(),
            node("detail-description", Role::Text, description, Token::Canvas).multiline(
                true,
            ).inked(Token::TextSecondary),
        );
        let mut heading = no_nodes();
        put(
            &mut heading,
            node("detail-ways-heading", Role::Heading, "WAYS TO PLAY", Token::Canvas).lettered(
                TypeRole::Eyebrow,
            ),
        );
        put_all(&mut nodes, heading);
        nodes
    }

    fn show_pin_button(&self, item: &Item, focused: bool) -> (nodes: Vec<SceneNode>)
        ensures
            node_models(nodes@) == self@.pin_button(item@, focused),
    {
        let label = if item.favorite {
            "★ Unpin"
        } else {
            "★ Pin to favorites"
        };
        let mut nodes = no_nodes();
        put(
            &mut nodes,
            node(
                "detail-pin",
                Role::Button,
                label,
                if focused {
                    Token::FocusedRing
                } else {
                    Token::RestSurface
                },
            ).focused(focused).activated_by(true),
        );
        put(
            &mut nodes,
            node("detail-pin-label", Role::Text, label, Token::RestSurface).lettered(
                TypeRole::Label,
            ).at(1),
        );
        nodes
    }

    fn show_deeds(&self, item: &Item) -> (nodes: Vec<SceneNode>)
        requires
            self.wf(),
        ensures
            node_models(nodes@) == self@.deed_nodes(item@),
    {
        let ready = item.ready_variants();
        proof {
            assert(ready@.map_values(|place: usize| place as int).len() == ready@.len());
        }
        let mut nodes = no_nodes();
        if ready.len() > 0 {
            let label = if ready.len() == 1 {
                "▶ Play"
            } else {
                "Choose how to play"
            };
            let play: usize = match self.detail_play_focus() {
                Some(play) => play,
                None => 0,
            };
            let focused = self.nav.focus == play;
            put(
                &mut nodes,
                node("detail-open", Role::Button, label, Token::SelectedAccent).focused(
                    focused,
                ).activated_by(true),
            );
            put(
                &mut nodes,
                node("detail-open-label", Role::Text, label, Token::SelectedAccent).lettered(
                    TypeRole::Label,
                ).inked(Token::TextInverse).focused(focused).at(1),
            );
            let pinned = self.nav.focus == self.detail_pin_focus();
            put_all(&mut nodes, self.show_pin_button(item, pinned));
        } else {
            put(
                &mut nodes,
                node(
                    "detail-unavailable",
                    Role::Text,
                    "No launch action is available",
                    Token::UnavailableText,
                ).unavailable(true),
            );
            put_all(&mut nodes, self.show_pin_button(item, true));
        }
        nodes
    }

    fn show_fact(id: &str, name: &str, value_id: &str, value: &str) -> (nodes: Vec<SceneNode>)
        ensures
            node_models(nodes@) == ShellModel::fact_nodes(id@, name@, value_id@, value@),
    {
        let mut nodes = no_nodes();
        put(
            &mut nodes,
            node(
                cat3("detail-fact-", id, "-heading").as_str(),
                Role::Heading,
                name,
                Token::Canvas,
            ).lettered(TypeRole::Eyebrow),
        );
        put(&mut nodes, node(value_id, Role::Text, value, Token::Canvas));
        nodes
    }

    fn show_full_facts(&self, item: &Item, variant: &Variant) -> (nodes: Vec<SceneNode>)
        ensures
            node_models(nodes@) == self@.full_facts(item@, variant@),
    {
        let native = ready_variant_capability(variant) == ReadyVariantCapability::Native;
        let developer = match &item.developer {
            Some(developer) => developer.as_str().to_owned(),
            None => humanize_identifier(variant.provenance.provider_id.as_str()),
        };
        let mut nodes = no_nodes();
        put(&mut nodes, node("detail-facts-top-border", Role::Group, "", Token::BorderHairline));
        put_all(
            &mut nodes,
            Self::show_fact(
                "developer",
                "DEVELOPER",
                "detail-fact-developer",
                developer.as_str(),
            ),
        );
        if native {
            put_all(
                &mut nodes,
                Self::show_fact(
                    "installed",
                    "INSTALLED",
                    "detail-fact-installed",
                    version_text(variant).as_str(),
                ),
            );
        } else {
            put_all(&mut nodes, no_nodes());
        }
        match self.titles.playtime.get(item.id.as_str()) {
            Some(playtime) => put_all(
                &mut nodes,
                Self::show_fact(
                    "time-played",
                    "TIME PLAYED",
                    "detail-playtime",
                    format_playtime(playtime).as_str(),
                ),
            ),
            None => put_all(&mut nodes, no_nodes()),
        }
        if native {
            put_all(
                &mut nodes,
                Self::show_fact("offline", "WORKS OFFLINE", "detail-fact-offline", "Yes"),
            );
        } else {
            put_all(&mut nodes, no_nodes());
        }
        nodes
    }

    fn show_facts(&self, facts: &SurfaceFacts, item: &Item) -> (nodes: Vec<SceneNode>)
        ensures
            node_models(nodes@) == self@.shown_facts(*facts, item@),
    {
        if !facts.facts_fit {
            return no_nodes();
        }
        if !facts.compact() {
            if let Some(place) = item.active_ready_variant() {
                return self.show_full_facts(item, &item.variants[place]);
            }
        }
        let mut nodes = no_nodes();
        if let Some(playtime) = self.titles.playtime.get(item.id.as_str()) {
            put(
                &mut nodes,
                node("detail-facts-top-border", Role::Group, "", Token::BorderHairline),
            );
            put(
                &mut nodes,
                node(
                    "detail-time-played-heading",
                    Role::Heading,
                    "TIME PLAYED",
                    Token::Canvas,
                ).lettered(TypeRole::Eyebrow),
            );
            put(
                &mut nodes,
                node(
                    "detail-playtime",
                    Role::Text,
                    format_playtime(playtime).as_str(),
                    Token::Canvas,
                ),
            );
        }
        nodes
    }

    /// The nodes of the details.
    pub fn show_details(&self, facts: &SurfaceFacts) -> (nodes: Vec<SceneNode>)
        requires
            self.wf(),
        ensures
            node_models(nodes@) == self@.detail_nodes(*facts),
    {
        match self.nav.selected_item {
            Some(place) => {
                assert(place < self.titles.items@.len()) by {
                    reveal(ShellModel::ok);
                }
                let item = &self.titles.items[place];
                let mut nodes = self.show_portrait(place);
                put_all(&mut nodes, self.show_ways(place));
                put_all(&mut nodes, self.show_deeds(item));
                put_all(&mut nodes, self.show_facts(facts, item));
                nodes
            },
            None => no_nodes(),
        }
    }

    fn show_choices(&self, item: &Item) -> (nodes: Vec<SceneNode>)
        ensures
            node_models(nodes@) == self@.choices_before(
                item@.variants,
                least(
                    self@.choices_from(item@.variants) + 5,
                    ready_places(item@.variants, 0).len() as int,
                ),
            ),
    {
        let ghost variants = item@.variants;
        let ready = item.ready_variants();
        let ghost places = ready@.map_values(|place: usize| place as int);
        let count: usize = ready.len();
        let from: usize = find_window(self.nav.focus, 5, count);
        let end: usize = if count - from <= 5 {
            count
        } else {
            from + 5
        };
        let mut nodes = no_nodes();
        let mut next: usize = from;
        while next < end
            invariant
                from <= next <= end <= count == ready@.len(),
                variants == item@.variants,
                places == ready@.map_values(|place: usize| place as int),
                places == ready_places(variants, 0),
                forall|i: int| 0 <= i < ready@.len() ==> ready@[i] < item.variants@.len(),
                from == self@.choices_from(variants),
                node_models(nodes@) == self@.choices_before(variants, next as int),
            decreases end - next,
        {
            let variant = &item.variants[ready[next]];
            let focused = self.nav.focus == next;
            assert(places[next as int] == ready@[next as int]);
            put(
                &mut nodes,
                node(
                    cat("chooser-", variant.id.as_str()).as_str(),
                    Role::Button,
                    cat(humanize_identifier(variant.id.as_str()).as_str(), " · Ready").as_str(),
                    if focused {
                        Token::FocusedRing
                    } else {
                        Token::RestSurface
                    },
                ).focused(focused).activated_by(true),
            );
            next += 1;
        }
        nodes
    }

    /// The nodes of the choice between the variants of a title.
    pub fn show_chooser(&self) -> (nodes: Vec<SceneNode>)
        requires
            self.wf(),
        ensures
            node_models(nodes@) == self@.chooser_nodes(),
    {
        let mut nodes = no_nodes();
        put(
            &mut nodes,
            node(
                "route-heading",
                Role::Heading,
                "HOW DO YOU WANT TO PLAY?",
                Token::Canvas,
            ).lettered(TypeRole::Eyebrow),
        );
        if let Some(place) = self.nav.selected_item {
            assert(place < self.titles.items@.len()) by {
                reveal(ShellModel::ok);
            }
            put(
                &mut nodes,
                node(
                    "chooser-note",
                    Role::Text,
                    "Ready right now. Back leaves without opening anything.",
                    Token::Canvas,
                ),
            );
            put(&mut nodes, node("chooser-scroll-region", Role::Group, "", Token::Canvas));
            put_all(&mut nodes, self.show_choices(&self.titles.items[place]));
        }
        nodes
    }
}

} // verus!
