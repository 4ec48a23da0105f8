//! The scenes of the library and of a search.

use crate::cards::{
    art_nodes, card_id, cue_nodes, keep_nodes, kept, one_line, pin_node, ring_node, ringed,
    scale_aware_single_line, show_art, show_cues, show_pin, Showcase,
};
use crate::catalog::{AppKind, Item, ItemModel};
use crate::home_scene::{find_window, window_from};
use crate::navigation::{floored, least};
use crate::scene::{
    maybe, no_nodes, node, node_models, plain, put, put_all, put_if, BorderWeight, NodeModel,
    Picture, Role, SceneNode, Token, TypeRole,
};
use crate::state::{places_fit, LibraryFilter, Presentation, ShellCore, ShellModel};
use crate::surface::SurfaceFacts;
use crate::text::{
    cat, cat3, decimal, decimal_text, ellipsize_to_cells, ellipsized, Text,
};
use crate::titles::{
    availability_of, availability_text, availability_words, kind_name, kind_text,
};
use vstd::prelude::*;
use vstd::string::*;

verus! {

broadcast use {
    crate::textlist::group_texts,
    crate::catalog::group_catalog_models,
    crate::scene::group_node_models,
};

/// How many of the first titles are games.
pub open spec fn games_among(items: Seq<ItemModel>, upto: int) -> nat
    decreases upto,
{
    if upto <= 0 {
        0
    } else {
        games_among(items, upto - 1) + (if items[upto - 1].kind == AppKind::Game {
            1nat
        } else {
            0nat
        })
    }
}

fn count_games(items: &Vec<Item>) -> (count: usize)
    ensures
        count == games_among(crate::catalog::item_models(items@), items@.len() as int),
        count <= items@.len(),
{
    let ghost models = crate::catalog::item_models(items@);
    let mut count: usize = 0;
    let mut next: usize = 0;
    while next < items.len()
        invariant
            next <= items@.len(),
            count <= next,
            models == crate::catalog::item_models(items@),
            count == games_among(models, next as int),
        decreases items@.len() - next,
    {
        if items[next].kind == AppKind::Game {
            count += 1;
        }
        next += 1;
    }
    count
}

/// The name of a chip.
pub open spec fn chip_name(index: int) -> Text {
    if index == 0 {
        "Recent"@
    } else if index == 1 {
        "A–Z"@
    } else if index == 2 {
        "Games"@
    } else {
        "Everything else"@
    }
}

/// A side of a chip.
pub open spec fn chip_edge(index: nat, edge: Text) -> NodeModel {
    plain(
        "library-filter-"@ + decimal_text(index) + "-border-"@ + edge,
        Role::Group,
        ""@,
        Token::BorderStrong,
    ).at(1)
}

impl ShellModel {
    /// How many titles a chip counts, where it counts them.
    pub open spec fn chip_count(self, index: int) -> Option<nat> {
        let items = self.titles.items;
        let games = games_among(items, items.len() as int);
        if index == 2 {
            Some(games)
        } else if index == 3 {
            Some((items.len() - games) as nat)
        } else {
            None
        }
    }

    /// The nodes of a chip of the toolbar.
    pub open spec fn chip_nodes(self, facts: SurfaceFacts, index: int) -> Seq<NodeModel> {
        let name = chip_name(index);
        let number = decimal_text(index as nat);
        let active = self.titles.library_filter == LibraryFilter::chip(index);
        let focused = self.nav.focus == index + 1;
        let id = "library-filter-"@ + number;
        seq![
            plain(
                id,
                Role::Button,
                match self.chip_count(index) {
                    Some(count) => name + " · "@ + decimal_text(count),
                    None => name,
                },
                Token::RestSurface,
            ).focused(focused).selected(active).activated_by(true),
        ] + maybe(active, chip_edge(index as nat, "top"@)) + maybe(
            active,
            chip_edge(index as nat, "right"@),
        ) + maybe(active, chip_edge(index as nat, "bottom"@)) + maybe(
            active,
            chip_edge(index as nat, "left"@),
        ) + seq![
            plain(
                id + "-label"@,
                Role::Text,
                one_line(name, facts.chip_cells[index] as int, self.comfort.text_scale),
                Token::RestSurface,
            ).lettered(TypeRole::Label).focused(focused).at(1),
        ] + maybe(
            self.chip_count(index) is Some,
            plain(
                id + "-count"@,
                Role::Text,
                decimal_text(self.chip_count(index).unwrap_or(0)),
                Token::RestSurface,
            ).lettered(TypeRole::Label).focused(focused).at(1),
        ) + maybe(
            active,
            plain(
                "library-selected-underline-"@ + number,
                Role::Group,
                ""@,
                Token::SelectedAccent,
            ),
        )
    }

    /// What the search field of the library says.
    pub open spec fn search_words(self) -> Text {
        "⌕  Search "@ + decimal_text(self.titles.items.len()) + " titles"@
    }

    /// The nodes above the cards of the library.
    pub open spec fn toolbar_nodes(self, facts: SurfaceFacts) -> Seq<NodeModel> {
        seq![
            plain("library-search"@, Role::Button, self.search_words(), Token::RestSurface).focused(
                self.nav.focus == 0,
            ).activated_by(true),
            plain(
                "library-search-placeholder"@,
                Role::Text,
                self.search_words(),
                Token::RestSurface,
            ).lettered(TypeRole::Label).at(1),
        ] + self.chip_nodes(facts, 0) + self.chip_nodes(facts, 1) + self.chip_nodes(facts, 2)
            + self.chip_nodes(facts, 3)
    }

    /// The first row of cards that the library shows.
    pub open spec fn library_from(self, facts: SurfaceFacts) -> int {
        floored(floored(self.nav.focus - 5) / (facts.grid.columns as int) - (facts.library_rows - 1))
    }

    /// Whether the library shows a card.
    pub open spec fn card_shown(self, facts: SurfaceFacts, place: int) -> bool {
        let row = place / (facts.grid.columns as int);
        self.library_from(facts) <= row && row < self.library_from(facts) + facts.library_rows
    }

    /// What a card of the library shows of its title.
    pub open spec fn card_face(self, facts: SurfaceFacts, place: int) -> Seq<NodeModel> {
        let item_place = self.titles.library_items[place];
        let item = self.titles.items[item_place as int];
        let scale = self.comfort.text_scale;
        let shown = art_nodes(item, item_place, Showcase::Library, facts.card_cells as int, scale)
            + cue_nodes(
            item,
            Showcase::Library,
            true,
            facts.card_cells as int,
            facts.card_badge_cells as int,
            None,
            scale,
        );
        let face = kept(shown, shown.len() as int);
        if self.nav.focus == place + 5 {
            ringed(face, card_id(Showcase::Library, "-art-"@, item.id))
        } else {
            face
        }
    }

    /// The nodes of a card of the library.
    pub open spec fn card_nodes(self, facts: SurfaceFacts, place: int) -> Seq<NodeModel> {
        let item = self.titles.items[self.titles.library_items[place] as int];
        seq![
            plain("library-item-"@ + item.id, Role::ListItem, item.title, Token::Canvas).focused(
                self.nav.focus == place + 5,
            ).activated_by(true),
        ] + self.card_face(facts, place) + maybe(item.favorite, pin_node(item)) + seq![
            plain(
                "library-title-"@ + item.id,
                Role::Text,
                one_line(item.title, facts.card_cells as int, self.comfort.text_scale),
                Token::Canvas,
            ).lettered(TypeRole::Label).at(1),
        ]
    }

    /// The nodes of the first cards of the library that are shown.
    pub open spec fn cards_before(self, facts: SurfaceFacts, upto: int) -> Seq<NodeModel>
        decreases upto,
    {
        if upto <= 0 {
            Seq::empty()
        } else if self.card_shown(facts, upto - 1) {
            self.cards_before(facts, upto - 1) + self.card_nodes(facts, upto - 1)
        } else {
            self.cards_before(facts, upto - 1)
        }
    }

    /// The nodes of the library. The fade stands directly before the prompts.
    pub open spec fn library_nodes(self, facts: SurfaceFacts) -> Seq<NodeModel> {
        self.toolbar_nodes(facts) + self.cards_before(
            facts,
            self.titles.library_items.len() as int,
        ) + seq![
            plain("library-grid-footer-fade"@, Role::Group, ""@, Token::Transparent).showing(
                Picture::FooterFade,
            ).inked(Token::OverlayRole),
        ]
    }
}

/// The card in focus is always shown.
pub proof fn law_library_shows_the_focus(shell: ShellModel, facts: SurfaceFacts)
    requires
        facts.wf(),
        shell.nav.focus >= 5,
    ensures
        shell.card_shown(facts, shell.nav.focus - 5),
{
}

fn show_edge(index: u64, edge: &str) -> (made: SceneNode)
    ensures
        made@ == chip_edge(index as nat, edge@),
{
    node(
        cat3("library-filter-", decimal(index).as_str(), "-border-").concat(edge).as_str(),
        Role::Group,
        "",
        Token::BorderStrong,
    ).at(1)
}

impl ShellCore {
    /// The name of a chip of the toolbar, and how many titles it counts, where it
    /// counts them.
    pub fn chip_caption(&self, index: usize) -> (caption: (&'static str, Option<usize>))
        requires
            index < 4,
        ensures
            caption.0@ == chip_name(index as int),
            match caption.1 {
                Some(count) => self@.chip_count(index as int) == Some(count as nat),
                None => self@.chip_count(index as int) is None,
            },
    {
        if index == 0 {
            ("Recent", None)
        } else if index == 1 {
            ("A–Z", None)
        } else if index == 2 {
            ("Games", Some(count_games(&self.titles.items)))
        } else {
            ("Everything else", Some(self.titles.items.len() - count_games(&self.titles.items)))
        }
    }

    fn show_chip(&self, facts: &SurfaceFacts, index: usize) -> (nodes: Vec<SceneNode>)
        requires
            index < 4,
        ensures
            node_models(nodes@) == self@.chip_nodes(*facts, index as int),
    {
        let (name, count) = self.chip_caption(index);
        let filter = if index == 0 {
            LibraryFilter::Recent
        } else if index == 1 {
            LibraryFilter::Alphabetical
        } else if index == 2 {
            LibraryFilter::Games
        } else {
            LibraryFilter::EverythingElse
        };
        let active = self.titles.library_filter == filter;
        let focused = self.nav.focus == index + 1;
        let id = cat("library-filter-", decimal(index as u64).as_str());
        let label = match count {
            Some(count) => cat3(name, " · ", decimal(count as u64).as_str()),
            None => name.to_owned(),
        };
        let mut nodes = no_nodes();
        put(
            &mut nodes,
            node(id.as_str(), Role::Button, label.as_str(), Token::RestSurface).focused(
                focused,
            ).selected(active).activated_by(true),
        );
        put_if(&mut nodes, active, show_edge(index as u64, "top"));
        put_if(&mut nodes, active, show_edge(index as u64, "right"));
        put_if(&mut nodes, active, show_edge(index as u64, "bottom"));
        put_if(&mut nodes, active, show_edge(index as u64, "left"));
        let mut caption = no_nodes();
        put(
            &mut caption,
            node(
                cat(id.as_str(), "-label").as_str(),
                Role::Text,
                scale_aware_single_line(
                    name,
                    facts.chip_cells[index],
                    self.comfort.text_scale,
                ).as_str(),
                Token::RestSurface,
            ).lettered(TypeRole::Label).focused(focused).at(1),
        );
        put_all(&mut nodes, caption);
        let number: u64 = match count {
            Some(count) => count as u64,
            None => 0,
        };
        put_if(
            &mut nodes,
            count.is_some(),
            node(
                cat(id.as_str(), "-count").as_str(),
                Role::Text,
                decimal(number).as_str(),
                Token::RestSurface,
            ).lettered(TypeRole::Label).focused(focused).at(1),
        );
        put_if(
            &mut nodes,
            active,
            node(
                cat("library-selected-underline-", decimal(index as u64).as_str()).as_str(),
                Role::Group,
                "",
                Token::SelectedAccent,
            ),
        );
        nodes
    }

    fn show_toolbar(&self, facts: &SurfaceFacts) -> (nodes: Vec<SceneNode>)
        ensures
            node_models(nodes@) == self@.toolbar_nodes(*facts),
    {
        let words = cat3(
            "⌕  Search ",
            decimal(self.titles.items.len() as u64).as_str(),
            " titles",
        );
        let mut nodes = no_nodes();
        put(
            &mut nodes,
            node("library-search", Role::Button, words.as_str(), Token::RestSurface).focused(
                self.nav.focus == 0,
            ).activated_by(true),
        );
        put(
            &mut nodes,
            node(
                "library-search-placeholder",
                Role::Text,
                words.as_str(),
                Token::RestSurface,
            ).lettered(TypeRole::Label).at(1),
        );
        put_all(&mut nodes, self.show_chip(facts, 0));
        put_all(&mut nodes, self.show_chip(facts, 1));
        put_all(&mut nodes, self.show_chip(facts, 2));
        put_all(&mut nodes, self.show_chip(facts, 3));
        nodes
    }

    fn show_face(&self, facts: &SurfaceFacts, place: usize) -> (nodes: Vec<SceneNode>)
        requires
            self.wf(),
            place < self.titles.library_items@.len(),
        ensures
            node_models(nodes@) == self@.card_face(*facts, place as int),
    {
        let item_place = self.titles.library_items[place];
        assert(item_place < self.titles.items@.len() && place < usize::MAX - 64) by {
            reveal(ShellModel::ok);
            reveal(places_fit);
        }
        let item = &self.titles.items[item_place];
        let scale = self.comfort.text_scale;
        let mut shown = show_art(item, item_place, Showcase::Library, facts.card_cells, scale);
        put_all(
            &mut shown,
            show_cues(
                item,
                Showcase::Library,
                true,
                facts.card_cells,
                facts.card_badge_cells,
                None,
                scale,
            ),
        );
        let mut face = keep_nodes(&shown);
        if self.nav.focus == place + 5 {
            ring_node(&mut face, cat3("library-card", "-art-", item.id.as_str()).as_str());
        }
        face
    }

    fn show_card(&self, facts: &SurfaceFacts, place: usize) -> (nodes: Vec<SceneNode>)
        requires
            self.wf(),
            place < self.titles.library_items@.len(),
        ensures
            node_models(nodes@) == self@.card_nodes(*facts, place as int),
    {
        let item_place = self.titles.library_items[place];
        assert(item_place < self.titles.items@.len() && place < usize::MAX - 64) by {
            reveal(ShellModel::ok);
            reveal(places_fit);
        }
        let item = &self.titles.items[item_place];
        let mut nodes = no_nodes();
        put(
            &mut nodes,
            node(
                cat("library-item-", item.id.as_str()).as_str(),
                Role::ListItem,
                item.title.as_str(),
                Token::Canvas,
            ).focused(self.nav.focus == place + 5).activated_by(true),
        );
        put_all(&mut nodes, self.show_face(facts, place));
        put_if(&mut nodes, item.favorite, show_pin(item));
        let mut title = no_nodes();
        put(
            &mut title,
            node(
                cat("library-title-", item.id.as_str()).as_str(),
                Role::Text,
                scale_aware_single_line(
                    item.title.as_str(),
                    facts.card_cells,
                    self.comfort.text_scale,
                ).as_str(),
                Token::Canvas,
            ).lettered(TypeRole::Label).at(1),
        );
        put_all(&mut nodes, title);
        nodes
    }

    /// The nodes of the library.
    pub fn show_library(&self, facts: &SurfaceFacts) -> (nodes: Vec<SceneNode>)
        requires
            self.wf(),
            facts.wf(),
        ensures
            node_models(nodes@) == self@.library_nodes(*facts),
    {
        let columns = facts.grid.columns;
        let ahead: usize = if self.nav.focus > 5 {
            self.nav.focus - 5
        } else {
            0
        };
        let focused_row: usize = ahead / columns;
        let from: usize = if focused_row > facts.library_rows - 1 {
            focused_row - (facts.library_rows - 1)
        } else {
            0
        };
        let mut cards = no_nodes();
        let mut next: usize = 0;
        while next < self.titles.library_items.len()
            invariant
                next <= self.titles.library_items@.len(),
                self.wf(),
                facts.wf(),
                columns == facts.grid.columns,
                from == self@.library_from(*facts),
                node_models(cards@) == self@.cards_before(*facts, next as int),
            decreases self.titles.library_items@.len() - next,
        {
            let row: usize = next / columns;
            if row >= from && row - from < facts.library_rows {
                put_all(&mut cards, self.show_card(facts, next));
            }
            next += 1;
        }
        let mut nodes = self.show_toolbar(facts);
        put_all(&mut nodes, cards);
        let mut fade = no_nodes();
        put(
            &mut fade,
            node("library-grid-footer-fade", Role::Group, "", Token::Transparent).showing(
                Picture::FooterFade,
            ).inked(Token::OverlayRole),
        );
        put_all(&mut nodes, fade);
        nodes
    }
}

impl ShellModel {
    /// The caption of a result: its kind and whether it can be launched.
    pub open spec fn result_caption(self, item: ItemModel) -> Text {
        " · "@ + kind_name(item.kind) + " · "@ + availability_words(
            availability_of(item),
            self.session.presentation == Presentation::Starting,
        )
    }

    /// The nodes of a result.
    pub open spec fn result_nodes(self, facts: SurfaceFacts, place: int) -> Seq<NodeModel> {
        let item = self.titles.items[self.titles.search_results[place] as int];
        let id = "search-result-"@ + item.id;
        let caption = self.result_caption(item);
        let focused = self.nav.focus == place;
        let row = plain(id, Role::Button, item.title + caption, Token::RestSurface).lettered(
            TypeRole::Label,
        ).inked(Token::Transparent).focused(focused).activated_by(true).at(1);
        seq![
            if focused {
                row.framed(Token::FocusedRing, BorderWeight::Thick)
            } else {
                row
            },
            plain(
                id + "-title"@,
                Role::Text,
                ellipsized(item.title, facts.result_cells@[place].0 as int),
                Token::Transparent,
            ).lettered(TypeRole::Label).inked(Token::TextPrimary).at(2),
            plain(
                id + "-caption"@,
                Role::Text,
                ellipsized(caption, facts.result_cells@[place].1 as int),
                Token::Transparent,
            ).lettered(TypeRole::Caption).inked(Token::TextMuted).at(2),
        ]
    }

    /// The first result that is shown.
    pub open spec fn results_from(self, facts: SurfaceFacts) -> int {
        window_from(
            self.nav.focus,
            facts.result_capacity as int,
            self.titles.search_results.len() as int,
        )
    }

    /// The nodes of the results before a place.
    pub open spec fn results_before(self, facts: SurfaceFacts, upto: int) -> Seq<NodeModel>
        decreases upto - self.results_from(facts),
    {
        if upto <= self.results_from(facts) {
            Seq::empty()
        } else {
            self.results_before(facts, upto - 1) + self.result_nodes(facts, upto - 1)
        }
    }

    /// The nodes above the results.
    pub open spec fn query_nodes(self) -> Seq<NodeModel> {
        let nothing = self.titles.search_results.len() == 0;
        seq![
            plain("route-heading"@, Role::Heading, "SEARCH"@, Token::Canvas).lettered(
                TypeRole::Eyebrow,
            ),
            plain(
                "search-query"@,
                Role::Text,
                self.titles.search_query + "│"@,
                Token::Raised,
            ).lettered(TypeRole::Label).elevated().focused(nothing).searching_by(nothing).framed(
                if nothing {
                    Token::FocusedRing
                } else {
                    Token::BorderHairline
                },
                if nothing {
                    BorderWeight::Thick
                } else {
                    BorderWeight::Thin
                },
            ),
            plain(
                "search-hint"@,
                Role::Text,
                "SEARCH · Titles and tags · Back returns to where you were"@,
                Token::Transparent,
            ).lettered(TypeRole::Caption).inked(Token::TextMuted),
        ] + maybe(
            nothing,
            plain(
                "search-empty"@,
                Role::Text,
                if self.titles.items.len() == 0 {
                    "Your shelf is empty — nothing to search yet."@
                } else {
                    "Nothing matches — check the spelling, or browse the Library."@
                },
                Token::TextSecondary,
            ),
        ) + seq![
            plain(
                "search-results-scroll-region"@,
                Role::Group,
                "Search results"@,
                Token::Transparent,
            ),
        ]
    }

    /// The nodes of a search.
    pub open spec fn search_nodes(self, facts: SurfaceFacts) -> Seq<NodeModel> {
        self.query_nodes() + self.results_before(
            facts,
            least(
                self.results_from(facts) + facts.result_capacity,
                self.titles.search_results.len() as int,
            ),
        )
    }
}

impl ShellCore {
    /// Writes the caption of a result: its kind and whether it can be launched.
    pub fn write_result_caption(&self, item: &Item) -> (caption: String)
        ensures
            caption@ == self@.result_caption(item@),
    {
        let words = availability_text(
            &item.best_availability(),
            self.session.presentation == Presentation::Starting,
        );
        cat3(" · ", kind_text(&item.kind), " · ").concat(words.as_str())
    }

    fn show_result(&self, facts: &SurfaceFacts, place: usize) -> (nodes: Vec<SceneNode>)
        requires
            self.wf(),
            place < self.titles.search_results@.len(),
            place < facts.result_cells@.len(),
        ensures
            node_models(nodes@) == self@.result_nodes(*facts, place as int),
    {
        let item_place = self.titles.search_results[place];
        assert(item_place < self.titles.items@.len()) by {
            reveal(ShellModel::ok);
            reveal(places_fit);
        }
        let item = &self.titles.items[item_place];
        let id = cat("search-result-", item.id.as_str());
        let caption = self.write_result_caption(item);
        let focused = self.nav.focus == place;
        let row = node(
            id.as_str(),
            Role::Button,
            cat(item.title.as_str(), caption.as_str()).as_str(),
            Token::RestSurface,
        ).lettered(TypeRole::Label).inked(Token::Transparent).focused(focused).activated_by(
            true,
        ).at(1);
        let row = if focused {
            row.framed(Token::FocusedRing, BorderWeight::Thick)
        } else {
            row
        };
        let cells: (i64, i64) = facts.result_cells[place];
        let mut nodes = no_nodes();
        put(&mut nodes, row);
        put(
            &mut nodes,
            node(
                cat(id.as_str(), "-title").as_str(),
                Role::Text,
                ellipsize_to_cells(item.title.as_str(), cells.0).as_str(),
                Token::Transparent,
            ).lettered(TypeRole::Label).inked(Token::TextPrimary).at(2),
        );
        put(
            &mut nodes,
            node(
                cat(id.as_str(), "-caption").as_str(),
                Role::Text,
                ellipsize_to_cells(caption.as_str(), cells.1).as_str(),
                Token::Transparent,
            ).lettered(TypeRole::Caption).inked(Token::TextMuted).at(2),
        );
        nodes
    }

    fn show_query(&self) -> (nodes: Vec<SceneNode>)
        ensures
            node_models(nodes@) == self@.query_nodes(),
    {
        let nothing = self.titles.search_results.len() == 0;
        let mut nodes = no_nodes();
        put(
            &mut nodes,
            node("route-heading", Role::Heading, "SEARCH", Token::Canvas).lettered(
                TypeRole::Eyebrow,
            ),
        );
        put(
            &mut nodes,
            node(
                "search-query",
                Role::Text,
                cat(self.titles.search_query.as_str(), "│").as_str(),
                Token::Raised,
            ).lettered(TypeRole::Label).elevated().focused(nothing).searching_by(nothing).framed(
                if nothing {
                    Token::FocusedRing
                } else {
                    Token::BorderHairline
                },
                if nothing {
                    BorderWeight::Thick
                } else {
                    BorderWeight::Thin
                },
            ),
        );
        put(
            &mut nodes,
            node(
                "search-hint",
                Role::Text,
                "SEARCH · Titles and tags · Back returns to where you were",
                Token::Transparent,
            ).lettered(TypeRole::Caption).inked(Token::TextMuted),
        );
        put_if(
            &mut nodes,
            nothing,
            node(
                "search-empty",
                Role::Text,
                if self.titles.items.len() == 0 {
                    "Your shelf is empty — nothing to search yet."
                } else {
                    "Nothing matches — check the spelling, or browse the Library."
                },
                Token::TextSecondary,
            ),
        );
        let mut region = no_nodes();
        put(
            &mut region,
            node(
                "search-results-scroll-region",
                Role::Group,
                "Search results",
                Token::Transparent,
            ),
        );
        put_all(&mut nodes, region);
        nodes
    }

    /// The nodes of a search.
    pub fn show_search(&self, facts: &SurfaceFacts) -> (nodes: Vec<SceneNode>)
        requires
            self.wf(),
            facts.wf(),
            facts.result_cells@.len() >= self@.titles.search_results.len(),
        ensures
            node_models(nodes@) == self@.search_nodes(*facts),
    {
        let count: usize = self.titles.search_results.len();
        let capacity = facts.result_capacity;
        let from: usize = find_window(self.nav.focus, capacity, count);
        let end: usize = if count - from <= capacity {
            count
        } else {
            from + capacity
        };
        let mut results = no_nodes();
        let mut next: usize = from;
        while next < end
            invariant
                from <= next <= end <= count == self.titles.search_results@.len(),
                count <= facts.result_cells@.len(),
                self.wf(),
                from == self@.results_from(*facts),
                node_models(results@) == self@.results_before(*facts, next as int),
            decreases end - next,
        {
            put_all(&mut results, self.show_result(facts, next));
            next += 1;
        }
        let mut nodes = self.show_query();
        put_all(&mut nodes, results);
        nodes
    }
}

} // verus!
